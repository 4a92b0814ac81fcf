//! The bridge's guarantees that relate several operations, stated and
//! proved over the same spec functions the operations' own contracts use.

use vstd::prelude::*;
use crate::bridge::Dispatcher;
use crate::bridge::globalize_transition;
use crate::bridge::staged_for;
use crate::context::Context;
use crate::slot::SlotKey;

verus! {

/// Globalization is idempotent, first writer wins: installing context `x`
/// into an empty cell and then installing `y` leaves `x` installed, and `y`
/// is never observable.  More generally, once any context is installed,
/// every later installation attempt changes nothing.
pub proof fn lemma_globalize_first_wins<A, R>(x: Context<A, R>, y: Context<A, R>)
    ensures
        globalize_transition(globalize_transition(None::<Context<A, R>>, x), y) == Some(x),
        forall|s: Option<Context<A, R>>, c: Context<A, R>|
            s is Some ==> #[trigger] globalize_transition(s, c) == s,
{
}

/// Default on a fresh slot: for any synthesized dispatcher — whatever its
/// arity and calling-convention tag — if no output record for its target
/// slot existed before the call and the graph run leaves that slot
/// untouched, the value the dispatch extracts is the supplied default.
pub proof fn lemma_fresh_dispatch_returns_default<A: Copy, R: Copy>(
    d: Dispatcher,
    c0: Context<A, R>,
    mid: Context<A, R>,
    end: Context<A, R>,
    args: A,
    default_ret: R,
)
    requires
        c0.output_val(d.out_key()) is None,
        staged_for(c0, mid, d.in_key(), args, d.out_key(), default_ret),
        end.output_val(d.out_key()) == mid.output_val(d.out_key()),
    ensures
        end.output_val(d.out_key()) == Some(default_ret),
{
}

/// Output-record persistence: staging keeps an output record that an
/// earlier dispatch left behind, so a graph run that writes nothing makes
/// the dispatch return the stale value, not the default.  This is the
/// chosen, deliberate policy: an output record is created only when absent
/// and is never reset.
pub proof fn lemma_stale_output_carries_over<A: Copy, R: Copy>(
    d: Dispatcher,
    c0: Context<A, R>,
    mid: Context<A, R>,
    end: Context<A, R>,
    args: A,
    default_ret: R,
    v1: R,
)
    requires
        c0.output_val(d.out_key()) == Some(v1),
        staged_for(c0, mid, d.in_key(), args, d.out_key(), default_ret),
        end.output_val(d.out_key()) == mid.output_val(d.out_key()),
    ensures
        end.output_val(d.out_key()) == Some(v1),
{
}

/// A graph run sees only its own call's arguments: in the context a
/// dispatch hands to the graph engine, the input record of the dispatcher's
/// slot holds exactly the arguments of that call.  Dispatches are fully
/// serialized — exclusive access to the cell is required for the whole
/// sequence — so no run can observe another call's staging mid-flight.
pub proof fn lemma_dispatch_sees_own_arguments<A: Copy, R: Copy>(
    d: Dispatcher,
    c0: Context<A, R>,
    mid: Context<A, R>,
    args: A,
    default_ret: R,
)
    requires
        staged_for(c0, mid, d.in_key(), args, d.out_key(), default_ret),
    ensures
        mid.staged_input(d.in_key()) == Some(args),
{
}

/// Distinct graph identities do not interfere: staging for one dispatcher
/// leaves every record slot of a different graph identity — input and
/// output alike — exactly as it was.
pub proof fn lemma_distinct_graphs_do_not_interfere<A: Copy, R: Copy>(
    d: Dispatcher,
    c0: Context<A, R>,
    mid: Context<A, R>,
    args: A,
    default_ret: R,
    other: SlotKey,
)
    requires
        staged_for(c0, mid, d.in_key(), args, d.out_key(), default_ret),
        other.graph != d.graph,
    ensures
        mid.staged_input(other) == c0.staged_input(other),
        mid.output_val(other) == c0.output_val(other),
{
}

/// Arity and calling convention never affect what a dispatch does: two
/// dispatchers that agree on graph identity and record shapes perform the
/// same staging, whatever their arity or convention tag.
pub proof fn lemma_convention_does_not_affect_staging<A: Copy, R: Copy>(
    d1: Dispatcher,
    d2: Dispatcher,
    c0: Context<A, R>,
    mid: Context<A, R>,
    args: A,
    default_ret: R,
)
    requires
        d1.graph == d2.graph,
        d1.in_shape == d2.in_shape,
        d1.out_shape == d2.out_shape,
        staged_for(c0, mid, d1.in_key(), args, d1.out_key(), default_ret),
    ensures
        staged_for(c0, mid, d2.in_key(), args, d2.out_key(), default_ret),
{
}

} // verus!
