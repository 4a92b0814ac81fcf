//! The dispatch bridge itself: the initialize-once context cell, the
//! synthesizer's dispatcher descriptors, and the dispatch sequence one
//! produced entry point performs — acquire the context, stage the input
//! record, ensure an output record, run the task graph, extract the value.

use vstd::prelude::*;
use vstd::pervasive::unreached;
use crate::context::Context;
use crate::slot::SlotKey;

verus! {

/// The highest argument arity a dispatcher can be synthesized for.
pub const MAX_ARITY: u64 = 13;

/// A calling-convention tag: classifies how arguments are physically passed
/// to a produced native entry point.  The tag is fixed at synthesis time and
/// carries no runtime state; the staging and extraction a dispatcher
/// performs never depend on it.
#[derive(Clone, Copy, Debug, PartialEq, Eq, Structural)]
pub enum Convention {
    /// The platform's default convention.
    Platform,
    /// The `cdecl` convention.
    Cdecl,
    /// The `stdcall` convention.
    Stdcall,
    /// The `fastcall` convention.
    Fastcall,
    /// The `win64` convention.
    Win64,
    /// The `C` convention.
    C,
    /// The `system` convention.
    System,
}

/// The two unrecoverable dispatch faults.  There is no recoverable-error
/// path: anything else either succeeds or is undefined behaviour at the
/// native boundary, which the bridge does not detect by design.
#[derive(Clone, Copy, Debug, PartialEq, Eq, Structural)]
pub enum DispatchFault {
    /// A dispatcher was invoked before any context was globalized.
    Uninitialized,
    /// After the graph ran, the expected output record was missing — the
    /// staging invariant (an output record is ensured before the run) was
    /// violated by the graph run itself.
    MissingOutput,
}

/// The cell holding the shared execution context.  It starts empty, is
/// filled at most once (first writer wins), and is never emptied again
/// during normal operation.  Exclusive access — the single lock the bridge
/// serializes every dispatch on — is modeled by `&mut`: holding `&mut` on
/// the cell is holding the lock.  The lock is not reentrant: a task that
/// triggers another dispatch against the same cell while its own dispatch
/// is still running deadlocks a native shell, and here cannot be written at
/// all, since the running dispatch owns the cell exclusively.
pub struct ContextCell<A, R> {
    inner: Option<Context<A, R>>,
}

/// What installing `ctx` into a cell in state `prior` yields: the first
/// installed context wins, and a later one is discarded silently.
pub open spec fn globalize_transition<A, R>(
    prior: Option<Context<A, R>>,
    ctx: Context<A, R>,
) -> Option<Context<A, R>> {
    if prior is Some {
        prior
    } else {
        Some(ctx)
    }
}

impl<A, R> ContextCell<A, R> {
    /// The cell's abstract state: the installed context, if any.
    pub closed spec fn state(self) -> Option<Context<A, R>> {
        self.inner
    }

    /// Whether a context has been globalized into this cell.
    pub open spec fn is_initialized(self) -> bool {
        self.state() is Some
    }

    /// The installed context.
    pub open spec fn ctx(self) -> Context<A, R>
        recommends
            self.is_initialized(),
    {
        self.state().unwrap()
    }

    /// An empty cell: no context has been globalized yet, and every
    /// dispatch through it faults until one is.
    pub fn new() -> (r: Self)
        ensures
            !r.is_initialized(),
    {
        ContextCell { inner: None }
    }
}

/// The bridge's setup entry point, as a host-plugin integration surface.
/// The plugin registers nothing of its own: its one capability is
/// globalizing a caller-constructed context.
pub struct DispatchPlugin;

impl DispatchPlugin {
    /// Install `ctx` as the shared execution context of `cell`, exactly
    /// once: if the cell is still empty the context is stored, and if one
    /// was installed earlier the new context is discarded and the existing
    /// one kept — first writer wins, silently on conflict.  Either way the
    /// returned handle refers to the context that won.
    pub fn globalize_app<A, R>(cell: &mut ContextCell<A, R>, ctx: Context<A, R>) -> (r: &Context<
        A,
        R,
    >)
        ensures
            final(cell).state() == globalize_transition(old(cell).state(), ctx),
            *r == final(cell).ctx(),
    {
        if cell.inner.is_none() {
            cell.inner = Some(ctx);
        }
        match &cell.inner {
            Some(installed) => installed,
            None => unreached(),
        }
    }
}

/// The staging step of one dispatch: `c1` is `c0` with this call's
/// arguments staged as the input record at `in_k` and an output record
/// ensured at `out_k` — kept as-is if present, created holding `d` if
/// absent.  No record under any other slot changes.
pub open spec fn staged_for<A: Copy, R: Copy>(
    c0: Context<A, R>,
    c1: Context<A, R>,
    in_k: SlotKey,
    args: A,
    out_k: SlotKey,
    d: R,
) -> bool {
    &&& c1.staged_input(in_k) == Some(args)
    &&& (forall|k: SlotKey| k != in_k ==> c1.staged_input(k) == c0.staged_input(k))
    &&& c1.output_val(out_k) == (if c0.output_val(out_k) is Some {
        c0.output_val(out_k)
    } else {
        Some(d)
    })
    &&& (forall|k: SlotKey| k != out_k ==> c1.output_val(k) == c0.output_val(k))
}

/// A synthesized dispatcher: the model of one produced native entry point,
/// specialized at synthesis time to a graph identity, an argument shape of
/// a given arity, a return shape, and a calling-convention tag.  Each
/// distinct combination is an independently addressable value.
#[derive(Clone, Copy, Debug, PartialEq, Eq, Structural)]
pub struct Dispatcher {
    /// The graph identity this entry point runs.
    pub graph: u64,
    /// How many arguments the produced entry point takes.
    pub arity: u64,
    /// The calling convention the produced entry point honours.
    pub convention: Convention,
    /// The shape of the argument-type signature, keying the input record.
    pub in_shape: u64,
    /// The shape of the return type, keying the output record.
    pub out_shape: u64,
}

impl Dispatcher {
    /// The slot the input record of this dispatcher's calls lives in.
    pub open spec fn in_key(self) -> SlotKey {
        SlotKey { graph: self.graph, shape: self.in_shape }
    }

    /// The slot the output record of this dispatcher's calls lives in.
    pub open spec fn out_key(self) -> SlotKey {
        SlotKey { graph: self.graph, shape: self.out_shape }
    }

    /// Synthesize the dispatcher for one (graph identity, arity, calling
    /// convention, shapes) combination.  Every arity up to [`MAX_ARITY`]
    /// crossed with every convention tag is supported, and the result is a
    /// distinct, independently usable dispatcher value.
    pub fn dispatcher(
        graph: u64,
        arity: u64,
        convention: Convention,
        in_shape: u64,
        out_shape: u64,
    ) -> (r: Self)
        requires
            arity <= MAX_ARITY,
        ensures
            r == (Dispatcher { graph, arity, convention, in_shape, out_shape }),
    {
        Dispatcher { graph, arity, convention, in_shape, out_shape }
    }

    /// One call of the produced entry point.  In order: take exclusive hold
    /// of the context (a call before any globalization faults with
    /// [`DispatchFault::Uninitialized`] and changes nothing); stage the
    /// input record; ensure an output record, default if absent; run the
    /// task graph, handed in as `run_graph` since the graph engine is an
    /// external collaborator; read the output record's value and return it.
    /// If the run left no output record in place, the staging invariant was
    /// violated and the call faults with [`DispatchFault::MissingOutput`].
    ///
    /// The contract never mentions `self.arity` or `self.convention`: what
    /// a dispatch does is the same for every supported arity and calling
    /// convention.  A graph run only ever sees the context in which this
    /// call's own arguments are the staged input record.
    pub fn invoke<A: Copy, R: Copy, F: FnOnce(Context<A, R>) -> Context<A, R>>(
        &self,
        cell: &mut ContextCell<A, R>,
        args: A,
        default_ret: R,
        run_graph: F,
    ) -> (r: Result<R, DispatchFault>)
        requires
            forall|c: Context<A, R>| #[trigger] call_requires(run_graph, (c,)),
        ensures
            !old(cell).is_initialized() ==> r == Err::<R, DispatchFault>(
                DispatchFault::Uninitialized,
            ) && *final(cell) == *old(cell),
            old(cell).is_initialized() ==> final(cell).is_initialized() && (exists|
                mid: Context<A, R>,
            |
                staged_for(old(cell).ctx(), mid, self.in_key(), args, self.out_key(), default_ret)
                    && #[trigger] call_ensures(run_graph, (mid,), final(cell).ctx())) && (match r {
                Ok(v) => final(cell).ctx().output_val(self.out_key()) == Some(v),
                Err(f) => f == DispatchFault::MissingOutput && final(cell).ctx().output_val(
                    self.out_key(),
                ) is None,
            }),
    {
        match cell.inner.take() {
            None => Err(DispatchFault::Uninitialized),
            Some(mut ctx) => {
                let in_k = SlotKey { graph: self.graph, shape: self.in_shape };
                let out_k = SlotKey { graph: self.graph, shape: self.out_shape };
                ctx.stage_input(in_k, args);
                ctx.ensure_output(out_k, default_ret);
                let ghost mid = ctx;
                let ctx2 = run_graph(ctx);
                let out = ctx2.read_output(out_k);
                cell.inner = Some(ctx2);
                proof {
                    assert(staged_for(
                        old(cell).ctx(),
                        mid,
                        self.in_key(),
                        args,
                        self.out_key(),
                        default_ret,
                    ));
                }
                match out {
                    Some(v) => Ok(v),
                    None => Err(DispatchFault::MissingOutput),
                }
            },
        }
    }
}

} // verus!
