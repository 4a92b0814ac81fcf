//! The execution context: the shared environment a task graph runs over.
//! It owns the slot store and stages input and output records in it, one
//! record per (graph identity, type-signature shape) slot.

use vstd::prelude::*;
use crate::slot::SlotKey;
use crate::slot::SlotStore;

verus! {

/// Input staging record: the positional arguments of one dispatch call,
/// carried by value as a single payload, and stored under the slot of the
/// call's exact argument-type signature.
#[derive(Clone, Copy, Debug)]
pub struct DispIn<A> {
    /// The call's arguments, in order, as one value.
    pub args: A,
}

impl<A> DispIn<A> {
    /// A fresh input record holding this call's arguments.
    pub fn new(args: A) -> (r: Self)
        ensures
            r.args == args,
    {
        DispIn { args }
    }
}

/// Output staging record: holds one mutable return value, stored under the
/// slot of the dispatch's return-type shape.
#[derive(Clone, Copy, Debug)]
pub struct DispOut<R> {
    /// The return value the next extraction will read.
    pub ret: R,
}

impl<R> DispOut<R> {
    /// A fresh output record holding `ret`.
    pub fn new(ret: R) -> (r: Self)
        ensures
            r.ret == ret,
    {
        DispOut { ret }
    }
}

/// The execution context: owns one slot store of input records and one of
/// output records.  `A` is the payload type of a staged argument list, `R`
/// the return-value type; both are held by value and must be trivially
/// copyable, which is all the bridge supports.
pub struct Context<A, R> {
    inputs: SlotStore<DispIn<A>>,
    outputs: SlotStore<DispOut<R>>,
}

impl<A: Copy, R: Copy> Context<A, R> {
    /// The arguments currently staged at slot `k`, if a record is present.
    pub closed spec fn staged_input(self, k: SlotKey) -> Option<A> {
        match self.inputs.spec_get(k) {
            Some(rec) => Some(rec.args),
            None => None,
        }
    }

    /// The return value currently held at slot `k`, if a record is present.
    pub closed spec fn output_val(self, k: SlotKey) -> Option<R> {
        match self.outputs.spec_get(k) {
            Some(rec) => Some(rec.ret),
            None => None,
        }
    }

    /// A fresh context with no staged record under any slot.
    pub fn new() -> (r: Self)
        ensures
            forall|k: SlotKey| r.staged_input(k) is None,
            forall|k: SlotKey| r.output_val(k) is None,
    {
        Context { inputs: SlotStore::new(), outputs: SlotStore::new() }
    }

    /// Stage this call's arguments: store an input record at `k`,
    /// superseding any record of the exact same slot; every other input
    /// record and every output record is untouched.
    pub fn stage_input(&mut self, k: SlotKey, args: A)
        ensures
            final(self).staged_input(k) == Some(args),
            forall|k2: SlotKey| k2 != k ==> final(self).staged_input(k2) == old(
                self,
            ).staged_input(k2),
            forall|k2: SlotKey| final(self).output_val(k2) == old(self).output_val(k2),
    {
        self.inputs.insert(k, DispIn::new(args));
    }

    /// Ensure an output record exists at `k`: if none is present one is
    /// created holding `default`, and an existing record is kept as-is —
    /// its value is not reset.  Every other record is untouched.
    pub fn ensure_output(&mut self, k: SlotKey, default: R)
        ensures
            final(self).output_val(k) == (if old(self).output_val(k) is Some {
                old(self).output_val(k)
            } else {
                Some(default)
            }),
            forall|k2: SlotKey| k2 != k ==> final(self).output_val(k2) == old(self).output_val(k2),
            forall|k2: SlotKey| final(self).staged_input(k2) == old(self).staged_input(k2),
    {
        self.outputs.ensure(k, DispOut::new(default));
    }

    /// Set the return value at `k`, superseding any record held there; this
    /// is how a task of the running graph deposits its result.  Every other
    /// record is untouched.
    pub fn write_output(&mut self, k: SlotKey, v: R)
        ensures
            final(self).output_val(k) == Some(v),
            forall|k2: SlotKey| k2 != k ==> final(self).output_val(k2) == old(self).output_val(k2),
            forall|k2: SlotKey| final(self).staged_input(k2) == old(self).staged_input(k2),
    {
        self.outputs.insert(k, DispOut::new(v));
    }

    /// The arguments staged at `k`, if an input record is present; this is
    /// how a task of the running graph reads the call's arguments.
    pub fn read_input(&self, k: SlotKey) -> (r: Option<A>)
        ensures
            r == self.staged_input(k),
    {
        match self.inputs.get(k) {
            Some(rec) => Some(rec.args),
            None => None,
        }
    }

    /// The return value held at `k`, if an output record is present.
    pub fn read_output(&self, k: SlotKey) -> (r: Option<R>)
        ensures
            r == self.output_val(k),
    {
        match self.outputs.get(k) {
            Some(rec) => Some(rec.ret),
            None => None,
        }
    }
}

} // verus!
