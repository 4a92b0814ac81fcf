use bevy_schedule_dispatch::Context;
use bevy_schedule_dispatch::ContextCell;
use bevy_schedule_dispatch::Convention;
use bevy_schedule_dispatch::DispatchFault;
use bevy_schedule_dispatch::DispatchPlugin;
use bevy_schedule_dispatch::Dispatcher;
use bevy_schedule_dispatch::MAX_ARITY;
use bevy_schedule_dispatch::SlotKey;

const ALL_CONVENTIONS: [Convention; 7] = [
    Convention::Platform,
    Convention::Cdecl,
    Convention::Stdcall,
    Convention::Fastcall,
    Convention::Win64,
    Convention::C,
    Convention::System,
];

#[test]
fn dispatch_before_globalize_faults() {
    let mut cell: ContextCell<u32, u32> = ContextCell::new();
    let d = Dispatcher::dispatcher(1, 1, Convention::C, 10, 20);
    let r = d.invoke(&mut cell, 5, 0, |c| c);
    assert_eq!(r, Err(DispatchFault::Uninitialized));
    // The fault is deterministic: every call before globalization faults.
    let r2 = d.invoke(&mut cell, 6, 0, |c| c);
    assert_eq!(r2, Err(DispatchFault::Uninitialized));
}

#[test]
fn fresh_dispatch_returns_default_for_every_arity_and_convention() {
    for arity in 0..=MAX_ARITY {
        for convention in ALL_CONVENTIONS {
            let mut cell: ContextCell<u32, u32> = ContextCell::new();
            DispatchPlugin::globalize_app(&mut cell, Context::new());
            let d = Dispatcher::dispatcher(1, arity, convention, arity, 100);
            // No task writes the output record and no prior dispatch has
            // run for this slot: the call returns the default value.
            let r = d.invoke(&mut cell, 5, 77, |c| c);
            assert_eq!(r, Ok(77));
        }
    }
}

#[test]
fn globalize_first_wins() {
    let out_k = SlotKey { graph: 1, shape: 20 };
    let mut first = Context::new();
    first.write_output(out_k, 1u32);
    let mut second = Context::new();
    second.write_output(out_k, 2u32);

    let mut cell: ContextCell<u32, u32> = ContextCell::new();
    let handle = DispatchPlugin::globalize_app(&mut cell, first);
    assert_eq!(handle.read_output(out_k), Some(1));
    // The second call yields a handle referencing the first context: the
    // second context is discarded and never observable.
    let handle = DispatchPlugin::globalize_app(&mut cell, second);
    assert_eq!(handle.read_output(out_k), Some(1));

    // The installed context is still the first one: a dispatch that runs no
    // task reads the output record the first context already held.
    let d = Dispatcher::dispatcher(1, 0, Convention::Platform, 10, 20);
    let r = d.invoke(&mut cell, 0, 0, |c| c);
    assert_eq!(r, Ok(1));
}

#[test]
fn stale_output_carries_over() {
    // The chosen, documented policy: an output record is created only when
    // absent and never reset, so a run that writes nothing returns the
    // value a previous run left behind, not the default.
    let out_k = SlotKey { graph: 1, shape: 20 };
    let mut cell: ContextCell<u32, u32> = ContextCell::new();
    DispatchPlugin::globalize_app(&mut cell, Context::new());
    let d = Dispatcher::dispatcher(1, 1, Convention::C, 10, 20);

    let first = d.invoke(&mut cell, 5, 0, |mut c| {
        c.write_output(out_k, 7);
        c
    });
    assert_eq!(first, Ok(7));

    let second = d.invoke(&mut cell, 5, 0, |c| c);
    assert_eq!(second, Ok(7));
}

#[test]
fn graph_reads_this_calls_arguments() {
    let in_k = SlotKey { graph: 1, shape: 10 };
    let out_k = SlotKey { graph: 1, shape: 20 };
    let mut cell: ContextCell<u32, u32> = ContextCell::new();
    DispatchPlugin::globalize_app(&mut cell, Context::new());
    let d = Dispatcher::dispatcher(1, 1, Convention::C, 10, 20);

    let run = move |mut c: Context<u32, u32>| {
        let staged = c.read_input(in_k).unwrap();
        c.write_output(out_k, staged + 1);
        c
    };
    assert_eq!(d.invoke(&mut cell, 5, 0, run), Ok(6));

    let run2 = move |mut c: Context<u32, u32>| {
        let staged = c.read_input(in_k).unwrap();
        c.write_output(out_k, staged + 1);
        c
    };
    assert_eq!(d.invoke(&mut cell, 41, 0, run2), Ok(42));
}

#[test]
fn boolean_gate_scenario() {
    // A one-argument, boolean-input, integer-output graph: a task reads the
    // staged boolean and writes 10 to the output record only when it is true.
    let in_k = SlotKey { graph: 1, shape: 10 };
    let out_k = SlotKey { graph: 1, shape: 20 };
    let d = Dispatcher::dispatcher(1, 1, Convention::C, 10, 20);

    let mut cell: ContextCell<bool, i32> = ContextCell::new();
    DispatchPlugin::globalize_app(&mut cell, Context::new());
    let run = move |mut c: Context<bool, i32>| {
        if c.read_input(in_k) == Some(true) {
            c.write_output(out_k, 10);
        }
        c
    };
    assert_eq!(d.invoke(&mut cell, true, 0, run), Ok(10));

    // With a fresh context and the argument false, nothing writes the
    // output record and the dispatch returns the default integer value.
    let mut fresh: ContextCell<bool, i32> = ContextCell::new();
    DispatchPlugin::globalize_app(&mut fresh, Context::new());
    let run_false = move |mut c: Context<bool, i32>| {
        if c.read_input(in_k) == Some(true) {
            c.write_output(out_k, 10);
        }
        c
    };
    assert_eq!(d.invoke(&mut fresh, false, 0, run_false), Ok(0));
}

#[test]
fn two_identities_do_not_interfere() {
    // Two distinct graph identities with the same argument and return
    // shapes: their dispatchers are distinct values and their records live
    // in distinct slots of the one shared context.
    let d1 = Dispatcher::dispatcher(1, 1, Convention::C, 10, 20);
    let d2 = Dispatcher::dispatcher(2, 1, Convention::C, 10, 20);
    assert_ne!(d1, d2);

    let mut cell: ContextCell<u32, u32> = ContextCell::new();
    DispatchPlugin::globalize_app(&mut cell, Context::new());

    let own_1 = move |mut c: Context<u32, u32>| {
        // This graph sees its own staged argument, and no record of the
        // other graph identity.
        assert_eq!(c.read_input(SlotKey { graph: 1, shape: 10 }), Some(5));
        assert_eq!(c.read_input(SlotKey { graph: 2, shape: 10 }), None);
        c.write_output(SlotKey { graph: 1, shape: 20 }, 100);
        c
    };
    assert_eq!(d1.invoke(&mut cell, 5, 0, own_1), Ok(100));

    let own_2 = move |mut c: Context<u32, u32>| {
        assert_eq!(c.read_input(SlotKey { graph: 2, shape: 10 }), Some(6));
        assert_eq!(c.read_input(SlotKey { graph: 1, shape: 10 }), Some(5));
        c.write_output(SlotKey { graph: 2, shape: 20 }, 200);
        c
    };
    assert_eq!(d2.invoke(&mut cell, 6, 0, own_2), Ok(200));

    // The second identity's dispatch did not disturb the first one's
    // output record.
    let noop_1 = |c: Context<u32, u32>| c;
    assert_eq!(d1.invoke(&mut cell, 5, 0, noop_1), Ok(100));
}

#[test]
fn missing_output_record_faults() {
    // A graph run that discards the staged context violates the staging
    // invariant: the expected output record is gone after the run.
    let mut cell: ContextCell<u32, u32> = ContextCell::new();
    DispatchPlugin::globalize_app(&mut cell, Context::new());
    let d = Dispatcher::dispatcher(1, 1, Convention::C, 10, 20);
    let r = d.invoke(&mut cell, 5, 0, |_c| Context::new());
    assert_eq!(r, Err(DispatchFault::MissingOutput));
}
