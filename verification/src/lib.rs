//! A dispatch bridge: lets a caller invoke a declaratively composed task
//! graph as if it were an ordinary function call, by staging the call's
//! arguments into a shared execution context, running the graph, and
//! extracting a return value.
//!
//! The bridge's state and its dispatch sequence live here with full
//! contracts; the native entry-point synthesis (machine-level calling
//! conventions, the process-global context handle) is an unverified shell
//! around this crate.

pub mod bridge;
pub mod context;
pub mod laws;
pub mod slot;

pub use bridge::Convention;
pub use bridge::ContextCell;
pub use bridge::DispatchFault;
pub use bridge::DispatchPlugin;
pub use bridge::Dispatcher;
pub use bridge::MAX_ARITY;
pub use context::Context;
pub use context::DispIn;
pub use context::DispOut;
pub use slot::SlotKey;
pub use slot::SlotStore;
