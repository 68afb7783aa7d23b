//! A bidirectional protocol layer chain and a cancellable task supervisor.
//!
//! The chain routes a message up or down a pipeline of stages, each stage's
//! result deciding which neighbour handles it next.  The supervisor model
//! captures the decisions of a cancellable unit of work that streams
//! lifecycle events to an observer.

use vstd::prelude::*;

pub mod function;
pub mod layer;
pub mod task;

pub use function::Function;
pub use function::Service;
pub use function::service;
pub use layer::ChainContext;
pub use layer::ChainError;
pub use layer::Direction;
pub use layer::Layer;
pub use layer::LayerBuilder;
pub use layer::LayerChain;
pub use layer::LayerResult;
pub use layer::PayLoad;
pub use layer::ProtocolAware;
pub use layer::protocol_handler;
pub use task::SupervisorState;
pub use task::TaskEvent;

verus! {

/// A unit of work that can be run to completion.
pub trait Runnable {
    fn run(&mut self);
}

/// A unit of work that produces a value when invoked.
pub trait Callable<T> {
    fn call(&mut self) -> T;
}

/// Access to the exports of a module-like value.
pub trait Import<Module> {
    fn reference(&self) -> &Module;
}

} // verus!
