//! Automatic latency instrumentation for callables.
//!
//! A declaration-time resolver decides, for every annotated callable,
//! whether a measurement guard is injected and under which metric name;
//! a runtime scoped guard emits one histogram observation when the
//! instrumented scope ends.

pub mod declaration;
pub mod directive;
pub mod injector;
pub mod resolver;
pub mod timer;

pub use timer::FunctionTimer;
