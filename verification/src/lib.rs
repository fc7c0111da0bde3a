//! Runtime-agnostic synthesis of property-based test wrappers for async
//! functions.
//!
//! Given a model of an annotated async function and an opaque configuration
//! argument list, the library validates the function (no receiver parameter,
//! no pre-existing unit-test marker, declared async) and emits a replacement
//! zero-parameter test function: the original definition nested verbatim, a
//! plain bridging function value that drives the async function to
//! completion, and a call into the property-testing engine's entry point,
//! run on a dedicated blocking worker (thread-pool flavor) or inline
//! (single-threaded flavor).

pub mod ast;
pub mod extract;
pub mod guards;
pub mod synth;
pub mod text;

pub use synth::async_std;
pub use synth::tokio;
