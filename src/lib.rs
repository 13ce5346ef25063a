//! An ownership-checked layer over a GPU compute driver: device discovery,
//! contexts and their active handles, device memory, streams, kernel launch,
//! and JIT linking.
//!
//! The driver itself is reached by the caller. Each operation here checks
//! its inputs and builds the exact native request it makes, as a
//! [`driver::DriverCall`]. An operation whose result is the driver's status,
//! or a value it writes back unchanged, returns that request under the
//! operation's name, and [`driver::complete`] maps the answer. One whose
//! result is built from the driver's answer has a `..._call` function for
//! the request and a function under the operation's name that takes the
//! answer and builds the result (a link session is opened by `create_call`
//! and `created`). Native resources are released by requests
//! that consume their owner, so none is released twice.
use vstd::prelude::*;

pub mod context;
pub mod device;
pub mod dim3;
pub mod driver;
pub mod error;
pub mod func;
pub mod future;
pub mod kernel_params;
pub mod mem;
pub mod module;
pub mod stream;
pub mod version;

verus! {

/// The entry point for process-wide driver operations.
pub struct Cuda;

} // verus!
