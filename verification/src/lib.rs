//! Acquisition of a ready-to-use GPU compute context.
//!
//! The library obtains, in one linear negotiation sequence over the wgpu
//! backend, the three handles a compute workload needs: a physical adapter,
//! a logical device derived from it, and the device's command queue. Every
//! failure in that sequence is mapped to a closed, matchable error taxonomy,
//! and every failure leaves exactly one diagnostic in the caller's log.

pub mod backend;
pub mod context;
pub mod diagnostics;
pub mod error;
pub mod stub;

pub use context::Context;
pub use diagnostics::DiagnosticLog;
pub use error::ContextCreationError;
