//! Runtime safety layer for handing memory-owning objects across a C ABI.
//!
//! The core is a registry of live handles (`registry`) that decides, for every
//! address presented back by foreign code, whether it is live and of which type,
//! and that releases each handle's cleanup exactly once. Around it stand the
//! error types reported at the boundary, the per-thread "last error" slot, the
//! tracker of raw string and byte allocations, and buffer-size checks.

pub mod digits;
pub mod error;
pub mod last_error;
pub mod registry;
pub mod allocations;
pub mod buffer;
pub mod text;
pub mod cimpl_error;

pub use allocations::AllocationTracker;
pub use error::Error;
pub use error::ErrorCode;
pub use last_error::LastError;
pub use registry::PointerRegistry;
