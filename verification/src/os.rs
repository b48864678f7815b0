//! Platform-specific capability extensions of the facade. Each submodule
//! gathers the operations only one platform offers; the wrapping discipline
//! is the same as everywhere else.

pub mod unix;
pub mod windows;
