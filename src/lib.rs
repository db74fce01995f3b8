//! Ownership and decision logic over raw operating-system descriptors and
//! process-control primitives, reporting through one structured error domain.

pub mod c_error;
pub mod c_result;
pub mod wait;
pub mod file;
pub mod fork;
pub mod pipe;
pub mod exec;
pub mod cwd;
