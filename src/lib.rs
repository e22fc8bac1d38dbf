//! Typed, verified results and argument marshaling for a small set of Linux
//! process and filesystem calls: `dup`, `dup2`, `dup3`, `chdir`, `execve` and
//! `pivot_root`.
//!
//! The raw kernel entry points are reached by the caller; this library turns
//! what they return into typed results and builds the null-terminated byte
//! strings they take.

pub mod error;
pub mod fcntl;
pub mod cstr;
pub mod unistd;

pub use error::{SysError, SysResult};
pub use fcntl::{Fd, OFlag};
pub use cstr::{to_c_path, to_c_vector};
pub use unistd::{exec_error, fd_result, unit_result, ExecArgs, PivotRootArgs};


