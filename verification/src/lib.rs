//! Verified core of a POSIX conformance suite: result bookkeeping, report
//! formatting, and the decoding and checking logic that the syscall tests use.

pub mod checks;
pub mod dirent;
pub mod fdset;
pub mod io_verdicts;
pub mod kernel_types;
pub mod limits;
pub mod memory;
pub mod report;
pub mod sigset;
pub mod sockets;
pub mod sockaddr;
pub mod text;
pub mod wait_status;
