//! Process introspection: PID enumeration and filtering, per-process info
//! records selected by flavor codes, and the kernel message buffer.
//!
//! The decisions of each backend (how a native return code is read, how a
//! `/proc` record is parsed, which processes a filter keeps) are verified here
//! as functions of plain values.

pub mod text;
pub mod helpers;
pub mod processes;
pub mod procfs;
pub mod proc_pid;
pub mod bsd_info;
pub mod task_info;
pub mod thread_info;
pub mod work_queue_info;
pub mod pid_rusage;
pub mod file_info;
pub mod net_info;
pub mod kmesg_buffer;
