//! A verified core for a one-shot initrd switch-root process.
//!
//! The crate holds the decision logic of the boot transition: extracting
//! `key=value` tokens from the kernel command line, encoding kernel-log
//! priorities and record lines, deriving loop-device paths, planning the
//! mount sequence, and the strictly ordered state machine that drives the
//! whole switch. The surrounding process performs the actual system calls
//! and feeds their outcomes back into the state machine.

pub mod bytebuf;
pub mod cmdline;
pub mod digits;
pub mod klog;
pub mod loopdev;
pub mod mounts;
pub mod switch;
