//! A typed layer over the Linux fanotify interface: the flags a group is
//! opened with, the marks attached to it, the codec for the event records the
//! kernel hands back, and the protocol for answering permission events.

pub mod libc;
pub mod call;
pub mod fd;
pub mod flag_text;
pub mod init;
pub mod mark;
pub mod event;
pub mod fanotify;
