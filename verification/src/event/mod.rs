//! Events: the records a group hands out, decoded.

pub mod buffer;
pub mod error;
pub mod event;
pub mod file;
pub mod id;
pub mod iterator;
pub mod iterator_ext;
pub mod responses;
