//! Control synchronization for capture devices.
//!
//! A device reports an ordered catalog of control descriptors. The library
//! keeps a cached value beside each descriptor, decides which cached values
//! are due for a write, encodes each write by the control's kind, and records
//! one outcome per control. Opening devices and performing the writes is left
//! to the caller, who hands the results back.

pub mod descriptor;
pub mod sync;
pub mod cache;
pub mod selection;
