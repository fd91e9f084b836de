//! Guest side of a sandbox protocol: a host hands bytes to a guest through the
//! guest's linear memory, the guest runs one registered computation on them and
//! answers through exactly one of two callbacks.

pub mod error;
pub mod memory;
pub mod runnable;
