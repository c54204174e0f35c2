//! Debouncing of a single button on a Linux input device.
//!
//! The crate is the decision core of a small event monitor: it frames the
//! binary records that an input device delivers, filters the chatter of one
//! watched button into clean press and release events, and tells a driver
//! which platform operation to perform next. It performs no I/O itself.

pub mod clock;
pub mod codec;
pub mod debounce;
pub mod session;
