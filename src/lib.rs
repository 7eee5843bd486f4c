//! Serial device access with caller-chosen timeouts: the decisions that every
//! backend makes, stated and proved over plain values.
pub mod budget;
pub mod comm;
pub mod error;
pub mod event_read;
pub mod names;
pub mod overlapped;
pub mod posix;
pub mod span;
