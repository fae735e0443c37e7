//! Core of a small object model: a borrow-checked synchronization cell, a
//! tagged object handle, and the immutable byte buffer built-in type.

pub mod cell;
pub mod error;
pub mod bytes;
pub mod object;
pub mod class;
