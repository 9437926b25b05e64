//! Helpers that are not about layout itself.

pub mod unsafe_ptr;

pub use unsafe_ptr::UnsafePtr;
