//! Constant-time comparison and secure erasure of secret byte buffers.
//!
//! The comparator decides equality of two credentials with a fixed number of
//! loop iterations and no data-dependent branch, so elapsed time does not
//! reveal where the buffers differ. The eraser overwrites a buffer with zero
//! bytes through writes the optimizer may not elide, so no copy of the secret
//! stays readable after use.

pub mod compare;
pub mod erase;

pub use compare::bytes_match;
pub use compare::constant_pwd_cmp;
pub use compare::vulnerable_pwd_cmp;
pub use erase::all_zero;
pub use erase::zeroed;
pub use erase::zeroize_memory;
