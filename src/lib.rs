//! Low-level system primitives: the decisions and conversions that sit between
//! the kernel's raw call results and the values handed to callers, public-address
//! classification, security-module lists and hex-encoded content digests.

pub mod sys;
pub mod hash;
pub mod net;
pub mod lsm;
pub mod random;
