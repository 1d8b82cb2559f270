//! MD5 message digest with a machine-checked functional specification.
//!
//! [`Md5::hash`] returns the 16-byte digest of a byte sequence and
//! [`Md5::hash_string`] its rendering in 32 lowercase hexadecimal digits.
//! The module [`model`] defines the digest mathematically; every executable
//! function is proved to compute what the model says, without overflow and
//! without panic.
//!
//! MD5 is not collision resistant. Use it for checksums and for
//! compatibility, never for security.
pub mod digest;
pub mod endian;
pub mod hex;
pub mod laws;
pub mod model;
pub mod padding;
pub mod state;
pub mod tables;
pub mod word;

pub use crate::digest::Md5;
pub use crate::state::Md5State;
