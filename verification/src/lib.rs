//! Checksums over strings: a capability that every checksum algorithm offers,
//! the Luhn algorithm as its one implementation, the failures that either
//! operation can report, and the selection of an algorithm and an operation
//! from the words of a command line.

pub mod checksum;
pub mod command;
pub mod error;
pub mod luhn;
pub mod text;

pub use crate::checksum::Checksum;
pub use crate::error::ChecksumError;
pub use crate::luhn::Luhn;
