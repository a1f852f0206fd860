//! A command-execution cache: the rules by which a command line is
//! fingerprinted, its outcome recorded, framed for storage, and replaced by
//! the last good outcome when it fails.

pub mod hex;
pub mod text;
pub mod fingerprint;
pub mod item;
pub mod codec;
pub mod cache;
pub mod store;
