//! Effective access of the invoking principal to filesystem entries: decoding
//! POSIX permission bits, classifying the principal against an entry's owner
//! and group, and choosing the capability set that governs it.

pub mod access;
pub mod capability;
pub mod identity;
pub mod mode;
