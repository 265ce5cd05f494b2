//! Reconstruction of a navigable address space from a process crash-dump
//! container: a format detector, a pure resolver from the dump's system
//! description to a platform identifier, and a collector that unifies the
//! container's two memory-region stream encodings into one segment table.

pub mod builder;
pub mod bytes;
pub mod container;
pub mod detect;
pub mod errors;
pub mod platform;
pub mod segments;

