//! A minimal freestanding runtime shim, modelled and verified.
//!
//! A freestanding module exports a handful of entry points to a host and
//! imports the host's diagnostic sinks (one for raw bytes, one for signed
//! 32-bit numbers).  This crate holds the part of such a shim that is pure
//! computation: the 8-byte heap-base alignment rule, the fixed diagnostic
//! messages, and, for each entry point, the exact sequence of import calls
//! it forwards to the host.  The host side (actually writing to the sinks,
//! aborting the process on a fatal fault) is not computation and stays
//! outside the library.

pub mod entry;
pub mod heap;
pub mod messages;
