//! A paravirtualized filesystem bridge for a guest kernel running under a
//! lightweight hypervisor.
//!
//! The guest performs file operations (open, read, write, seek, close,
//! unlink) against a directory tree living on the host. Every operation is a
//! synchronous round-trip: the guest lays out a fixed-format request record
//! in memory, hands its guest-physical address to a reserved I/O port, and
//! the host writes the result back into the same record before the port
//! write retires.
//!
//! This crate holds the verified core of the bridge: the error-code
//! taxonomy, the six wire records with their byte-exact encodings, the path
//! construction, the file-handle lifecycle (shared ownership with an
//! exactly-once close), and the mount decision. The architecture-specific
//! signaling instruction, address translation, and locking live in the
//! unverified shell around this crate.

pub mod codec;
pub mod errno;
pub mod handle;
pub mod mount;
pub mod node;
pub mod path;
pub mod wire;
