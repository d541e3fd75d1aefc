//! The six wire records exchanged with the host, and the ports that name
//! each operation kind.
//!
//! A record begins with the operation's input fields and ends with a result
//! field the host overwrites. Addresses embedded in a record (the path bytes
//! in open/unlink, the I/O buffer in read/write) are guest-physical: the
//! host has no access to guest page tables, so the caller translates every
//! virtual address before building the record. Field widths are those of the
//! host's C layout: 32-bit descriptor, flag, mode and whence fields, 64-bit
//! address, length and offset fields. The byte-exact layout (field order,
//! little-endian, no padding) is produced by the codec module.

use vstd::prelude::*;

verus! {

/// Port signaling a write request to the host.
pub const UHYVE_PORT_WRITE: u16 = 0x400;

/// Port signaling an open request to the host.
pub const UHYVE_PORT_OPEN: u16 = 0x440;

/// Port signaling a close request to the host.
pub const UHYVE_PORT_CLOSE: u16 = 0x480;

/// Port signaling a read request to the host.
pub const UHYVE_PORT_READ: u16 = 0x500;

/// Port signaling a seek request to the host.
pub const UHYVE_PORT_LSEEK: u16 = 0x580;

/// Port signaling an unlink request to the host.
pub const UHYVE_PORT_UNLINK: u16 = 0x840;

/// The origin a seek offset is measured from.
#[derive(Clone, Copy, Debug, PartialEq, Eq, Structural)]
pub enum SeekWhence {
    /// The beginning of the file.
    Start,
    /// The current position.
    Current,
    /// The end of the file.
    End,
}

/// The small integer the host expects for a seek origin.
pub open spec fn spec_whence_code(whence: SeekWhence) -> i32 {
    match whence {
        SeekWhence::Start => 0,
        SeekWhence::Current => 1,
        SeekWhence::End => 2,
    }
}

/// Encodes a seek origin as the conventional small integer.
pub fn whence_code(whence: SeekWhence) -> (code: i32)
    ensures
        code == spec_whence_code(whence),
{
    match whence {
        SeekWhence::Start => 0,
        SeekWhence::Current => 1,
        SeekWhence::End => 2,
    }
}

/// Open request: path address, flags and mode in; descriptor or negated
/// error code out.
#[derive(Clone, Copy, Debug, PartialEq, Eq, Structural)]
pub struct SysOpen {
    /// Guest-physical address of the path bytes.
    pub name: u64,
    /// Open flags, in the encoding the host expects.
    pub flags: i32,
    /// Creation mode bits.
    pub mode: i32,
    /// Host result: positive is a new descriptor, non-positive a negated
    /// error code.
    pub ret: i32,
}

impl SysOpen {
    /// Builds an open request around the already-translated guest-physical
    /// address of the path bytes. The result field starts out negative so a
    /// request the host never serviced reads as an error.
    pub fn new(name: u64, flags: i32, mode: i32) -> (r: SysOpen)
        ensures
            r == (SysOpen { name, flags, mode, ret: -1i32 }),
    {
        SysOpen { name, flags, mode, ret: -1 }
    }
}

/// Close request: descriptor in; the result is best-effort and never
/// propagated.
#[derive(Clone, Copy, Debug, PartialEq, Eq, Structural)]
pub struct SysClose {
    /// The descriptor to close.
    pub fd: i32,
    /// Host result, discarded by the bridge.
    pub ret: i32,
}

impl SysClose {
    /// Builds a close request for a descriptor.
    pub fn new(fd: i32) -> (r: SysClose)
        ensures
            r == (SysClose { fd, ret: -1i32 }),
    {
        SysClose { fd, ret: -1 }
    }
}

/// Read request: descriptor, buffer address and length in; signed byte
/// count or negated error code out.
#[derive(Clone, Copy, Debug, PartialEq, Eq, Structural)]
pub struct SysRead {
    /// The descriptor to read from.
    pub fd: i32,
    /// Guest-physical address of the destination buffer.
    pub buf: u64,
    /// Number of bytes requested.
    pub len: u64,
    /// Host result: a byte count of at least zero on success, a negated
    /// error code otherwise.
    pub ret: i64,
}

impl SysRead {
    /// Builds a read request around the already-translated guest-physical
    /// address of the destination buffer.
    pub fn new(fd: i32, buf: u64, len: u64) -> (r: SysRead)
        ensures
            r == (SysRead { fd, buf, len, ret: -1i64 }),
    {
        SysRead { fd, buf, len, ret: -1 }
    }
}

/// Write request: descriptor, buffer address and length in. The record has
/// no result field: the protocol reports the requested length back as the
/// byte count and cannot express a partial write.
#[derive(Clone, Copy, Debug, PartialEq, Eq, Structural)]
pub struct SysWrite {
    /// The descriptor to write to.
    pub fd: i32,
    /// Guest-physical address of the source buffer.
    pub buf: u64,
    /// Number of bytes to write.
    pub len: u64,
}

impl SysWrite {
    /// Builds a write request around the already-translated guest-physical
    /// address of the source buffer.
    pub fn new(fd: i32, buf: u64, len: u64) -> (r: SysWrite)
        ensures
            r == (SysWrite { fd, buf, len }),
    {
        SysWrite { fd, buf, len }
    }
}

/// Seek request: descriptor, offset and origin in; the host overwrites the
/// offset field with the resulting absolute position, or a negative value
/// for an invalid argument.
#[derive(Clone, Copy, Debug, PartialEq, Eq, Structural)]
pub struct SysLseek {
    /// The descriptor to reposition.
    pub fd: i32,
    /// In: the requested offset. Out: the absolute position the host
    /// settled on, or a negative value.
    pub offset: i64,
    /// The seek origin, encoded as the conventional small integer.
    pub whence: i32,
}

impl SysLseek {
    /// Builds a seek request, encoding the origin as the host expects.
    pub fn new(fd: i32, offset: i64, whence: SeekWhence) -> (r: SysLseek)
        ensures
            r == (SysLseek { fd, offset, whence: spec_whence_code(whence) }),
    {
        let whence: i32 = whence_code(whence);
        SysLseek { fd, offset, whence }
    }
}

/// Unlink request: path address in; zero or negated error code out.
#[derive(Clone, Copy, Debug, PartialEq, Eq, Structural)]
pub struct SysUnlink {
    /// Guest-physical address of the path bytes.
    pub name: u64,
    /// Host result: zero on success, a negated error code otherwise.
    pub ret: i32,
}

impl SysUnlink {
    /// Builds an unlink request around the already-translated guest-physical
    /// address of the path bytes.
    pub fn new(name: u64) -> (r: SysUnlink)
        ensures
            r == (SysUnlink { name, ret: -1i32 }),
    {
        SysUnlink { name, ret: -1 }
    }
}

} // verus!
