//! The file-descriptor handle and its shared-ownership lifecycle.
//!
//! A handle pairs a host-assigned descriptor with an explicit reference
//! count. Ownership is shared: duplicating a reference raises the count,
//! releasing one lowers it, and the release that lowers it to zero — and
//! only that release — yields the close record to send to the host. The
//! surrounding shell serializes calls with a mutual-exclusion guard and
//! drives duplication and release from its ownership mechanism; the counting
//! itself, and the exactly-once close it guarantees, are proved here.
//!
//! Read, write and seek are synchronous round-trips. The handle builds the
//! request record, the shell translates buffer addresses and signals the
//! host, and the handle interprets the result the host wrote back. No file
//! position or any other per-file state is cached on the guest side: the
//! descriptor is the handle's only protocol state.

use vstd::prelude::*;
use crate::codec::{
    decode_lseek_offset, decode_read_ret, encode_lseek, encode_read, encode_write,
    spec_lseek_bytes, spec_lseek_offset, spec_read_bytes, spec_read_ret, spec_write_bytes,
    LSEEK_RECORD_LEN, READ_RECORD_LEN, WRITE_RECORD_LEN,
};
use crate::errno::{spec_error_of, error_from_host_code, IoError};
use crate::wire::{SeekWhence, SysClose, SysLseek, SysRead, SysWrite, spec_whence_code};

verus! {

/// The descriptor state a handle guards: the host-assigned identifier of
/// one open file.
#[derive(Clone, Copy, Debug, PartialEq, Eq, Structural)]
pub struct UhyveFileHandleInner(pub i32);

/// The outcome of a read once the host has written its byte count: a count
/// of at least zero is success, a negative count is a negated error code.
pub open spec fn spec_read_outcome(ret: i64) -> Result<i64, IoError> {
    if ret >= 0 {
        Ok(ret)
    } else {
        Err(spec_error_of(ret))
    }
}

/// The outcome of a write: the protocol has no result field for writes, so
/// the requested length is reported back as the byte count.
pub open spec fn spec_write_outcome(len: u64) -> Result<i64, IoError> {
    Ok(len as i64)
}

/// The outcome of a seek once the host has overwritten the offset field: an
/// offset of at least zero is the new absolute position, a negative offset
/// signals an invalid argument.
pub open spec fn spec_lseek_outcome(offset: i64) -> Result<i64, IoError> {
    if offset >= 0 {
        Ok(offset)
    } else {
        Err(IoError::Einval)
    }
}

impl UhyveFileHandleInner {
    /// Wraps a host-assigned descriptor.
    pub fn new(fd: i32) -> (r: Self)
        ensures
            r == UhyveFileHandleInner(fd),
    {
        Self(fd)
    }

    /// The descriptor this handle stands for.
    pub fn fd(&self) -> (fd: i32)
        ensures
            fd == self.0,
    {
        self.0
    }

    /// Builds the read request for a destination buffer already translated
    /// to its guest-physical address.
    pub fn read_request(&self, buf: u64, len: u64) -> (r: SysRead)
        ensures
            r == (SysRead { fd: self.0, buf, len, ret: -1i64 }),
    {
        SysRead::new(self.0, buf, len)
    }

    /// Interprets the byte count the host wrote into a read record.
    pub fn read_result(&self, ret: i64) -> (r: Result<i64, IoError>)
        ensures
            r == spec_read_outcome(ret),
    {
        if ret >= 0 {
            Ok(ret)
        } else {
            Err(error_from_host_code(ret))
        }
    }

    /// Builds the write request for a source buffer already translated to
    /// its guest-physical address.
    pub fn write_request(&self, buf: u64, len: u64) -> (r: SysWrite)
        ensures
            r == (SysWrite { fd: self.0, buf, len }),
    {
        SysWrite::new(self.0, buf, len)
    }

    /// Reports the write's byte count. The record has no result field, so
    /// the requested length is the count: the protocol cannot express a
    /// partial write. The length of a buffer that fits in memory also fits
    /// the signed count.
    pub fn write_result(&self, len: u64) -> (r: Result<i64, IoError>)
        requires
            len <= i64::MAX,
        ensures
            r == spec_write_outcome(len),
    {
        Ok(len as i64)
    }

    /// Builds the seek request for an offset and origin.
    pub fn lseek_request(&self, offset: i64, whence: SeekWhence) -> (r: SysLseek)
        ensures
            r == (SysLseek { fd: self.0, offset, whence: spec_whence_code(whence) }),
    {
        SysLseek::new(self.0, offset, whence)
    }

    /// Interprets the offset field as the host left it: the reported
    /// position is the host's absolute offset, never a locally kept one.
    pub fn lseek_result(&self, offset: i64) -> (r: Result<i64, IoError>)
        ensures
            r == spec_lseek_outcome(offset),
    {
        if offset >= 0 {
            Ok(offset)
        } else {
            Err(IoError::Einval)
        }
    }

    /// Builds the close request that retires this descriptor.
    pub fn close_request(&self) -> (r: SysClose)
        ensures
            r == (SysClose { fd: self.0, ret: -1i32 }),
    {
        SysClose::new(self.0)
    }
}

/// A shared file handle: the descriptor state together with the number of
/// live references to it. Created with one reference on a successful open;
/// the release of the last reference yields the close record, exactly once.
#[derive(Clone, Copy, Debug, PartialEq, Eq, Structural)]
pub struct UhyveFileHandle {
    /// The guarded descriptor state.
    pub inner: UhyveFileHandleInner,
    /// The number of live references; zero means the descriptor has been
    /// retired and the handle must not be used again.
    pub refs: u64,
}

impl UhyveFileHandle {
    /// Wraps a host-assigned descriptor into a handle with one reference.
    pub fn new(fd: i32) -> (r: Self)
        ensures
            r == (UhyveFileHandle { inner: UhyveFileHandleInner(fd), refs: 1u64 }),
    {
        UhyveFileHandle { inner: UhyveFileHandleInner::new(fd), refs: 1 }
    }

    /// The descriptor this handle stands for.
    pub fn fd(&self) -> (fd: i32)
        ensures
            fd == self.inner.0,
    {
        self.inner.fd()
    }

    /// The number of live references.
    pub fn ref_count(&self) -> (n: u64)
        ensures
            n == self.refs,
    {
        self.refs
    }

    /// Records one more shared owner of the descriptor.
    pub fn clone_ref(&mut self)
        requires
            old(self).refs >= 1,
            old(self).refs < u64::MAX,
        ensures
            final(self).inner == old(self).inner,
            final(self).refs == old(self).refs + 1,
    {
        self.refs = self.refs + 1;
    }

    /// Builds the read request for a destination buffer already translated
    /// to its guest-physical address. Only a handle with a live reference
    /// may issue requests: after the last release the descriptor is retired.
    pub fn read_request(&self, buf: u64, len: u64) -> (r: SysRead)
        requires
            self.refs >= 1,
        ensures
            r == (SysRead { fd: self.inner.0, buf, len, ret: -1i64 }),
    {
        self.inner.read_request(buf, len)
    }

    /// Interprets the byte count the host wrote into a read record.
    pub fn read_result(&self, ret: i64) -> (r: Result<i64, IoError>)
        requires
            self.refs >= 1,
        ensures
            r == spec_read_outcome(ret),
    {
        self.inner.read_result(ret)
    }

    /// Builds the write request for a source buffer already translated to
    /// its guest-physical address, for a handle with a live reference.
    pub fn write_request(&self, buf: u64, len: u64) -> (r: SysWrite)
        requires
            self.refs >= 1,
        ensures
            r == (SysWrite { fd: self.inner.0, buf, len }),
    {
        self.inner.write_request(buf, len)
    }

    /// Reports the write's byte count: the requested length, since the
    /// record has no result field.
    pub fn write_result(&self, len: u64) -> (r: Result<i64, IoError>)
        requires
            self.refs >= 1,
            len <= i64::MAX,
        ensures
            r == spec_write_outcome(len),
    {
        self.inner.write_result(len)
    }

    /// Builds the seek request for an offset and origin, for a handle with
    /// a live reference.
    pub fn lseek_request(&self, offset: i64, whence: SeekWhence) -> (r: SysLseek)
        requires
            self.refs >= 1,
        ensures
            r == (SysLseek { fd: self.inner.0, offset, whence: spec_whence_code(whence) }),
    {
        self.inner.lseek_request(offset, whence)
    }

    /// Interprets the offset field as the host left it.
    pub fn lseek_result(&self, offset: i64) -> (r: Result<i64, IoError>)
        requires
            self.refs >= 1,
        ensures
            r == spec_lseek_outcome(offset),
    {
        self.inner.lseek_result(offset)
    }

    /// The read request, laid out for the hypercall: everything of a read
    /// that precedes the host's turn.
    pub fn prepare_read(&self, buf: u64, len: u64) -> (bytes: Vec<u8>)
        requires
            self.refs >= 1,
        ensures
            bytes@ == spec_read_bytes(SysRead { fd: self.inner.0, buf, len, ret: -1i64 }),
            bytes@.len() == READ_RECORD_LEN,
    {
        let request = self.read_request(buf, len);
        encode_read(&request)
    }

    /// The read's outcome, taken from the record bytes as the host left
    /// them: everything of a read that follows the host's turn.
    pub fn complete_read(&self, reply: &Vec<u8>) -> (r: Result<i64, IoError>)
        requires
            self.refs >= 1,
            reply@.len() == READ_RECORD_LEN,
        ensures
            r == spec_read_outcome(spec_read_ret(reply@)),
    {
        let ret = decode_read_ret(reply);
        self.read_result(ret)
    }

    /// The write request, laid out for the hypercall: everything of a write
    /// that precedes the host's turn.
    pub fn prepare_write(&self, buf: u64, len: u64) -> (bytes: Vec<u8>)
        requires
            self.refs >= 1,
        ensures
            bytes@ == spec_write_bytes(SysWrite { fd: self.inner.0, buf, len }),
            bytes@.len() == WRITE_RECORD_LEN,
    {
        let request = self.write_request(buf, len);
        encode_write(&request)
    }

    /// The seek request, laid out for the hypercall: everything of a seek
    /// that precedes the host's turn.
    pub fn prepare_lseek(&self, offset: i64, whence: SeekWhence) -> (bytes: Vec<u8>)
        requires
            self.refs >= 1,
        ensures
            bytes@ == spec_lseek_bytes(
                SysLseek { fd: self.inner.0, offset, whence: spec_whence_code(whence) },
            ),
            bytes@.len() == LSEEK_RECORD_LEN,
    {
        let request = self.lseek_request(offset, whence);
        encode_lseek(&request)
    }

    /// The seek's outcome, taken from the offset field as the host left it:
    /// everything of a seek that follows the host's turn. The offset the
    /// request asked for is nowhere in it — no position is cached.
    pub fn complete_lseek(&self, reply: &Vec<u8>) -> (r: Result<i64, IoError>)
        requires
            self.refs >= 1,
            reply@.len() == LSEEK_RECORD_LEN,
        ensures
            r == spec_lseek_outcome(spec_lseek_offset(reply@)),
    {
        let host_offset = decode_lseek_offset(reply);
        self.lseek_result(host_offset)
    }

    /// Records that one shared owner is gone. The release that drops the
    /// last reference — and only that one — yields the close record for the
    /// host; every earlier release yields nothing.
    pub fn release(&mut self) -> (r: Option<SysClose>)
        requires
            old(self).refs >= 1,
        ensures
            final(self).inner == old(self).inner,
            final(self).refs == old(self).refs - 1,
            r == if old(self).refs == 1 {
                Some(SysClose { fd: old(self).inner.0, ret: -1i32 })
            } else {
                None::<SysClose>
            },
    {
        self.refs = self.refs - 1;
        if self.refs == 0 {
            Some(self.inner.close_request())
        } else {
            None
        }
    }
}

/// One ownership event in the life of a handle: a reference is duplicated,
/// or a reference is released.
#[derive(Clone, Copy, Debug, PartialEq, Eq, Structural)]
pub enum HandleEvent {
    /// One more shared owner appears ([`UhyveFileHandle::clone_ref`]).
    Dup,
    /// One shared owner is gone ([`UhyveFileHandle::release`]).
    Release,
}

/// The reference count after a sequence of ownership events, starting from
/// the single reference a fresh handle carries.
pub open spec fn spec_refs_after(events: Seq<HandleEvent>) -> int
    decreases events.len(),
{
    if events.len() == 0 {
        1
    } else {
        match events.last() {
            HandleEvent::Dup => spec_refs_after(events.drop_last()) + 1,
            HandleEvent::Release => spec_refs_after(events.drop_last()) - 1,
        }
    }
}

/// The number of close records issued over a sequence of ownership events:
/// [`UhyveFileHandle::release`] yields one exactly when it drops the last
/// reference.
pub open spec fn spec_closes_after(events: Seq<HandleEvent>) -> int
    decreases events.len(),
{
    if events.len() == 0 {
        0
    } else {
        spec_closes_after(events.drop_last()) + match events.last() {
            HandleEvent::Dup => 0int,
            HandleEvent::Release => if spec_refs_after(events.drop_last()) == 1 {
                1int
            } else {
                0int
            },
        }
    }
}

/// A trace is live when every event happens while a reference is still
/// held: no owner duplicates or releases a handle it no longer has.
pub open spec fn spec_live_trace(events: Seq<HandleEvent>) -> bool {
    forall|i: int| 0 <= i < events.len() ==> spec_refs_after(#[trigger] events.take(i)) >= 1
}

/// Over any live sequence of duplications and releases, at most one close
/// record is ever issued — no double close, however the references are
/// shared — and exactly one has been issued precisely when the last
/// reference is gone: no descriptor leak under normal drop ordering.
/// `clone_ref` realizes a `Dup` event and `release` a `Release` event, by
/// their contracts.
pub proof fn lemma_close_exactly_once(events: Seq<HandleEvent>)
    requires
        spec_live_trace(events),
    ensures
        spec_refs_after(events) >= 0,
        0 <= spec_closes_after(events) <= 1,
        spec_closes_after(events) == 1 <==> spec_refs_after(events) == 0,
    decreases events.len(),
{
    if events.len() > 0 {
        let prefix = events.drop_last();
        assert forall|i: int| 0 <= i < prefix.len() implies spec_refs_after(
            #[trigger] prefix.take(i),
        ) >= 1 by {
            assert(prefix.take(i) =~= events.take(i));
            assert(spec_refs_after(events.take(i)) >= 1);
        }
        lemma_close_exactly_once(prefix);
        assert(events.take(events.len() - 1) =~= prefix);
        assert(spec_refs_after(prefix) >= 1);
        assert(spec_closes_after(prefix) == 0);
        match events.last() {
            HandleEvent::Dup => {
                assert(spec_refs_after(events) == spec_refs_after(prefix) + 1);
                assert(spec_closes_after(events) == 0);
            },
            HandleEvent::Release => {
                assert(spec_refs_after(events) == spec_refs_after(prefix) - 1);
                if spec_refs_after(prefix) == 1 {
                    assert(spec_closes_after(events) == 1);
                } else {
                    assert(spec_closes_after(events) == 0);
                }
            },
        }
    }
}

/// For any handle, a read of length zero reports a byte count of zero and
/// no error: the request forwards the zero length unchanged (the contract
/// of [`UhyveFileHandleInner::read_request`]), and the zero count the host
/// answers such a request with maps to success, not to an error.
pub proof fn lemma_zero_length_read(handle: UhyveFileHandleInner)
    ensures
        spec_read_outcome(0) == Ok::<i64, IoError>(0),
{
}

/// The position reported after a seek is the absolute offset decoded from
/// the reply record as the host left it, and nothing else: the handle keeps
/// no file position, so the offset the request asked for (`requested`) does
/// not enter the outcome.
pub proof fn lemma_seek_reflects_host(requested: SysLseek, reply: Seq<u8>)
    requires
        reply.len() == LSEEK_RECORD_LEN,
        spec_lseek_offset(reply) >= 0,
    ensures
        spec_lseek_outcome(spec_lseek_offset(reply)) == Ok::<i64, IoError>(
            spec_lseek_offset(reply),
        ),
{
}

} // verus!
