//! Byte-exact encodings of the wire records.
//!
//! The host reads a request record straight out of guest-physical memory, so
//! the layout must match its expectation to the byte: fields in declaration
//! order, little-endian, no padding between fields. Each operation has one
//! encode function producing the record's bytes and, where the host writes a
//! result back, one decode function reading exactly the result field out of
//! the mutated bytes. Signed fields travel as their two's-complement bit
//! patterns.

use vstd::prelude::*;
use vstd::bytes::{
    lemma_auto_spec_u32_to_from_le_bytes, lemma_auto_spec_u64_to_from_le_bytes,
    spec_u32_from_le_bytes, spec_u32_to_le_bytes, spec_u64_from_le_bytes, spec_u64_to_le_bytes,
    u32_from_le_bytes, u32_to_le_bytes, u64_from_le_bytes, u64_to_le_bytes,
};
use vstd::slice::slice_subrange;
use crate::wire::{SysClose, SysLseek, SysOpen, SysRead, SysUnlink, SysWrite};

verus! {

/// Length in bytes of an encoded open record.
pub const OPEN_RECORD_LEN: usize = 20;

/// Length in bytes of an encoded close record.
pub const CLOSE_RECORD_LEN: usize = 8;

/// Length in bytes of an encoded read record.
pub const READ_RECORD_LEN: usize = 28;

/// Length in bytes of an encoded write record.
pub const WRITE_RECORD_LEN: usize = 20;

/// Length in bytes of an encoded seek record.
pub const LSEEK_RECORD_LEN: usize = 16;

/// Length in bytes of an encoded unlink record.
pub const UNLINK_RECORD_LEN: usize = 12;

/// The two's-complement bit pattern of a 32-bit signed value.
pub open spec fn spec_i32_bits(x: i32) -> u32 {
    if x >= 0 {
        x as u32
    } else {
        (x + 0x1_0000_0000) as u32
    }
}

/// The 32-bit signed value carried by a two's-complement bit pattern.
pub open spec fn spec_i32_of_bits(b: u32) -> i32 {
    if b <= 0x7fff_ffff {
        b as i32
    } else {
        (b - 0x1_0000_0000) as i32
    }
}

/// The two's-complement bit pattern of a 64-bit signed value.
pub open spec fn spec_i64_bits(x: i64) -> u64 {
    if x >= 0 {
        x as u64
    } else {
        (x + 0x1_0000_0000_0000_0000) as u64
    }
}

/// The 64-bit signed value carried by a two's-complement bit pattern.
pub open spec fn spec_i64_of_bits(b: u64) -> i64 {
    if b <= 0x7fff_ffff_ffff_ffff {
        b as i64
    } else {
        (b - 0x1_0000_0000_0000_0000) as i64
    }
}

/// The two's-complement bit pattern of a 32-bit signed value.
fn i32_bits(x: i32) -> (b: u32)
    ensures
        b == spec_i32_bits(x),
{
    if x >= 0 {
        x as u32
    } else {
        ((x as i64) + 0x1_0000_0000) as u32
    }
}

/// The 32-bit signed value carried by a two's-complement bit pattern.
fn i32_of_bits(b: u32) -> (x: i32)
    ensures
        x == spec_i32_of_bits(b),
{
    if b <= 0x7fff_ffff {
        b as i32
    } else {
        ((b as i64) - 0x1_0000_0000) as i32
    }
}

/// The two's-complement bit pattern of a 64-bit signed value.
fn i64_bits(x: i64) -> (b: u64)
    ensures
        b == spec_i64_bits(x),
{
    if x >= 0 {
        x as u64
    } else {
        ((x as i128) + 0x1_0000_0000_0000_0000) as u64
    }
}

/// The 64-bit signed value carried by a two's-complement bit pattern.
fn i64_of_bits(b: u64) -> (x: i64)
    ensures
        x == spec_i64_of_bits(b),
{
    if b <= 0x7fff_ffff_ffff_ffff {
        b as i64
    } else {
        ((b as i128) - 0x1_0000_0000_0000_0000) as i64
    }
}

/// The bytes of an open record: path address, flags, mode, result.
pub open spec fn spec_open_bytes(r: SysOpen) -> Seq<u8> {
    spec_u64_to_le_bytes(r.name) + spec_u32_to_le_bytes(spec_i32_bits(r.flags))
        + spec_u32_to_le_bytes(spec_i32_bits(r.mode)) + spec_u32_to_le_bytes(
        spec_i32_bits(r.ret),
    )
}

/// The result field of an open record's bytes.
pub open spec fn spec_open_ret(s: Seq<u8>) -> i32 {
    spec_i32_of_bits(spec_u32_from_le_bytes(s.subrange(16, 20)))
}

/// Lays an open record out for the host.
pub fn encode_open(r: &SysOpen) -> (b: Vec<u8>)
    ensures
        b@ == spec_open_bytes(*r),
        b@.len() == OPEN_RECORD_LEN,
{
    proof {
        lemma_auto_spec_u64_to_from_le_bytes();
        lemma_auto_spec_u32_to_from_le_bytes();
    }
    let mut b = u64_to_le_bytes(r.name);
    let mut flags = u32_to_le_bytes(i32_bits(r.flags));
    b.append(&mut flags);
    let mut mode = u32_to_le_bytes(i32_bits(r.mode));
    b.append(&mut mode);
    let mut ret = u32_to_le_bytes(i32_bits(r.ret));
    b.append(&mut ret);
    b
}

/// Reads the result field the host wrote into an open record.
pub fn decode_open_ret(b: &Vec<u8>) -> (ret: i32)
    requires
        b@.len() == OPEN_RECORD_LEN,
    ensures
        ret == spec_open_ret(b@),
{
    let field = slice_subrange(b.as_slice(), 16, 20);
    i32_of_bits(u32_from_le_bytes(field))
}

/// An open record is laid out in its fixed length, and decoding an encoded
/// record reads back exactly its result field.
pub proof fn lemma_open_record_roundtrip(r: SysOpen)
    ensures
        spec_open_bytes(r).len() == OPEN_RECORD_LEN,
        spec_open_ret(spec_open_bytes(r)) == r.ret,
{
    lemma_auto_spec_u64_to_from_le_bytes();
    lemma_auto_spec_u32_to_from_le_bytes();
    assert(spec_open_bytes(r).subrange(16, 20) =~= spec_u32_to_le_bytes(spec_i32_bits(r.ret)));
}

/// The bytes of a close record: descriptor, result.
pub open spec fn spec_close_bytes(r: SysClose) -> Seq<u8> {
    spec_u32_to_le_bytes(spec_i32_bits(r.fd)) + spec_u32_to_le_bytes(spec_i32_bits(r.ret))
}

/// Lays a close record out for the host. The host's answer in the result
/// field is best-effort and the bridge never reads it back.
pub fn encode_close(r: &SysClose) -> (b: Vec<u8>)
    ensures
        b@ == spec_close_bytes(*r),
        b@.len() == CLOSE_RECORD_LEN,
{
    proof {
        lemma_auto_spec_u32_to_from_le_bytes();
    }
    let mut b = u32_to_le_bytes(i32_bits(r.fd));
    let mut ret = u32_to_le_bytes(i32_bits(r.ret));
    b.append(&mut ret);
    b
}

/// The bytes of a read record: descriptor, buffer address, length, result.
pub open spec fn spec_read_bytes(r: SysRead) -> Seq<u8> {
    spec_u32_to_le_bytes(spec_i32_bits(r.fd)) + spec_u64_to_le_bytes(r.buf)
        + spec_u64_to_le_bytes(r.len) + spec_u64_to_le_bytes(spec_i64_bits(r.ret))
}

/// The result field of a read record's bytes.
pub open spec fn spec_read_ret(s: Seq<u8>) -> i64 {
    spec_i64_of_bits(spec_u64_from_le_bytes(s.subrange(20, 28)))
}

/// Lays a read record out for the host.
pub fn encode_read(r: &SysRead) -> (b: Vec<u8>)
    ensures
        b@ == spec_read_bytes(*r),
        b@.len() == READ_RECORD_LEN,
{
    proof {
        lemma_auto_spec_u64_to_from_le_bytes();
        lemma_auto_spec_u32_to_from_le_bytes();
    }
    let mut b = u32_to_le_bytes(i32_bits(r.fd));
    let mut buf = u64_to_le_bytes(r.buf);
    b.append(&mut buf);
    let mut len = u64_to_le_bytes(r.len);
    b.append(&mut len);
    let mut ret = u64_to_le_bytes(i64_bits(r.ret));
    b.append(&mut ret);
    b
}

/// Reads the result field the host wrote into a read record.
pub fn decode_read_ret(b: &Vec<u8>) -> (ret: i64)
    requires
        b@.len() == READ_RECORD_LEN,
    ensures
        ret == spec_read_ret(b@),
{
    let field = slice_subrange(b.as_slice(), 20, 28);
    i64_of_bits(u64_from_le_bytes(field))
}

/// A read record is laid out in its fixed length, and decoding an encoded
/// record reads back exactly its result field.
pub proof fn lemma_read_record_roundtrip(r: SysRead)
    ensures
        spec_read_bytes(r).len() == READ_RECORD_LEN,
        spec_read_ret(spec_read_bytes(r)) == r.ret,
{
    lemma_auto_spec_u64_to_from_le_bytes();
    lemma_auto_spec_u32_to_from_le_bytes();
    assert(spec_read_bytes(r).subrange(20, 28) =~= spec_u64_to_le_bytes(spec_i64_bits(r.ret)));
}

/// The bytes of a write record: descriptor, buffer address, length. The
/// record has no result field.
pub open spec fn spec_write_bytes(r: SysWrite) -> Seq<u8> {
    spec_u32_to_le_bytes(spec_i32_bits(r.fd)) + spec_u64_to_le_bytes(r.buf)
        + spec_u64_to_le_bytes(r.len)
}

/// Lays a write record out for the host.
pub fn encode_write(r: &SysWrite) -> (b: Vec<u8>)
    ensures
        b@ == spec_write_bytes(*r),
        b@.len() == WRITE_RECORD_LEN,
{
    proof {
        lemma_auto_spec_u64_to_from_le_bytes();
        lemma_auto_spec_u32_to_from_le_bytes();
    }
    let mut b = u32_to_le_bytes(i32_bits(r.fd));
    let mut buf = u64_to_le_bytes(r.buf);
    b.append(&mut buf);
    let mut len = u64_to_le_bytes(r.len);
    b.append(&mut len);
    b
}

/// The bytes of a seek record: descriptor, offset, whence.
pub open spec fn spec_lseek_bytes(r: SysLseek) -> Seq<u8> {
    spec_u32_to_le_bytes(spec_i32_bits(r.fd)) + spec_u64_to_le_bytes(spec_i64_bits(r.offset))
        + spec_u32_to_le_bytes(spec_i32_bits(r.whence))
}

/// The offset field of a seek record's bytes, which the host overwrites
/// with the resulting absolute position.
pub open spec fn spec_lseek_offset(s: Seq<u8>) -> i64 {
    spec_i64_of_bits(spec_u64_from_le_bytes(s.subrange(4, 12)))
}

/// Lays a seek record out for the host.
pub fn encode_lseek(r: &SysLseek) -> (b: Vec<u8>)
    ensures
        b@ == spec_lseek_bytes(*r),
        b@.len() == LSEEK_RECORD_LEN,
{
    proof {
        lemma_auto_spec_u64_to_from_le_bytes();
        lemma_auto_spec_u32_to_from_le_bytes();
    }
    let mut b = u32_to_le_bytes(i32_bits(r.fd));
    let mut offset = u64_to_le_bytes(i64_bits(r.offset));
    b.append(&mut offset);
    let mut whence = u32_to_le_bytes(i32_bits(r.whence));
    b.append(&mut whence);
    b
}

/// Reads the offset field the host wrote into a seek record.
pub fn decode_lseek_offset(b: &Vec<u8>) -> (offset: i64)
    requires
        b@.len() == LSEEK_RECORD_LEN,
    ensures
        offset == spec_lseek_offset(b@),
{
    let field = slice_subrange(b.as_slice(), 4, 12);
    i64_of_bits(u64_from_le_bytes(field))
}

/// A seek record is laid out in its fixed length, and decoding an encoded
/// record reads back exactly its offset field.
pub proof fn lemma_lseek_record_roundtrip(r: SysLseek)
    ensures
        spec_lseek_bytes(r).len() == LSEEK_RECORD_LEN,
        spec_lseek_offset(spec_lseek_bytes(r)) == r.offset,
{
    lemma_auto_spec_u64_to_from_le_bytes();
    lemma_auto_spec_u32_to_from_le_bytes();
    assert(spec_lseek_bytes(r).subrange(4, 12) =~= spec_u64_to_le_bytes(spec_i64_bits(r.offset)));
}

/// The bytes of an unlink record: path address, result.
pub open spec fn spec_unlink_bytes(r: SysUnlink) -> Seq<u8> {
    spec_u64_to_le_bytes(r.name) + spec_u32_to_le_bytes(spec_i32_bits(r.ret))
}

/// The result field of an unlink record's bytes.
pub open spec fn spec_unlink_ret(s: Seq<u8>) -> i32 {
    spec_i32_of_bits(spec_u32_from_le_bytes(s.subrange(8, 12)))
}

/// Lays an unlink record out for the host.
pub fn encode_unlink(r: &SysUnlink) -> (b: Vec<u8>)
    ensures
        b@ == spec_unlink_bytes(*r),
        b@.len() == UNLINK_RECORD_LEN,
{
    proof {
        lemma_auto_spec_u64_to_from_le_bytes();
        lemma_auto_spec_u32_to_from_le_bytes();
    }
    let mut b = u64_to_le_bytes(r.name);
    let mut ret = u32_to_le_bytes(i32_bits(r.ret));
    b.append(&mut ret);
    b
}

/// Reads the result field the host wrote into an unlink record.
pub fn decode_unlink_ret(b: &Vec<u8>) -> (ret: i32)
    requires
        b@.len() == UNLINK_RECORD_LEN,
    ensures
        ret == spec_unlink_ret(b@),
{
    let field = slice_subrange(b.as_slice(), 8, 12);
    i32_of_bits(u32_from_le_bytes(field))
}

/// An unlink record is laid out in its fixed length, and decoding an
/// encoded record reads back exactly its result field.
pub proof fn lemma_unlink_record_roundtrip(r: SysUnlink)
    ensures
        spec_unlink_bytes(r).len() == UNLINK_RECORD_LEN,
        spec_unlink_ret(spec_unlink_bytes(r)) == r.ret,
{
    lemma_auto_spec_u64_to_from_le_bytes();
    lemma_auto_spec_u32_to_from_le_bytes();
    assert(spec_unlink_bytes(r).subrange(8, 12) =~= spec_u32_to_le_bytes(spec_i32_bits(r.ret)));
}

} // verus!
