//! The directory node mediating between the virtual-filesystem layer and
//! the host protocol.
//!
//! The node is stateless: it models no hierarchy of its own. The single
//! mount point is the "directory", non-empty component sequences are
//! flattened into absolute paths and forwarded to the host, which owns its
//! own tree. Open and unlink are each one request/response cycle; directory
//! listing, metadata and directory creation or removal have no port in the
//! protocol and always fail with "not implemented", without any host
//! round-trip.

use vstd::prelude::*;
use vstd::string::StringExecFns;
use crate::codec::{
    decode_open_ret, decode_unlink_ret, encode_open, encode_unlink, spec_open_bytes,
    spec_open_ret, spec_unlink_bytes, spec_unlink_ret, OPEN_RECORD_LEN, UNLINK_RECORD_LEN,
};
use crate::errno::{spec_error_of, error_from_host_code, IoError};
use crate::handle::{UhyveFileHandle, UhyveFileHandleInner};
use crate::path::{build_path, spec_path_of};
use crate::wire::{SysOpen, SysUnlink};

verus! {

/// The type of a virtual-filesystem node.
#[derive(Clone, Copy, Debug, PartialEq, Eq, Structural)]
pub enum NodeKind {
    /// A regular file.
    File,
    /// A directory.
    Directory,
}

/// File metadata as the virtual-filesystem layer expects it from a stat
/// call. This node never produces one: the protocol defines no metadata
/// operation.
#[derive(Clone, Copy, Debug, PartialEq, Eq, Structural)]
pub struct FileAttr;

/// The outcome of an open once the host has written its result: a positive
/// value is a fresh descriptor wrapped into a handle with one reference; a
/// non-positive value is a negated error code and no handle is constructed.
pub open spec fn spec_open_outcome(ret: i32) -> Result<UhyveFileHandle, IoError> {
    if ret > 0 {
        Ok(UhyveFileHandle { inner: UhyveFileHandleInner(ret), refs: 1u64 })
    } else {
        Err(spec_error_of(ret as i64))
    }
}

/// The outcome of an unlink once the host has written its result: zero is
/// success, anything else a negated error code.
pub open spec fn spec_unlink_outcome(ret: i32) -> Result<(), IoError> {
    if ret == 0 {
        Ok(())
    } else {
        Err(spec_error_of(ret as i64))
    }
}

/// The stateless node registered at the bridge's mount point.
#[derive(Clone, Copy, Debug, PartialEq, Eq, Structural)]
pub struct UhyveDirectory;

impl UhyveDirectory {
    /// The node carries no state; every value is the same node.
    pub fn new() -> (r: Self)
        ensures
            r == UhyveDirectory,
    {
        UhyveDirectory {  }
    }

    /// This node presents itself to the virtual filesystem as a directory.
    pub fn get_kind(&self) -> (kind: NodeKind)
        ensures
            kind == NodeKind::Directory,
    {
        NodeKind::Directory
    }

    /// Directory listing is not in the protocol: always "not implemented",
    /// independent of the components, with no host round-trip.
    pub fn traverse_opendir(&self, _components: &Vec<&str>) -> (r: Result<
        UhyveFileHandle,
        IoError,
    >)
        ensures
            r == Err::<UhyveFileHandle, IoError>(IoError::Enosys),
    {
        Err(IoError::Enosys)
    }

    /// Metadata lookup is not in the protocol: always "not implemented",
    /// independent of the components, with no host round-trip.
    pub fn traverse_stat(&self, _components: &Vec<&str>) -> (r: Result<FileAttr, IoError>)
        ensures
            r == Err::<FileAttr, IoError>(IoError::Enosys),
    {
        Err(IoError::Enosys)
    }

    /// Link-transparent metadata lookup is not in the protocol: always "not
    /// implemented", independent of the components, with no host round-trip.
    pub fn traverse_lstat(&self, _components: &Vec<&str>) -> (r: Result<FileAttr, IoError>)
        ensures
            r == Err::<FileAttr, IoError>(IoError::Enosys),
    {
        Err(IoError::Enosys)
    }

    /// The absolute path an open forwards to the host: `/` prefixed to each
    /// component; with no components left, the root path, null-terminated as
    /// the host reads it.
    pub fn traverse_open_request(&self, components: &Vec<&str>) -> (path: String)
        ensures
            components@.len() == 0 ==> path@ == "/\u{0000}"@,
            components@.len() > 0 ==> path@ == spec_path_of(components.deep_view()),
    {
        if components.len() == 0 {
            String::from_str("/\u{0000}")
        } else {
            build_path(components)
        }
    }

    /// The open record for a path whose bytes sit at the given
    /// guest-physical address. The creation mode is always zero: the bridge
    /// delegates mode handling to the host's own defaults.
    pub fn open_request(&self, name: u64, flags: i32) -> (r: SysOpen)
        ensures
            r == (SysOpen { name, flags, mode: 0i32, ret: -1i32 }),
    {
        SysOpen::new(name, flags, 0)
    }

    /// The open request, laid out for the hypercall: everything of an open
    /// — after the path's address is known — that precedes the host's turn.
    pub fn prepare_open(&self, name: u64, flags: i32) -> (bytes: Vec<u8>)
        ensures
            bytes@ == spec_open_bytes(SysOpen { name, flags, mode: 0i32, ret: -1i32 }),
            bytes@.len() == OPEN_RECORD_LEN,
    {
        let request = self.open_request(name, flags);
        encode_open(&request)
    }

    /// The open's outcome, taken from the record bytes as the host left
    /// them: everything of an open that follows the host's turn.
    pub fn complete_open(&self, reply: &Vec<u8>) -> (r: Result<UhyveFileHandle, IoError>)
        requires
            reply@.len() == OPEN_RECORD_LEN,
        ensures
            r == spec_open_outcome(spec_open_ret(reply@)),
    {
        let ret = decode_open_ret(reply);
        self.traverse_open_result(ret)
    }

    /// Interprets the result the host wrote into an open record: a positive
    /// descriptor becomes a fresh handle with one reference; otherwise the
    /// negated code becomes a typed error and no handle exists.
    pub fn traverse_open_result(&self, ret: i32) -> (r: Result<UhyveFileHandle, IoError>)
        ensures
            r == spec_open_outcome(ret),
    {
        if ret > 0 {
            Ok(UhyveFileHandle::new(ret))
        } else {
            Err(error_from_host_code(ret as i64))
        }
    }

    /// The absolute path an unlink forwards to the host: `/` prefixed to
    /// each component; with no components left, the root path.
    pub fn traverse_unlink_request(&self, components: &Vec<&str>) -> (path: String)
        ensures
            components@.len() == 0 ==> path@ == "/"@,
            components@.len() > 0 ==> path@ == spec_path_of(components.deep_view()),
    {
        if components.len() == 0 {
            String::from_str("/")
        } else {
            build_path(components)
        }
    }

    /// The unlink record for a path whose bytes sit at the given
    /// guest-physical address.
    pub fn unlink_request(&self, name: u64) -> (r: SysUnlink)
        ensures
            r == (SysUnlink { name, ret: -1i32 }),
    {
        SysUnlink::new(name)
    }

    /// The unlink request, laid out for the hypercall: everything of an
    /// unlink — after the path's address is known — that precedes the
    /// host's turn.
    pub fn prepare_unlink(&self, name: u64) -> (bytes: Vec<u8>)
        ensures
            bytes@ == spec_unlink_bytes(SysUnlink { name, ret: -1i32 }),
            bytes@.len() == UNLINK_RECORD_LEN,
    {
        let request = self.unlink_request(name);
        encode_unlink(&request)
    }

    /// The unlink's outcome, taken from the record bytes as the host left
    /// them: everything of an unlink that follows the host's turn.
    pub fn complete_unlink(&self, reply: &Vec<u8>) -> (r: Result<(), IoError>)
        requires
            reply@.len() == UNLINK_RECORD_LEN,
        ensures
            r == spec_unlink_outcome(spec_unlink_ret(reply@)),
    {
        let ret = decode_unlink_ret(reply);
        self.traverse_unlink_result(ret)
    }

    /// Interprets the result the host wrote into an unlink record: zero is
    /// success, anything else the negated code as a typed error.
    pub fn traverse_unlink_result(&self, ret: i32) -> (r: Result<(), IoError>)
        ensures
            r == spec_unlink_outcome(ret),
    {
        if ret == 0 {
            Ok(())
        } else {
            Err(error_from_host_code(ret as i64))
        }
    }

    /// Directory removal is not in the protocol: always "not implemented",
    /// independent of the components, with no host round-trip.
    pub fn traverse_rmdir(&self, _components: &Vec<&str>) -> (r: Result<(), IoError>)
        ensures
            r == Err::<(), IoError>(IoError::Enosys),
    {
        Err(IoError::Enosys)
    }

    /// Directory creation is not in the protocol: always "not implemented",
    /// independent of the components and the mode, with no host round-trip.
    pub fn traverse_mkdir(&self, _components: &Vec<&str>, _mode: u32) -> (r: Result<(), IoError>)
        ensures
            r == Err::<(), IoError>(IoError::Enosys),
    {
        Err(IoError::Enosys)
    }
}

} // verus!
