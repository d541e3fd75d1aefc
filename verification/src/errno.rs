//! The bridge's error taxonomy and the mapping from host result codes.
//!
//! The host reports failure as a negated POSIX-style code written into the
//! result field of a wire record. Each code the bridge understands maps to
//! one variant; a code outside that set must surface loudly as
//! [`IoError::Unrecognized`] rather than be coerced to a default.

use vstd::prelude::*;

verus! {

/// A typed file-operation error returned to the caller of the bridge.
#[derive(Clone, Copy, Debug, PartialEq, Eq, Structural)]
pub enum IoError {
    /// Operation not permitted.
    Eperm,
    /// No such file or directory.
    Enoent,
    /// Input/output error.
    Eio,
    /// Bad file descriptor.
    Ebadf,
    /// Permission denied.
    Eacces,
    /// File exists.
    Eexist,
    /// Not a directory.
    Enotdir,
    /// Is a directory.
    Eisdir,
    /// Invalid argument.
    Einval,
    /// Too many open files.
    Emfile,
    /// Function not implemented.
    Enosys,
    /// The host answered with a code outside the taxonomy; the raw negated
    /// code is carried so the condition is distinct and diagnosable.
    Unrecognized(i64),
}

/// The variant a negated host code maps to.
pub open spec fn spec_error_of(code: i64) -> IoError {
    if code == -1 {
        IoError::Eperm
    } else if code == -2 {
        IoError::Enoent
    } else if code == -5 {
        IoError::Eio
    } else if code == -9 {
        IoError::Ebadf
    } else if code == -13 {
        IoError::Eacces
    } else if code == -17 {
        IoError::Eexist
    } else if code == -20 {
        IoError::Enotdir
    } else if code == -21 {
        IoError::Eisdir
    } else if code == -22 {
        IoError::Einval
    } else if code == -24 {
        IoError::Emfile
    } else if code == -38 {
        IoError::Enosys
    } else {
        IoError::Unrecognized(code)
    }
}

/// Maps a negated host code to the bridge's error taxonomy. Total: a code
/// outside the taxonomy yields the distinct `Unrecognized` condition instead
/// of being coerced or dropped.
pub fn error_from_host_code(code: i64) -> (r: IoError)
    ensures
        r == spec_error_of(code),
{
    if code == -1 {
        IoError::Eperm
    } else if code == -2 {
        IoError::Enoent
    } else if code == -5 {
        IoError::Eio
    } else if code == -9 {
        IoError::Ebadf
    } else if code == -13 {
        IoError::Eacces
    } else if code == -17 {
        IoError::Eexist
    } else if code == -20 {
        IoError::Enotdir
    } else if code == -21 {
        IoError::Eisdir
    } else if code == -22 {
        IoError::Einval
    } else if code == -24 {
        IoError::Emfile
    } else if code == -38 {
        IoError::Enosys
    } else {
        IoError::Unrecognized(code)
    }
}

} // verus!
