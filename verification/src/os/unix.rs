//! Extensions for platforms with a single symbolic-link call, permission
//! modes and inode numbers.

use vstd::prelude::*;

use crate::errors::{is_wrapped_dual, IoError, SourceDestErrorKind};
use crate::open_options::OpenOptions;

verus! {

/// Creates a new symbolic link: a failure names the link target and the
/// link path, as a symlink error, in that documented order.
pub fn symlink(src: &str, dst: &str, outcome: Result<(), IoError>) -> (r: Result<(), IoError>)
    ensures
        (outcome is Ok ==> r is Ok),
        (outcome matches Err(e) ==> r matches Err(w) && is_wrapped_dual(
            w,
            e,
            SourceDestErrorKind::Symlink,
            src@,
            dst@,
        )),
{
    crate::wrap_dual(outcome, SourceDestErrorKind::Symlink, src, dst)
}

/// Changes the owner and group of a path: a component left unset keeps its
/// current value; a failure is an ownership-change error on `path`.
pub fn chown(path: &str, outcome: Result<(), IoError>) -> (r: Result<(), IoError>)
    ensures
        (outcome is Ok ==> r is Ok),
        (outcome matches Err(e) ==> r matches Err(w) && crate::errors::is_wrapped_single(
            w,
            e,
            crate::errors::ErrorKind::Chown,
            path@,
        )),
{
    crate::wrap_single(outcome, crate::errors::ErrorKind::Chown, path)
}

/// Changes the owner and group of a path without dereferencing a symbolic
/// link, attributed as an ownership change on the link itself.
pub fn lchown(path: &str, outcome: Result<(), IoError>) -> (r: Result<(), IoError>)
    ensures
        (outcome is Ok ==> r is Ok),
        (outcome matches Err(e) ==> r matches Err(w) && crate::errors::is_wrapped_single(
            w,
            e,
            crate::errors::ErrorKind::Lchown,
            path@,
        )),
{
    crate::wrap_single(outcome, crate::errors::ErrorKind::Lchown, path)
}

/// Changes the process's root directory: a failure is a change-root error
/// on `path`.
pub fn chroot(path: &str, outcome: Result<(), IoError>) -> (r: Result<(), IoError>)
    ensures
        (outcome is Ok ==> r is Ok),
        (outcome matches Err(e) ==> r matches Err(w) && crate::errors::is_wrapped_single(
            w,
            e,
            crate::errors::ErrorKind::Chroot,
            path@,
        )),
{
    crate::wrap_single(outcome, crate::errors::ErrorKind::Chroot, path)
}

/// Positional reads and writes on an open file, which leave the handle's
/// cursor alone. The facade's shell implements this for its file type with
/// the usual wrapping; the trait is sealed, so no outside type can.
pub trait FileExt: crate::Sealed {
    /// Reads into `buf` starting at `offset`, returning how many bytes came.
    fn read_at(&self, buf: &mut Vec<u8>, offset: u64) -> Result<usize, IoError>;

    /// Writes `buf` starting at `offset`, returning how many bytes went.
    fn write_at(&self, buf: &[u8], offset: u64) -> Result<usize, IoError>;

    /// Reads exactly `buf`'s length starting at `offset`, or fails.
    fn read_exact_at(&self, buf: &mut Vec<u8>, offset: u64) -> Result<(), IoError>;

    /// Writes all of `buf` starting at `offset`, or fails.
    fn write_all_at(&self, buf: &[u8], offset: u64) -> Result<(), IoError>;
}

/// Open options only this platform has: a permission mode and raw flags.
pub trait OpenOptionsExt: Sized {
    /// Sets the permission mode a created file gets.
    fn mode(self, mode: u32) -> Self;

    /// Passes extra flags to the platform's open call.
    fn custom_flags(self, flags: i32) -> Self;
}

impl OpenOptionsExt for OpenOptions {
    /// Sets the permission mode a created file gets.
    fn mode(self, mode: u32) -> (r: OpenOptions)
        ensures
            r == (OpenOptions { mode: Some(mode), ..self }),
    {
        OpenOptions { mode: Some(mode), ..self }
    }

    /// Passes extra flags to the platform's open call.
    fn custom_flags(self, flags: i32) -> (r: OpenOptions)
        ensures
            r == (OpenOptions { unix_custom_flags: Some(flags), ..self }),
    {
        OpenOptions { unix_custom_flags: Some(flags), ..self }
    }
}

/// Directory-entry data only this platform has.
pub trait DirEntryExt {
    /// The inode number of the entry.
    fn ino(&self) -> u64;
}

impl<H> crate::file::File<H> {
    /// One positional read on the handle: a failure is an offset-read error
    /// on this file's path.
    pub fn read_at(&self, outcome: Result<usize, IoError>) -> (r: Result<usize, IoError>)
        ensures
            (outcome matches Ok(n) ==> r matches Ok(m) && m == n),
            (outcome matches Err(e) ==> r matches Err(w) && crate::errors::is_wrapped_single(
                w,
                e,
                crate::errors::ErrorKind::ReadAt,
                self.path@,
            )),
    {
        match outcome {
            Ok(n) => Ok(n),
            Err(e) => Err(
                crate::errors::Error::build(
                    e,
                    crate::errors::ErrorKind::ReadAt,
                    self.path.clone(),
                ),
            ),
        }
    }

    /// An exact-length positional read on the handle, attributed like any
    /// offset read.
    pub fn read_exact_at(&self, outcome: Result<(), IoError>) -> (r: Result<(), IoError>)
        ensures
            (outcome is Ok ==> r is Ok),
            (outcome matches Err(e) ==> r matches Err(w) && crate::errors::is_wrapped_single(
                w,
                e,
                crate::errors::ErrorKind::ReadAt,
                self.path@,
            )),
    {
        match outcome {
            Ok(v) => Ok(v),
            Err(e) => Err(
                crate::errors::Error::build(
                    e,
                    crate::errors::ErrorKind::ReadAt,
                    self.path.clone(),
                ),
            ),
        }
    }

    /// A whole-buffer positional write on the handle, attributed like any
    /// offset write.
    pub fn write_all_at(&self, outcome: Result<(), IoError>) -> (r: Result<(), IoError>)
        ensures
            (outcome is Ok ==> r is Ok),
            (outcome matches Err(e) ==> r matches Err(w) && crate::errors::is_wrapped_single(
                w,
                e,
                crate::errors::ErrorKind::WriteAt,
                self.path@,
            )),
    {
        match outcome {
            Ok(v) => Ok(v),
            Err(e) => Err(
                crate::errors::Error::build(
                    e,
                    crate::errors::ErrorKind::WriteAt,
                    self.path.clone(),
                ),
            ),
        }
    }

    /// One positional write on the handle: a failure is an offset-write
    /// error on this file's path.
    pub fn write_at(&self, outcome: Result<usize, IoError>) -> (r: Result<usize, IoError>)
        ensures
            (outcome matches Ok(n) ==> r matches Ok(m) && m == n),
            (outcome matches Err(e) ==> r matches Err(w) && crate::errors::is_wrapped_single(
                w,
                e,
                crate::errors::ErrorKind::WriteAt,
                self.path@,
            )),
    {
        match outcome {
            Ok(n) => Ok(n),
            Err(e) => Err(
                crate::errors::Error::build(
                    e,
                    crate::errors::ErrorKind::WriteAt,
                    self.path.clone(),
                ),
            ),
        }
    }
}

} // verus!
