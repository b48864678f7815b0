//! Extensions for platforms that distinguish file and directory symbolic
//! links and take positional reads through a seek.

use vstd::prelude::*;

use crate::errors::{is_wrapped_dual, IoError, SourceDestErrorKind};
use crate::open_options::OpenOptions;

verus! {

/// Creates a symbolic link to a directory: a failure names the link target
/// and the link path, as a directory-symlink error, in that order.
pub fn symlink_dir(src: &str, dst: &str, outcome: Result<(), IoError>) -> (r: Result<(), IoError>)
    ensures
        (outcome is Ok ==> r is Ok),
        (outcome matches Err(e) ==> r matches Err(w) && is_wrapped_dual(
            w,
            e,
            SourceDestErrorKind::SymlinkDir,
            src@,
            dst@,
        )),
{
    crate::wrap_dual(outcome, SourceDestErrorKind::SymlinkDir, src, dst)
}

/// Creates a symbolic link to a file: a failure names the link target and
/// the link path, as a file-symlink error, in that order.
pub fn symlink_file(src: &str, dst: &str, outcome: Result<(), IoError>) -> (r: Result<(), IoError>)
    ensures
        (outcome is Ok ==> r is Ok),
        (outcome matches Err(e) ==> r matches Err(w) && is_wrapped_dual(
            w,
            e,
            SourceDestErrorKind::SymlinkFile,
            src@,
            dst@,
        )),
{
    crate::wrap_dual(outcome, SourceDestErrorKind::SymlinkFile, src, dst)
}

/// Positional reads and writes that move the handle's cursor. The facade's
/// shell implements this for its file type with the usual wrapping; the
/// trait is sealed, so no outside type can.
pub trait FileExt: crate::Sealed {
    /// Seeks to `offset`, then reads into `buf`.
    fn seek_read(&self, buf: &mut Vec<u8>, offset: u64) -> Result<usize, IoError>;

    /// Seeks to `offset`, then writes `buf`.
    fn seek_write(&self, buf: &[u8], offset: u64) -> Result<usize, IoError>;
}

/// Open options only this platform has.
pub trait OpenOptionsExt: Sized {
    /// Overrides the access mode computed from the read/write flags.
    fn access_mode(self, access: u32) -> Self;

    /// Sets how the opened file may be shared by other openers.
    fn share_mode(self, share: u32) -> Self;

    /// Passes extra flags to the platform's open call.
    fn custom_flags(self, flags: u32) -> Self;

    /// Sets the attributes a created file gets.
    fn attributes(self, attributes: u32) -> Self;

    /// Sets security quality-of-service flags for the open call.
    fn security_qos_flags(self, flags: u32) -> Self;
}

impl<H> crate::file::File<H> {
    /// One seek-then-read on the handle: a failure is a seek-read error on
    /// this file's path.
    pub fn seek_read(&self, outcome: Result<usize, IoError>) -> (r: Result<usize, IoError>)
        ensures
            (outcome matches Ok(n) ==> r matches Ok(m) && m == n),
            (outcome matches Err(e) ==> r matches Err(w) && crate::errors::is_wrapped_single(
                w,
                e,
                crate::errors::ErrorKind::SeekRead,
                self.path@,
            )),
    {
        match outcome {
            Ok(n) => Ok(n),
            Err(e) => Err(
                crate::errors::Error::build(
                    e,
                    crate::errors::ErrorKind::SeekRead,
                    self.path.clone(),
                ),
            ),
        }
    }

    /// One seek-then-write on the handle: a failure is a seek-write error
    /// on this file's path.
    pub fn seek_write(&self, outcome: Result<usize, IoError>) -> (r: Result<usize, IoError>)
        ensures
            (outcome matches Ok(n) ==> r matches Ok(m) && m == n),
            (outcome matches Err(e) ==> r matches Err(w) && crate::errors::is_wrapped_single(
                w,
                e,
                crate::errors::ErrorKind::SeekWrite,
                self.path@,
            )),
    {
        match outcome {
            Ok(n) => Ok(n),
            Err(e) => Err(
                crate::errors::Error::build(
                    e,
                    crate::errors::ErrorKind::SeekWrite,
                    self.path.clone(),
                ),
            ),
        }
    }
}

impl OpenOptionsExt for OpenOptions {
    /// Overrides the access mode computed from the read/write flags.
    fn access_mode(self, access: u32) -> (r: OpenOptions)
        ensures
            r == (OpenOptions { access_mode: Some(access), ..self }),
    {
        OpenOptions { access_mode: Some(access), ..self }
    }

    /// Sets how the opened file may be shared by other openers.
    fn share_mode(self, share: u32) -> (r: OpenOptions)
        ensures
            r == (OpenOptions { share_mode: Some(share), ..self }),
    {
        OpenOptions { share_mode: Some(share), ..self }
    }

    /// Passes extra flags to the platform's open call.
    fn custom_flags(self, flags: u32) -> (r: OpenOptions)
        ensures
            r == (OpenOptions { windows_custom_flags: Some(flags), ..self }),
    {
        OpenOptions { windows_custom_flags: Some(flags), ..self }
    }

    /// Sets the attributes a created file gets.
    fn attributes(self, attributes: u32) -> (r: OpenOptions)
        ensures
            r == (OpenOptions { attributes: Some(attributes), ..self }),
    {
        OpenOptions { attributes: Some(attributes), ..self }
    }

    /// Sets security quality-of-service flags for the open call.
    fn security_qos_flags(self, flags: u32) -> (r: OpenOptions)
        ensures
            r == (OpenOptions { security_qos_flags: Some(flags), ..self }),
    {
        OpenOptions { security_qos_flags: Some(flags), ..self }
    }
}

} // verus!
