//! The file facade: a handle paired with the path used to obtain it. The
//! path is fixed at construction and is used purely to attribute errors of
//! later operations on the same handle; it never tracks renames on disk.
//!
//! The type is generic over the platform's handle, which it owns but never
//! touches: the outer shell performs each platform call on the handle and
//! hands the raw outcome to the matching method here, which either passes
//! the success value through or wraps the failure with the operation kind
//! and the stored path.

use vstd::prelude::*;

use crate::errors::{is_wrapped_single, Error, ErrorKind, IoError};

verus! {

/// A platform file handle together with the path it was opened under.
#[derive(Debug)]
pub struct File<H> {
    /// The platform's own handle, exclusively owned.
    pub handle: H,
    /// The path used to open the handle, kept for error attribution.
    pub path: String,
}

impl<H> File<H> {
    /// Pairs a raw platform handle with its path.
    pub fn from_parts(handle: H, path: String) -> (r: File<H>)
        ensures
            r.handle == handle,
            r.path == path,
    {
        File { handle, path }
    }

    /// Opens a file in read-only mode: a failure is an open-file error on
    /// `path`; on success the handle is paired with `path`.
    pub fn open(path: String, outcome: Result<H, IoError>) -> (r: Result<File<H>, IoError>)
        ensures
            (outcome matches Ok(h) ==> r matches Ok(f) && f.handle == h && f.path == path),
            (outcome matches Err(e) ==> r matches Err(w) && is_wrapped_single(
                w,
                e,
                ErrorKind::OpenFile,
                path@,
            )),
    {
        match outcome {
            Ok(h) => Ok(File { handle: h, path }),
            Err(e) => Err(Error::build(e, ErrorKind::OpenFile, path)),
        }
    }

    /// Creates a file for writing, truncating an existing one: a failure is
    /// a create-file error on `path`.
    pub fn create(path: String, outcome: Result<H, IoError>) -> (r: Result<File<H>, IoError>)
        ensures
            (outcome matches Ok(h) ==> r matches Ok(f) && f.handle == h && f.path == path),
            (outcome matches Err(e) ==> r matches Err(w) && is_wrapped_single(
                w,
                e,
                ErrorKind::CreateFile,
                path@,
            )),
    {
        match outcome {
            Ok(h) => Ok(File { handle: h, path }),
            Err(e) => Err(Error::build(e, ErrorKind::CreateFile, path)),
        }
    }

    /// Opens a file with caller-configured options: a failure is attributed
    /// as an open-file error, whatever the options were.
    pub fn from_options(path: String, outcome: Result<H, IoError>) -> (r: Result<File<H>, IoError>)
        ensures
            (outcome matches Ok(h) ==> r matches Ok(f) && f.handle == h && f.path == path),
            (outcome matches Err(e) ==> r matches Err(w) && is_wrapped_single(
                w,
                e,
                ErrorKind::OpenFile,
                path@,
            )),
    {
        match outcome {
            Ok(h) => Ok(File { handle: h, path }),
            Err(e) => Err(Error::build(e, ErrorKind::OpenFile, path)),
        }
    }

    /// Wraps the error in information specific to this file.
    fn error(&self, source: IoError, kind: ErrorKind) -> (r: IoError)
        ensures
            is_wrapped_single(r, source, kind, self.path@),
    {
        Error::build(source, kind, self.path.clone())
    }

    /// Synchronizes content and metadata to disk: a failure is a sync-file
    /// error on this file's path.
    pub fn sync_all(&self, outcome: Result<(), IoError>) -> (r: Result<(), IoError>)
        ensures
            (outcome is Ok ==> r is Ok),
            (outcome matches Err(e) ==> r matches Err(w) && is_wrapped_single(
                w,
                e,
                ErrorKind::SyncFile,
                self.path@,
            )),
    {
        match outcome {
            Ok(v) => Ok(v),
            Err(e) => Err(self.error(e, ErrorKind::SyncFile)),
        }
    }

    /// Synchronizes content, but maybe not metadata, to disk; attributed the
    /// same way as a full sync.
    pub fn sync_data(&self, outcome: Result<(), IoError>) -> (r: Result<(), IoError>)
        ensures
            (outcome is Ok ==> r is Ok),
            (outcome matches Err(e) ==> r matches Err(w) && is_wrapped_single(
                w,
                e,
                ErrorKind::SyncFile,
                self.path@,
            )),
    {
        match outcome {
            Ok(v) => Ok(v),
            Err(e) => Err(self.error(e, ErrorKind::SyncFile)),
        }
    }

    /// Truncates or extends the file: a failure is a set-length error.
    pub fn set_len(&self, outcome: Result<(), IoError>) -> (r: Result<(), IoError>)
        ensures
            (outcome is Ok ==> r is Ok),
            (outcome matches Err(e) ==> r matches Err(w) && is_wrapped_single(
                w,
                e,
                ErrorKind::SetLen,
                self.path@,
            )),
    {
        match outcome {
            Ok(v) => Ok(v),
            Err(e) => Err(self.error(e, ErrorKind::SetLen)),
        }
    }

    /// Reads the file's metadata, passing the platform's value through.
    pub fn metadata<M>(&self, outcome: Result<M, IoError>) -> (r: Result<M, IoError>)
        ensures
            (outcome matches Ok(v) ==> r matches Ok(w) && w == v),
            (outcome matches Err(e) ==> r matches Err(w) && is_wrapped_single(
                w,
                e,
                ErrorKind::Metadata,
                self.path@,
            )),
    {
        match outcome {
            Ok(v) => Ok(v),
            Err(e) => Err(self.error(e, ErrorKind::Metadata)),
        }
    }

    /// Duplicates the handle: the new handle is paired with the same path;
    /// a failure is a clone-handle error.
    pub fn try_clone(&self, outcome: Result<H, IoError>) -> (r: Result<File<H>, IoError>)
        ensures
            (outcome matches Ok(h) ==> r matches Ok(f) && f.handle == h && f.path@ == self.path@),
            (outcome matches Err(e) ==> r matches Err(w) && is_wrapped_single(
                w,
                e,
                ErrorKind::Clone,
                self.path@,
            )),
    {
        match outcome {
            Ok(h) => Ok(File { handle: h, path: self.path.clone() }),
            Err(e) => Err(self.error(e, ErrorKind::Clone)),
        }
    }

    /// Changes the permissions on the file.
    pub fn set_permissions(&self, outcome: Result<(), IoError>) -> (r: Result<(), IoError>)
        ensures
            (outcome is Ok ==> r is Ok),
            (outcome matches Err(e) ==> r matches Err(w) && is_wrapped_single(
                w,
                e,
                ErrorKind::SetPermissions,
                self.path@,
            )),
    {
        match outcome {
            Ok(v) => Ok(v),
            Err(e) => Err(self.error(e, ErrorKind::SetPermissions)),
        }
    }

    /// Takes the facade apart into the raw handle and the stored path.
    pub fn into_parts(self) -> (r: (H, String))
        ensures
            r.0 == self.handle,
            r.1 == self.path,
    {
        let File { handle, path } = self;
        (handle, path)
    }

    /// The underlying platform handle.
    pub fn file(&self) -> (r: &H)
        ensures
            *r == self.handle,
    {
        &self.handle
    }

    /// The path this file was opened under.
    pub fn path(&self) -> (r: &String)
        ensures
            *r == self.path,
    {
        &self.path
    }

    /// One streaming read on the handle: the count of bytes the platform
    /// read passes through; a failure is a read error on this file's path.
    /// Borrowed and owning users of the handle share this method, so both
    /// wrap identically.
    pub fn read(&self, outcome: Result<usize, IoError>) -> (r: Result<usize, IoError>)
        ensures
            (outcome matches Ok(n) ==> r matches Ok(m) && m == n),
            (outcome matches Err(e) ==> r matches Err(w) && is_wrapped_single(
                w,
                e,
                ErrorKind::Read,
                self.path@,
            )),
    {
        match outcome {
            Ok(n) => Ok(n),
            Err(e) => Err(self.error(e, ErrorKind::Read)),
        }
    }

    /// One streaming write on the handle, attributed as a write error.
    pub fn write(&self, outcome: Result<usize, IoError>) -> (r: Result<usize, IoError>)
        ensures
            (outcome matches Ok(n) ==> r matches Ok(m) && m == n),
            (outcome matches Err(e) ==> r matches Err(w) && is_wrapped_single(
                w,
                e,
                ErrorKind::Write,
                self.path@,
            )),
    {
        match outcome {
            Ok(n) => Ok(n),
            Err(e) => Err(self.error(e, ErrorKind::Write)),
        }
    }

    /// One seek on the handle: the new position passes through; a failure
    /// is a seek error.
    pub fn seek(&self, outcome: Result<u64, IoError>) -> (r: Result<u64, IoError>)
        ensures
            (outcome matches Ok(n) ==> r matches Ok(m) && m == n),
            (outcome matches Err(e) ==> r matches Err(w) && is_wrapped_single(
                w,
                e,
                ErrorKind::Seek,
                self.path@,
            )),
    {
        match outcome {
            Ok(n) => Ok(n),
            Err(e) => Err(self.error(e, ErrorKind::Seek)),
        }
    }

    /// One flush on the handle, attributed as a flush error.
    pub fn flush(&self, outcome: Result<(), IoError>) -> (r: Result<(), IoError>)
        ensures
            (outcome is Ok ==> r is Ok),
            (outcome matches Err(e) ==> r matches Err(w) && is_wrapped_single(
                w,
                e,
                ErrorKind::Flush,
                self.path@,
            )),
    {
        match outcome {
            Ok(v) => Ok(v),
            Err(e) => Err(self.error(e, ErrorKind::Flush)),
        }
    }
}

impl<H> crate::Sealed for File<H> {

}

} // verus!
