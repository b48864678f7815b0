//! A drop-in style facade over a platform filesystem API whose one job is
//! better error reporting: every operation's failure is wrapped with the
//! operation kind and the path(s) involved, while the underlying error's
//! category stays visible for callers that classify errors.
//!
//! The platform calls themselves are performed by a thin outer shell; this
//! crate holds the verified part: the contextual error model, the exact
//! rendering of every error message, and, for each operation of the facade,
//! the function that turns the platform call's raw outcome into either the
//! untouched success value or the wrapped error.

pub mod dir;
pub mod dir_builder;
pub mod errors;
pub mod file;
pub mod laws;
pub mod open_options;
pub mod os;

use vstd::prelude::*;

use crate::errors::{
    is_wrapped_dual, is_wrapped_single, Error, ErrorKind, IoError, SourceDestError,
    SourceDestErrorKind,
};

verus! {

/// Marker restricting which types may implement the capability-extension
/// traits of this crate; only the facade's own types carry it.
pub trait Sealed {

}

/// How the platform calls behind a whole-file read ended: the open step can
/// fail, then the read step can fail, else the file's bytes came back.
pub enum ReadOutcome {
    OpenFailed(IoError),
    ReadFailed(IoError),
    Bytes(Vec<u8>),
}

/// How the platform calls behind a whole-file text read ended.
pub enum ReadToStringOutcome {
    OpenFailed(IoError),
    ReadFailed(IoError),
    Text(String),
}

/// How the platform calls behind a whole-file write ended: creating the
/// file can fail, then writing the bytes can fail.
pub enum WriteOutcome {
    CreateFailed(IoError),
    WriteFailed(IoError),
    Written,
}

/// Reads a whole file as bytes: the bytes the platform handed back are
/// returned unchanged, a failure to open is attributed as an open-file
/// error on `path`, and a failure while reading as a read error on `path`.
pub fn read(path: &str, outcome: ReadOutcome) -> (r: Result<Vec<u8>, IoError>)
    ensures
        (outcome matches ReadOutcome::Bytes(b) ==> r matches Ok(v) && v@ == b@),
        (outcome matches ReadOutcome::OpenFailed(e) ==> r matches Err(w) && is_wrapped_single(
            w,
            e,
            ErrorKind::OpenFile,
            path@,
        )),
        (outcome matches ReadOutcome::ReadFailed(e) ==> r matches Err(w) && is_wrapped_single(
            w,
            e,
            ErrorKind::Read,
            path@,
        )),
{
    match outcome {
        ReadOutcome::Bytes(b) => Ok(b),
        ReadOutcome::OpenFailed(e) => Err(Error::build(e, ErrorKind::OpenFile, path.to_owned())),
        ReadOutcome::ReadFailed(e) => Err(Error::build(e, ErrorKind::Read, path.to_owned())),
    }
}

/// Reads a whole file as text, with the same attribution as `read`.
pub fn read_to_string(path: &str, outcome: ReadToStringOutcome) -> (r: Result<String, IoError>)
    ensures
        (outcome matches ReadToStringOutcome::Text(t) ==> r matches Ok(v) && v@ == t@),
        (outcome matches ReadToStringOutcome::OpenFailed(e) ==> r matches Err(w)
            && is_wrapped_single(w, e, ErrorKind::OpenFile, path@)),
        (outcome matches ReadToStringOutcome::ReadFailed(e) ==> r matches Err(w)
            && is_wrapped_single(w, e, ErrorKind::Read, path@)),
{
    match outcome {
        ReadToStringOutcome::Text(t) => Ok(t),
        ReadToStringOutcome::OpenFailed(e) => Err(
            Error::build(e, ErrorKind::OpenFile, path.to_owned()),
        ),
        ReadToStringOutcome::ReadFailed(e) => Err(Error::build(e, ErrorKind::Read, path.to_owned())),
    }
}

/// Writes a whole file: a failure to create the file is attributed as a
/// create-file error on `path`, a failure while writing as a write error.
pub fn write(path: &str, outcome: WriteOutcome) -> (r: Result<(), IoError>)
    ensures
        (outcome is Written ==> r is Ok),
        (outcome matches WriteOutcome::CreateFailed(e) ==> r matches Err(w) && is_wrapped_single(
            w,
            e,
            ErrorKind::CreateFile,
            path@,
        )),
        (outcome matches WriteOutcome::WriteFailed(e) ==> r matches Err(w) && is_wrapped_single(
            w,
            e,
            ErrorKind::Write,
            path@,
        )),
{
    match outcome {
        WriteOutcome::Written => Ok(()),
        WriteOutcome::CreateFailed(e) => Err(
            Error::build(e, ErrorKind::CreateFile, path.to_owned()),
        ),
        WriteOutcome::WriteFailed(e) => Err(Error::build(e, ErrorKind::Write, path.to_owned())),
    }
}

/// Annotates the outcome of one single-path platform call: success passes
/// through unchanged, failure is wrapped with `kind` and `path`.
pub fn wrap_single<T>(outcome: Result<T, IoError>, kind: ErrorKind, path: &str) -> (r: Result<
    T,
    IoError,
>)
    ensures
        (outcome matches Ok(v) ==> r matches Ok(w) && w == v),
        (outcome matches Err(e) ==> r matches Err(w) && is_wrapped_single(w, e, kind, path@)),
{
    match outcome {
        Ok(v) => Ok(v),
        Err(e) => Err(Error::build(e, kind, path.to_owned())),
    }
}

/// Annotates the outcome of one dual-path platform call: success passes
/// through unchanged, failure is wrapped with `kind` and the two paths in
/// the operation's documented from/to order.
pub fn wrap_dual<T>(
    outcome: Result<T, IoError>,
    kind: SourceDestErrorKind,
    from: &str,
    to: &str,
) -> (r: Result<T, IoError>)
    ensures
        (outcome matches Ok(v) ==> r matches Ok(w) && w == v),
        (outcome matches Err(e) ==> r matches Err(w) && is_wrapped_dual(w, e, kind, from@, to@)),
{
    match outcome {
        Ok(v) => Ok(v),
        Err(e) => Err(SourceDestError::build(e, kind, from.to_owned(), to.to_owned())),
    }
}

/// Copies a file: a failure names the source and destination, as a copy.
pub fn copy(from: &str, to: &str, outcome: Result<u64, IoError>) -> (r: Result<u64, IoError>)
    ensures
        (outcome matches Ok(v) ==> r matches Ok(w) && w == v),
        (outcome matches Err(e) ==> r matches Err(w) && is_wrapped_dual(
            w,
            e,
            SourceDestErrorKind::Copy,
            from@,
            to@,
        )),
{
    wrap_dual(outcome, SourceDestErrorKind::Copy, from, to)
}

/// Creates one directory level: a failure is a create-directory error.
pub fn create_dir(path: &str, outcome: Result<(), IoError>) -> (r: Result<(), IoError>)
    ensures
        (outcome is Ok ==> r is Ok),
        (outcome matches Err(e) ==> r matches Err(w) && is_wrapped_single(
            w,
            e,
            ErrorKind::CreateDir,
            path@,
        )),
{
    wrap_single(outcome, ErrorKind::CreateDir, path)
}

/// Creates a directory and its missing parents; the attribution is the same
/// create-directory kind as for one level.
pub fn create_dir_all(path: &str, outcome: Result<(), IoError>) -> (r: Result<(), IoError>)
    ensures
        (outcome is Ok ==> r is Ok),
        (outcome matches Err(e) ==> r matches Err(w) && is_wrapped_single(
            w,
            e,
            ErrorKind::CreateDir,
            path@,
        )),
{
    wrap_single(outcome, ErrorKind::CreateDir, path)
}

/// Removes an empty directory: a failure is a remove-directory error.
pub fn remove_dir(path: &str, outcome: Result<(), IoError>) -> (r: Result<(), IoError>)
    ensures
        (outcome is Ok ==> r is Ok),
        (outcome matches Err(e) ==> r matches Err(w) && is_wrapped_single(
            w,
            e,
            ErrorKind::RemoveDir,
            path@,
        )),
{
    wrap_single(outcome, ErrorKind::RemoveDir, path)
}

/// Removes a directory and all of its contents, with the same attribution
/// as removing one directory.
pub fn remove_dir_all(path: &str, outcome: Result<(), IoError>) -> (r: Result<(), IoError>)
    ensures
        (outcome is Ok ==> r is Ok),
        (outcome matches Err(e) ==> r matches Err(w) && is_wrapped_single(
            w,
            e,
            ErrorKind::RemoveDir,
            path@,
        )),
{
    wrap_single(outcome, ErrorKind::RemoveDir, path)
}

/// Removes a file: a failure is a remove-file error.
pub fn remove_file(path: &str, outcome: Result<(), IoError>) -> (r: Result<(), IoError>)
    ensures
        (outcome is Ok ==> r is Ok),
        (outcome matches Err(e) ==> r matches Err(w) && is_wrapped_single(
            w,
            e,
            ErrorKind::RemoveFile,
            path@,
        )),
{
    wrap_single(outcome, ErrorKind::RemoveFile, path)
}

/// Queries metadata, dereferencing symbolic links; the platform's metadata
/// value passes through unchanged.
pub fn metadata<M>(path: &str, outcome: Result<M, IoError>) -> (r: Result<M, IoError>)
    ensures
        (outcome matches Ok(v) ==> r matches Ok(w) && w == v),
        (outcome matches Err(e) ==> r matches Err(w) && is_wrapped_single(
            w,
            e,
            ErrorKind::Metadata,
            path@,
        )),
{
    wrap_single(outcome, ErrorKind::Metadata, path)
}

/// Returns the canonical form of a path.
pub fn canonicalize(path: &str, outcome: Result<String, IoError>) -> (r: Result<String, IoError>)
    ensures
        (outcome matches Ok(v) ==> r matches Ok(w) && w == v),
        (outcome matches Err(e) ==> r matches Err(w) && is_wrapped_single(
            w,
            e,
            ErrorKind::Canonicalize,
            path@,
        )),
{
    wrap_single(outcome, ErrorKind::Canonicalize, path)
}

/// Creates a hard link: a failure names the original and the new path, as a
/// hard-link error.
pub fn hard_link(src: &str, dst: &str, outcome: Result<(), IoError>) -> (r: Result<(), IoError>)
    ensures
        (outcome is Ok ==> r is Ok),
        (outcome matches Err(e) ==> r matches Err(w) && is_wrapped_dual(
            w,
            e,
            SourceDestErrorKind::HardLink,
            src@,
            dst@,
        )),
{
    wrap_dual(outcome, SourceDestErrorKind::HardLink, src, dst)
}

/// Reads the target of a symbolic link.
pub fn read_link(path: &str, outcome: Result<String, IoError>) -> (r: Result<String, IoError>)
    ensures
        (outcome matches Ok(v) ==> r matches Ok(w) && w == v),
        (outcome matches Err(e) ==> r matches Err(w) && is_wrapped_single(
            w,
            e,
            ErrorKind::ReadLink,
            path@,
        )),
{
    wrap_single(outcome, ErrorKind::ReadLink, path)
}

/// Renames a file or directory: a failure names the old and the new path.
pub fn rename(from: &str, to: &str, outcome: Result<(), IoError>) -> (r: Result<(), IoError>)
    ensures
        (outcome is Ok ==> r is Ok),
        (outcome matches Err(e) ==> r matches Err(w) && is_wrapped_dual(
            w,
            e,
            SourceDestErrorKind::Rename,
            from@,
            to@,
        )),
{
    wrap_dual(outcome, SourceDestErrorKind::Rename, from, to)
}

/// Creates a symbolic link through the platform's generic soft-link call.
pub fn soft_link(src: &str, dst: &str, outcome: Result<(), IoError>) -> (r: Result<(), IoError>)
    ensures
        (outcome is Ok ==> r is Ok),
        (outcome matches Err(e) ==> r matches Err(w) && is_wrapped_dual(
            w,
            e,
            SourceDestErrorKind::SoftLink,
            src@,
            dst@,
        )),
{
    wrap_dual(outcome, SourceDestErrorKind::SoftLink, src, dst)
}

/// Queries metadata without dereferencing symbolic links.
pub fn symlink_metadata<M>(path: &str, outcome: Result<M, IoError>) -> (r: Result<M, IoError>)
    ensures
        (outcome matches Ok(v) ==> r matches Ok(w) && w == v),
        (outcome matches Err(e) ==> r matches Err(w) && is_wrapped_single(
            w,
            e,
            ErrorKind::SymlinkMetadata,
            path@,
        )),
{
    wrap_single(outcome, ErrorKind::SymlinkMetadata, path)
}

/// Sets the permissions of a file or directory.
pub fn set_permissions(path: &str, outcome: Result<(), IoError>) -> (r: Result<(), IoError>)
    ensures
        (outcome is Ok ==> r is Ok),
        (outcome matches Err(e) ==> r matches Err(w) && is_wrapped_single(
            w,
            e,
            ErrorKind::SetPermissions,
            path@,
        )),
{
    wrap_single(outcome, ErrorKind::SetPermissions, path)
}

/// The buffer capacity for a whole-file read, sized from a best-effort
/// metadata length probe: one byte more than the probed length, clamped to
/// the machine's limit; a failed probe falls back to zero.
pub fn initial_buffer_size(probed_len: Option<u64>) -> (r: usize)
    ensures
        (probed_len matches Some(l) ==> r == if l < usize::MAX {
            l + 1
        } else {
            usize::MAX as int
        }),
        (probed_len is None ==> r == 0),
{
    match probed_len {
        Some(l) => {
            if l < usize::MAX as u64 {
                (l + 1) as usize
            } else {
                usize::MAX
            }
        },
        None => 0,
    }
}

} // verus!
