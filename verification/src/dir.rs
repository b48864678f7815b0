//! The directory-iteration facade. A directory stream is a lazy,
//! forward-only sequence of entries; failures of the iteration itself are
//! attributed to the parent directory's path, while failures of per-entry
//! queries are attributed to that entry's own path.

use vstd::prelude::*;

use crate::errors::{is_wrapped_single, Error, ErrorKind, IoError};

verus! {

/// A platform directory stream paired with the directory's path, kept for
/// attributing iteration failures.
#[derive(Debug)]
pub struct ReadDir<S> {
    /// The platform's own stream, exclusively owned.
    pub stream: S,
    /// The path of the directory being iterated.
    pub path: String,
}

/// One entry of a directory, carrying its full path and bare name as plain
/// values next to the platform's own entry handle.
#[derive(Debug)]
pub struct DirEntry<E> {
    /// The platform's own entry value, exclusively owned.
    pub inner: E,
    /// The full path to the file this entry represents.
    pub path: String,
    /// The bare name of the entry, without leading path components.
    pub file_name: String,
}

/// Starts iterating a directory: a failure to open the stream is a
/// read-directory error on `path`; on success the stream is paired with
/// `path` for later attribution.
pub fn read_dir<S>(path: String, outcome: Result<S, IoError>) -> (r: Result<ReadDir<S>, IoError>)
    ensures
        (outcome matches Ok(s) ==> r matches Ok(d) && d.stream == s && d.path == path),
        (outcome matches Err(e) ==> r matches Err(w) && is_wrapped_single(
            w,
            e,
            ErrorKind::ReadDir,
            path@,
        )),
{
    match outcome {
        Ok(s) => Ok(ReadDir { stream: s, path }),
        Err(e) => Err(Error::build(e, ErrorKind::ReadDir, path)),
    }
}

impl<S> ReadDir<S> {
    /// One step of the lazy sequence. The raw item is the platform's next
    /// entry (its handle, full path and bare name), its error, or the end
    /// marker; an iteration failure is wrapped with the parent directory's
    /// path and the read-directory kind, never with an entry's path.
    pub fn next<E>(&self, raw: Option<Result<(E, String, String), IoError>>) -> (r: Option<
        Result<DirEntry<E>, IoError>,
    >)
        ensures
            (raw is None ==> r is None),
            (raw matches Some(Ok(t)) ==> r matches Some(Ok(en)) && en.inner == t.0 && en.path
                == t.1 && en.file_name == t.2),
            (raw matches Some(Err(e)) ==> r matches Some(Err(w)) && is_wrapped_single(
                w,
                e,
                ErrorKind::ReadDir,
                self.path@,
            )),
    {
        match raw {
            None => None,
            Some(Ok((inner, path, file_name))) => Some(Ok(DirEntry { inner, path, file_name })),
            Some(Err(e)) => Some(
                Err(Error::build(e, ErrorKind::ReadDir, self.path.clone())),
            ),
        }
    }
}

impl<E> DirEntry<E> {
    /// The full path to the file that this entry represents.
    pub fn path(&self) -> (r: String)
        ensures
            r@ == self.path@,
    {
        self.path.clone()
    }

    /// Queries this entry's metadata: a failure is a metadata error on the
    /// entry's own path, not on the parent directory.
    pub fn metadata<M>(&self, outcome: Result<M, IoError>) -> (r: Result<M, IoError>)
        ensures
            (outcome matches Ok(v) ==> r matches Ok(w) && w == v),
            (outcome matches Err(e) ==> r matches Err(w) && is_wrapped_single(
                w,
                e,
                ErrorKind::Metadata,
                self.path@,
            )),
    {
        match outcome {
            Ok(v) => Ok(v),
            Err(e) => Err(Error::build(e, ErrorKind::Metadata, self.path.clone())),
        }
    }

    /// Queries this entry's file type, attributed like a metadata query on
    /// the entry's own path.
    pub fn file_type<T>(&self, outcome: Result<T, IoError>) -> (r: Result<T, IoError>)
        ensures
            (outcome matches Ok(v) ==> r matches Ok(w) && w == v),
            (outcome matches Err(e) ==> r matches Err(w) && is_wrapped_single(
                w,
                e,
                ErrorKind::Metadata,
                self.path@,
            )),
    {
        match outcome {
            Ok(v) => Ok(v),
            Err(e) => Err(Error::build(e, ErrorKind::Metadata, self.path.clone())),
        }
    }

    /// The bare name of this entry without any leading path components.
    pub fn file_name(&self) -> (r: String)
        ensures
            r@ == self.file_name@,
    {
        self.file_name.clone()
    }
}

impl<E> crate::Sealed for DirEntry<E> {

}

} // verus!
