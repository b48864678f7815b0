//! A builder for creating directories with configurable options. The
//! options are plain values; the outer shell translates them into the
//! platform's builder before making the call.

use vstd::prelude::*;

use crate::errors::{is_wrapped_single, Error, ErrorKind, IoError};

verus! {

/// Options for creating a directory: whether missing parents are created,
/// and, where the platform supports it, the permission mode for new
/// directories.
#[derive(Clone, Copy, Debug)]
pub struct DirBuilder {
    /// Create missing parent directories as well.
    pub recursive: bool,
    /// The permission mode for newly created directories, where the
    /// platform takes one; its default is used when unset.
    pub mode: Option<u32>,
}

/// Extension for platforms whose directories carry a permission mode.
pub trait DirBuilderExt: Sized {
    /// Sets the mode to create new directories with.
    fn mode(self, mode: u32) -> Self;
}

impl DirBuilder {
    /// A blank set of options: not recursive, with the platform's default
    /// mode.
    pub fn new() -> (r: DirBuilder)
        ensures
            !r.recursive,
            r.mode is None,
    {
        DirBuilder { recursive: false, mode: None }
    }

    /// Sets the option for recursive mode.
    pub fn recursive(self, recursive: bool) -> (r: DirBuilder)
        ensures
            r.recursive == recursive,
            r.mode == self.mode,
    {
        DirBuilder { recursive, ..self }
    }

    /// Creates a directory with the configured options: a failure is a
    /// create-directory error on `path`.
    pub fn create(&self, path: &str, outcome: Result<(), IoError>) -> (r: Result<(), IoError>)
        ensures
            (outcome is Ok ==> r is Ok),
            (outcome matches Err(e) ==> r matches Err(w) && is_wrapped_single(
                w,
                e,
                ErrorKind::CreateDir,
                path@,
            )),
    {
        match outcome {
            Ok(v) => Ok(v),
            Err(e) => Err(Error::build(e, ErrorKind::CreateDir, path.to_owned())),
        }
    }
}

impl DirBuilderExt for DirBuilder {
    /// Sets the mode to create new directories with.
    fn mode(self, mode: u32) -> (r: Self)
        ensures
            r.mode == Some(mode),
            r.recursive == self.recursive,
    {
        DirBuilder { mode: Some(mode), ..self }
    }
}

impl Default for DirBuilder {
    /// The same blank options as `new`.
    fn default() -> (r: DirBuilder)
        ensures
            !r.recursive,
            r.mode is None,
    {
        DirBuilder { recursive: false, mode: None }
    }
}

impl crate::Sealed for DirBuilder {

}

} // verus!
