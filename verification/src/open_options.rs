//! Options for how a file is opened: the full set of platform flags as
//! plain values. The outer shell translates them into the platform's own
//! builder; a failed open is attributed exactly as a plain open.

use vstd::prelude::*;

use crate::errors::{is_wrapped_single, IoError};
use crate::file::File;

verus! {

/// The flags controlling how a file is opened, together with the
/// platform-specific extras, all unset by default.
#[derive(Clone, Copy, Debug)]
pub struct OpenOptions {
    /// Open for reading.
    pub read: bool,
    /// Open for writing.
    pub write: bool,
    /// Write to the end of the file instead of its start.
    pub append: bool,
    /// Truncate the file to zero length on open.
    pub truncate: bool,
    /// Create the file if it does not exist.
    pub create: bool,
    /// Create the file, failing if it already exists.
    pub create_new: bool,
    /// The permission mode a created file gets, where the platform takes
    /// one; its default applies when unset.
    pub mode: Option<u32>,
    /// Extra platform flags for the open call, where the platform's flags
    /// are signed.
    pub unix_custom_flags: Option<i32>,
    /// Overrides the access mode computed from the read/write flags.
    pub access_mode: Option<u32>,
    /// How the opened file may be shared by other openers.
    pub share_mode: Option<u32>,
    /// Extra platform flags for the open call, where the platform's flags
    /// are unsigned.
    pub windows_custom_flags: Option<u32>,
    /// The attributes a created file gets.
    pub attributes: Option<u32>,
    /// Security quality-of-service flags for the open call.
    pub security_qos_flags: Option<u32>,
}

impl OpenOptions {
    /// A blank set of options: every flag off, every extra unset.
    pub fn new() -> (r: OpenOptions)
        ensures
            r == (OpenOptions {
                read: false,
                write: false,
                append: false,
                truncate: false,
                create: false,
                create_new: false,
                mode: None,
                unix_custom_flags: None,
                access_mode: None,
                share_mode: None,
                windows_custom_flags: None,
                attributes: None,
                security_qos_flags: None,
            }),
    {
        OpenOptions {
            read: false,
            write: false,
            append: false,
            truncate: false,
            create: false,
            create_new: false,
            mode: None,
            unix_custom_flags: None,
            access_mode: None,
            share_mode: None,
            windows_custom_flags: None,
            attributes: None,
            security_qos_flags: None,
        }
    }

    /// Sets the option for read access.
    pub fn read(self, read: bool) -> (r: OpenOptions)
        ensures
            r == (OpenOptions { read, ..self }),
    {
        OpenOptions { read, ..self }
    }

    /// Sets the option for write access.
    pub fn write(self, write: bool) -> (r: OpenOptions)
        ensures
            r == (OpenOptions { write, ..self }),
    {
        OpenOptions { write, ..self }
    }

    /// Sets the option for append mode.
    pub fn append(self, append: bool) -> (r: OpenOptions)
        ensures
            r == (OpenOptions { append, ..self }),
    {
        OpenOptions { append, ..self }
    }

    /// Sets the option for truncating a previous file.
    pub fn truncate(self, truncate: bool) -> (r: OpenOptions)
        ensures
            r == (OpenOptions { truncate, ..self }),
    {
        OpenOptions { truncate, ..self }
    }

    /// Sets the option for creating a new file when missing.
    pub fn create(self, create: bool) -> (r: OpenOptions)
        ensures
            r == (OpenOptions { create, ..self }),
    {
        OpenOptions { create, ..self }
    }

    /// Sets the option for creating a new file, failing on an existing one.
    pub fn create_new(self, create_new: bool) -> (r: OpenOptions)
        ensures
            r == (OpenOptions { create_new, ..self }),
    {
        OpenOptions { create_new, ..self }
    }

    /// Opens a file with these options: a failure is attributed as an
    /// open-file error on `path`, whatever the options were.
    pub fn open<H>(&self, path: String, outcome: Result<H, IoError>) -> (r: Result<
        File<H>,
        IoError,
    >)
        ensures
            (outcome matches Ok(h) ==> r matches Ok(f) && f.handle == h && f.path == path),
            (outcome matches Err(e) ==> r matches Err(w) && is_wrapped_single(
                w,
                e,
                crate::errors::ErrorKind::OpenFile,
                path@,
            )),
    {
        File::from_options(path, outcome)
    }
}

impl Default for OpenOptions {
    /// The same blank options as `new`.
    fn default() -> (r: OpenOptions)
        ensures
            r == (OpenOptions {
                read: false,
                write: false,
                append: false,
                truncate: false,
                create: false,
                create_new: false,
                mode: None,
                unix_custom_flags: None,
                access_mode: None,
                share_mode: None,
                windows_custom_flags: None,
                attributes: None,
                security_qos_flags: None,
            }),
    {
        OpenOptions::new()
    }
}

impl crate::Sealed for OpenOptions {

}

} // verus!
