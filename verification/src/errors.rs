//! The contextual error model: a generic error value that carries a
//! category (so callers can still classify it) and a payload that is either
//! the raw platform error or a contextual wrapper naming the attempted
//! operation and the path(s) involved.

use vstd::prelude::*;
use vstd::string::StringExecFns;

verus! {

/// Classification of a low-level error, mirroring the platform's error
/// categories. Wrapping an error never changes its category, so code that
/// handles errors by category keeps working on wrapped errors.
#[derive(Clone, Copy, Debug, PartialEq, Eq, Structural)]
pub enum ErrorCategory {
    NotFound,
    PermissionDenied,
    ConnectionRefused,
    ConnectionReset,
    ConnectionAborted,
    NotConnected,
    AddrInUse,
    AddrNotAvailable,
    BrokenPipe,
    AlreadyExists,
    WouldBlock,
    InvalidInput,
    InvalidData,
    TimedOut,
    WriteZero,
    Interrupted,
    Unsupported,
    UnexpectedEof,
    OutOfMemory,
    Other,
}

/// The operation attempted when a single-path error occurred. Each kind is
/// in one-to-one correspondence with a message template.
#[derive(Clone, Copy, Debug, PartialEq, Eq, Structural)]
pub enum ErrorKind {
    OpenFile,
    CreateFile,
    CreateDir,
    SyncFile,
    SetLen,
    Metadata,
    Clone,
    SetPermissions,
    Read,
    Seek,
    Write,
    Flush,
    ReadDir,
    RemoveFile,
    RemoveDir,
    Canonicalize,
    ReadLink,
    SymlinkMetadata,
    FileExists,
    SeekRead,
    SeekWrite,
    ReadAt,
    WriteAt,
    Chown,
    Lchown,
    Chroot,
}

/// The operation attempted when an error with a source and a destination
/// path occurred.
#[derive(Clone, Copy, Debug, PartialEq, Eq, Structural)]
pub enum SourceDestErrorKind {
    Copy,
    HardLink,
    Rename,
    SoftLink,
    Symlink,
    SymlinkDir,
    SymlinkFile,
}

/// The verb phrase of the message template for a single-path kind.
pub open spec fn spec_kind_verb(kind: ErrorKind) -> Seq<char> {
    match kind {
        ErrorKind::OpenFile => "open file"@,
        ErrorKind::CreateFile => "create file"@,
        ErrorKind::CreateDir => "create directory"@,
        ErrorKind::SyncFile => "sync file"@,
        ErrorKind::SetLen => "set length of file"@,
        ErrorKind::Metadata => "query metadata of file"@,
        ErrorKind::Clone => "clone handle for file"@,
        ErrorKind::SetPermissions => "set permissions for file"@,
        ErrorKind::Read => "read from file"@,
        ErrorKind::Seek => "seek in file"@,
        ErrorKind::Write => "write to file"@,
        ErrorKind::Flush => "flush file"@,
        ErrorKind::ReadDir => "read directory"@,
        ErrorKind::RemoveFile => "remove file"@,
        ErrorKind::RemoveDir => "remove directory"@,
        ErrorKind::Canonicalize => "canonicalize path"@,
        ErrorKind::ReadLink => "read symbolic link"@,
        ErrorKind::SymlinkMetadata => "query metadata of symlink"@,
        ErrorKind::FileExists => "check file existance"@,
        ErrorKind::SeekRead => "seek and read from"@,
        ErrorKind::SeekWrite => "seek and write to"@,
        ErrorKind::ReadAt => "read with offset from"@,
        ErrorKind::WriteAt => "write with offset to"@,
        ErrorKind::Chown => "change ownership of file"@,
        ErrorKind::Lchown => "change ownership of symlink"@,
        ErrorKind::Chroot => "change root to"@,
    }
}

/// The verb phrase of the message template for a dual-path kind.
pub open spec fn spec_dual_verb(kind: SourceDestErrorKind) -> Seq<char> {
    match kind {
        SourceDestErrorKind::Copy => "copy file"@,
        SourceDestErrorKind::HardLink => "hardlink file"@,
        SourceDestErrorKind::Rename => "rename file"@,
        SourceDestErrorKind::SoftLink => "softlink file"@,
        SourceDestErrorKind::Symlink => "symlink file"@,
        SourceDestErrorKind::SymlinkFile => "symlink file"@,
        SourceDestErrorKind::SymlinkDir => "symlink dir"@,
    }
}

/// The rendered message for a single-path error: the fixed-format sentence
/// `failed to <verb phrase> \`<path>\``.
pub open spec fn spec_single_message(kind: ErrorKind, path: Seq<char>) -> Seq<char> {
    "failed to "@ + spec_kind_verb(kind) + " `"@ + path + "`"@
}

/// The rendered message for a dual-path error: the fixed-format sentence
/// `failed to <verb phrase> from <from> to <to>`, with the paths always in
/// the operation's documented direction.
pub open spec fn spec_dual_message(
    kind: SourceDestErrorKind,
    from: Seq<char>,
    to: Seq<char>,
) -> Seq<char> {
    "failed to "@ + spec_dual_verb(kind) + " from "@ + from + " to "@ + to
}

fn kind_verb(kind: ErrorKind) -> (r: &'static str)
    ensures
        r@ == spec_kind_verb(kind),
{
    match kind {
        ErrorKind::OpenFile => "open file",
        ErrorKind::CreateFile => "create file",
        ErrorKind::CreateDir => "create directory",
        ErrorKind::SyncFile => "sync file",
        ErrorKind::SetLen => "set length of file",
        ErrorKind::Metadata => "query metadata of file",
        ErrorKind::Clone => "clone handle for file",
        ErrorKind::SetPermissions => "set permissions for file",
        ErrorKind::Read => "read from file",
        ErrorKind::Seek => "seek in file",
        ErrorKind::Write => "write to file",
        ErrorKind::Flush => "flush file",
        ErrorKind::ReadDir => "read directory",
        ErrorKind::RemoveFile => "remove file",
        ErrorKind::RemoveDir => "remove directory",
        ErrorKind::Canonicalize => "canonicalize path",
        ErrorKind::ReadLink => "read symbolic link",
        ErrorKind::SymlinkMetadata => "query metadata of symlink",
        ErrorKind::FileExists => "check file existance",
        ErrorKind::SeekRead => "seek and read from",
        ErrorKind::SeekWrite => "seek and write to",
        ErrorKind::ReadAt => "read with offset from",
        ErrorKind::WriteAt => "write with offset to",
        ErrorKind::Chown => "change ownership of file",
        ErrorKind::Lchown => "change ownership of symlink",
        ErrorKind::Chroot => "change root to",
    }
}

fn dual_verb(kind: SourceDestErrorKind) -> (r: &'static str)
    ensures
        r@ == spec_dual_verb(kind),
{
    match kind {
        SourceDestErrorKind::Copy => "copy file",
        SourceDestErrorKind::HardLink => "hardlink file",
        SourceDestErrorKind::Rename => "rename file",
        SourceDestErrorKind::SoftLink => "softlink file",
        SourceDestErrorKind::Symlink => "symlink file",
        SourceDestErrorKind::SymlinkFile => "symlink file",
        SourceDestErrorKind::SymlinkDir => "symlink dir",
    }
}

/// What a generic error carries besides its category: either a low-level
/// platform error as plain values, or one of the contextual wrappers. The
/// boxed cause, when inspected, yields the rich contextual value.
#[derive(Debug)]
pub enum ErrorPayload {
    /// A raw operating-system error: its code and its rendered text.
    Os { code: i32, detail: String },
    /// A non-contextual error that carries only a rendered text.
    Simple { detail: String },
    /// A single-path contextual error.
    Context(Box<Error>),
    /// A dual-path contextual error.
    SourceDestContext(Box<SourceDestError>),
}

/// The generic error type of the facade, substitutable anywhere a plain
/// platform error is expected: callers that only look at the category see
/// no difference between a raw and a wrapped error.
#[derive(Debug)]
pub struct IoError {
    /// The classification of the underlying failure.
    pub category: ErrorCategory,
    /// The raw error, or the contextual wrapper around it.
    pub payload: ErrorPayload,
}

/// A low-level error enriched with the attempted operation kind and the one
/// path involved.
///
/// This type is never handed out directly: `build` immediately wraps it back
/// into the generic [`IoError`], keeping the source's category.
#[derive(Debug)]
pub struct Error {
    /// Which operation was attempted.
    pub kind: ErrorKind,
    /// The underlying error, preserved as an inspectable cause.
    pub source: IoError,
    /// The path the operation was attempted on.
    pub path: String,
}

/// A low-level error enriched with the attempted operation kind and the
/// source and destination paths, for operations such as copy and rename.
#[derive(Debug)]
pub struct SourceDestError {
    /// Which operation was attempted.
    pub kind: SourceDestErrorKind,
    /// The underlying error, preserved as an inspectable cause.
    pub source: IoError,
    /// The path the operation reads from.
    pub from_path: String,
    /// The path the operation writes to.
    pub to_path: String,
}

impl IoError {
    /// The rendered message of this error: the contextual template when the
    /// payload is contextual, the raw text otherwise.
    pub open spec fn spec_message(self) -> Seq<char> {
        match self.payload {
            ErrorPayload::Os { code, detail } => detail@,
            ErrorPayload::Simple { detail } => detail@,
            ErrorPayload::Context(e) => spec_single_message(e.kind, e.path@),
            ErrorPayload::SourceDestContext(e) => spec_dual_message(
                e.kind,
                e.from_path@,
                e.to_path@,
            ),
        }
    }

    /// The category of the underlying failure; wrapping preserves it.
    pub fn category(&self) -> (r: ErrorCategory)
        ensures
            r == self.category,
    {
        self.category
    }

    /// Renders the message an operator sees.
    pub fn message(&self) -> (r: String)
        ensures
            r@ == self.spec_message(),
    {
        match &self.payload {
            ErrorPayload::Os { code, detail } => detail.clone(),
            ErrorPayload::Simple { detail } => detail.clone(),
            ErrorPayload::Context(e) => e.message(),
            ErrorPayload::SourceDestContext(e) => e.message(),
        }
    }

    /// The underlying error of a contextual payload, for diagnostic chains;
    /// a raw error has no further cause.
    pub fn cause(&self) -> (r: Option<&IoError>)
        ensures
            (self.payload matches ErrorPayload::Context(e) ==> r matches Some(c) && *c
                == e.source),
            (self.payload matches ErrorPayload::SourceDestContext(e) ==> r matches Some(c) && *c
                == e.source),
            (self.payload matches ErrorPayload::Os { .. } ==> r is None),
            (self.payload matches ErrorPayload::Simple { .. } ==> r is None),
    {
        match &self.payload {
            ErrorPayload::Os { code, detail } => None,
            ErrorPayload::Simple { detail } => None,
            ErrorPayload::Context(e) => Some(&e.source),
            ErrorPayload::SourceDestContext(e) => Some(&e.source),
        }
    }
}

/// Holds when `wrapped` is exactly the generic error that wrapping `source`
/// with the single-path kind `kind` and path `path` produces.
pub open spec fn is_wrapped_single(
    wrapped: IoError,
    source: IoError,
    kind: ErrorKind,
    path: Seq<char>,
) -> bool {
    &&& wrapped.category == source.category
    &&& wrapped.payload matches ErrorPayload::Context(e) && e.kind == kind && e.source == source
        && e.path@ == path
}

/// Holds when `wrapped` is exactly the generic error that wrapping `source`
/// with the dual-path kind `kind` and paths `from`, `to` produces.
pub open spec fn is_wrapped_dual(
    wrapped: IoError,
    source: IoError,
    kind: SourceDestErrorKind,
    from: Seq<char>,
    to: Seq<char>,
) -> bool {
    &&& wrapped.category == source.category
    &&& wrapped.payload matches ErrorPayload::SourceDestContext(e) && e.kind == kind && e.source
        == source && e.from_path@ == from && e.to_path@ == to
}

impl Error {
    /// Wraps a low-level error with an operation kind and a path, producing
    /// a generic error that keeps the source's category and yields the
    /// contextual value when its cause is inspected. Construction is total.
    pub fn build(source: IoError, kind: ErrorKind, path: String) -> (r: IoError)
        ensures
            is_wrapped_single(r, source, kind, path@),
            r.spec_message() == spec_single_message(kind, path@),
    {
        let category = source.category;
        IoError {
            category,
            payload: ErrorPayload::Context(Box::new(Error { kind, source, path })),
        }
    }

    /// Renders the message an operator sees.
    pub fn message(&self) -> (r: String)
        ensures
            r@ == spec_single_message(self.kind, self.path@),
    {
        render_single_message(self.kind, self.path.as_str())
    }

    /// The underlying error, exposed as a queryable cause.
    pub fn source(&self) -> (r: &IoError)
        ensures
            *r == self.source,
    {
        &self.source
    }

    /// The same underlying error, under the older name for the chain.
    pub fn cause(&self) -> (r: &IoError)
        ensures
            *r == self.source,
    {
        &self.source
    }
}

impl SourceDestError {
    /// Wraps a low-level error with a dual-path operation kind and the two
    /// paths in the operation's documented from/to order. Construction is
    /// total.
    pub fn build(
        source: IoError,
        kind: SourceDestErrorKind,
        from_path: String,
        to_path: String,
    ) -> (r: IoError)
        ensures
            is_wrapped_dual(r, source, kind, from_path@, to_path@),
            r.spec_message() == spec_dual_message(kind, from_path@, to_path@),
    {
        let category = source.category;
        IoError {
            category,
            payload: ErrorPayload::SourceDestContext(
                Box::new(SourceDestError { kind, source, from_path, to_path }),
            ),
        }
    }

    /// Renders the message an operator sees.
    pub fn message(&self) -> (r: String)
        ensures
            r@ == spec_dual_message(self.kind, self.from_path@, self.to_path@),
    {
        render_dual_message(self.kind, self.from_path.as_str(), self.to_path.as_str())
    }

    /// The underlying error, exposed as a queryable cause.
    pub fn source(&self) -> (r: &IoError)
        ensures
            *r == self.source,
    {
        &self.source
    }

    /// The same underlying error, under the older name for the chain.
    pub fn cause(&self) -> (r: &IoError)
        ensures
            *r == self.source,
    {
        &self.source
    }
}

/// Renders the single-path message template.
pub fn render_single_message(kind: ErrorKind, path: &str) -> (r: String)
    ensures
        r@ == spec_single_message(kind, path@),
{
    let mut m = "failed to ".to_owned();
    m.append(kind_verb(kind));
    m.append(" `");
    m.append(path);
    m.append("`");
    m
}

/// Renders the dual-path message template.
pub fn render_dual_message(kind: SourceDestErrorKind, from: &str, to: &str) -> (r: String)
    ensures
        r@ == spec_dual_message(kind, from@, to@),
{
    let mut m = "failed to ".to_owned();
    m.append(dual_verb(kind));
    m.append(" from ");
    m.append(from);
    m.append(" to ");
    m.append(to);
    m
}

} // verus!
