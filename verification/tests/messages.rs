//! Exact rendered message and category preservation for every operation
//! kind, on errors built directly from the library's error model.

use fs_err::errors::SourceDestErrorKind as K;
use fs_err::errors::{
    Error, ErrorCategory, ErrorKind, ErrorPayload, IoError, SourceDestError,
};

fn os_error(category: ErrorCategory) -> IoError {
    IoError {
        category,
        payload: ErrorPayload::Os { code: 2, detail: "os error 2".to_string() },
    }
}

#[test]
fn single_path_messages_cover_every_kind() {
    let cases: Vec<(ErrorKind, &str)> = vec![
        (ErrorKind::OpenFile, "failed to open file `p`"),
        (ErrorKind::CreateFile, "failed to create file `p`"),
        (ErrorKind::CreateDir, "failed to create directory `p`"),
        (ErrorKind::SyncFile, "failed to sync file `p`"),
        (ErrorKind::SetLen, "failed to set length of file `p`"),
        (ErrorKind::Metadata, "failed to query metadata of file `p`"),
        (ErrorKind::Clone, "failed to clone handle for file `p`"),
        (ErrorKind::SetPermissions, "failed to set permissions for file `p`"),
        (ErrorKind::Read, "failed to read from file `p`"),
        (ErrorKind::Seek, "failed to seek in file `p`"),
        (ErrorKind::Write, "failed to write to file `p`"),
        (ErrorKind::Flush, "failed to flush file `p`"),
        (ErrorKind::ReadDir, "failed to read directory `p`"),
        (ErrorKind::RemoveFile, "failed to remove file `p`"),
        (ErrorKind::RemoveDir, "failed to remove directory `p`"),
        (ErrorKind::Canonicalize, "failed to canonicalize path `p`"),
        (ErrorKind::ReadLink, "failed to read symbolic link `p`"),
        (ErrorKind::SymlinkMetadata, "failed to query metadata of symlink `p`"),
        (ErrorKind::FileExists, "failed to check file existance `p`"),
        (ErrorKind::SeekRead, "failed to seek and read from `p`"),
        (ErrorKind::SeekWrite, "failed to seek and write to `p`"),
        (ErrorKind::ReadAt, "failed to read with offset from `p`"),
        (ErrorKind::WriteAt, "failed to write with offset to `p`"),
        (ErrorKind::Chown, "failed to change ownership of file `p`"),
        (ErrorKind::Lchown, "failed to change ownership of symlink `p`"),
        (ErrorKind::Chroot, "failed to change root to `p`"),
    ];
    for (kind, expected) in cases {
        let wrapped = Error::build(os_error(ErrorCategory::Other), kind, "p".to_string());
        assert_eq!(wrapped.message(), expected);
    }
}

#[test]
fn dual_path_messages_cover_every_kind() {
    let cases: Vec<(K, &str)> = vec![
        (K::Copy, "failed to copy file from a to b"),
        (K::HardLink, "failed to hardlink file from a to b"),
        (K::Rename, "failed to rename file from a to b"),
        (K::SoftLink, "failed to softlink file from a to b"),
        (K::Symlink, "failed to symlink file from a to b"),
        (K::SymlinkFile, "failed to symlink file from a to b"),
        (K::SymlinkDir, "failed to symlink dir from a to b"),
    ];
    for (kind, expected) in cases {
        let wrapped = SourceDestError::build(
            os_error(ErrorCategory::Other),
            kind,
            "a".to_string(),
            "b".to_string(),
        );
        assert_eq!(wrapped.message(), expected);
    }
}

#[test]
fn wrapping_preserves_the_category() {
    let categories = vec![
        ErrorCategory::NotFound,
        ErrorCategory::PermissionDenied,
        ErrorCategory::AlreadyExists,
        ErrorCategory::InvalidInput,
        ErrorCategory::TimedOut,
        ErrorCategory::Other,
    ];
    for category in categories {
        let wrapped = Error::build(os_error(category), ErrorKind::OpenFile, "p".to_string());
        assert_eq!(wrapped.category(), category);
        let dual = SourceDestError::build(
            os_error(category),
            fs_err::errors::SourceDestErrorKind::Rename,
            "a".to_string(),
            "b".to_string(),
        );
        assert_eq!(dual.category(), category);
    }
}

#[test]
fn the_cause_chain_reaches_the_raw_error() {
    let raw = os_error(ErrorCategory::NotFound);
    let wrapped = Error::build(raw, ErrorKind::Read, "p".to_string());
    let cause = wrapped.cause().expect("a contextual error has a cause");
    assert_eq!(cause.category(), ErrorCategory::NotFound);
    assert_eq!(cause.message(), "os error 2");
    assert!(cause.cause().is_none());
}

#[test]
fn a_wrapped_error_can_be_wrapped_again_without_losing_its_category() {
    let raw = os_error(ErrorCategory::PermissionDenied);
    let once = Error::build(raw, ErrorKind::OpenFile, "p".to_string());
    let twice = Error::build(once, ErrorKind::Read, "q".to_string());
    assert_eq!(twice.category(), ErrorCategory::PermissionDenied);
    assert_eq!(twice.message(), "failed to read from file `q`");
    let inner = twice.cause().expect("outer wrap keeps its cause");
    assert_eq!(inner.message(), "failed to open file `p`");
}

#[test]
fn raw_payloads_render_their_own_detail() {
    let os = IoError {
        category: ErrorCategory::NotFound,
        payload: ErrorPayload::Os { code: 2, detail: "no such file (os error 2)".to_string() },
    };
    assert_eq!(os.message(), "no such file (os error 2)");
    let simple = IoError {
        category: ErrorCategory::Other,
        payload: ErrorPayload::Simple { detail: "boom".to_string() },
    };
    assert_eq!(simple.message(), "boom");
    assert!(simple.cause().is_none());
}

#[test]
fn contextual_error_values_expose_their_parts() {
    let wrapped = Error::build(
        os_error(ErrorCategory::NotFound),
        ErrorKind::OpenFile,
        "missing.txt".to_string(),
    );
    match wrapped.payload {
        ErrorPayload::Context(e) => {
            assert!(matches!(e.kind, ErrorKind::OpenFile));
            assert_eq!(e.path, "missing.txt");
            assert_eq!(e.message(), "failed to open file `missing.txt`");
            assert_eq!(e.source().message(), "os error 2");
        }
        _ => panic!("single-path wrapping must produce a contextual payload"),
    }
    let dual = SourceDestError::build(
        os_error(ErrorCategory::Other),
        fs_err::errors::SourceDestErrorKind::Copy,
        "a.txt".to_string(),
        "b/c.txt".to_string(),
    );
    match dual.payload {
        ErrorPayload::SourceDestContext(e) => {
            assert!(matches!(e.kind, fs_err::errors::SourceDestErrorKind::Copy));
            assert_eq!(e.from_path, "a.txt");
            assert_eq!(e.to_path, "b/c.txt");
            assert_eq!(e.message(), "failed to copy file from a.txt to b/c.txt");
            assert_eq!(e.source().message(), "os error 2");
        }
        _ => panic!("dual-path wrapping must produce a dual contextual payload"),
    }
}

#[test]
fn rendering_helpers_match_the_templates() {
    assert_eq!(
        fs_err::errors::render_single_message(ErrorKind::Seek, "s"),
        "failed to seek in file `s`"
    );
    assert_eq!(
        fs_err::errors::render_dual_message(
            fs_err::errors::SourceDestErrorKind::HardLink,
            "x",
            "y"
        ),
        "failed to hardlink file from x to y"
    );
}
