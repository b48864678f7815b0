//! End-to-end scenarios against the real filesystem: the platform calls are
//! made through the asynchronous backend, their raw outcomes are handed to
//! the facade's wrap functions, and the resulting errors and values are
//! checked against the documented behavior.

use fs_err::errors::{ErrorCategory, ErrorKind, ErrorPayload, IoError};
use futures_lite::future::block_on;
use futures_lite::stream::StreamExt;

fn to_lib(e: std::io::Error) -> IoError {
    let category = match e.kind() {
        std::io::ErrorKind::NotFound => ErrorCategory::NotFound,
        std::io::ErrorKind::PermissionDenied => ErrorCategory::PermissionDenied,
        std::io::ErrorKind::AlreadyExists => ErrorCategory::AlreadyExists,
        std::io::ErrorKind::InvalidInput => ErrorCategory::InvalidInput,
        std::io::ErrorKind::InvalidData => ErrorCategory::InvalidData,
        std::io::ErrorKind::TimedOut => ErrorCategory::TimedOut,
        std::io::ErrorKind::WriteZero => ErrorCategory::WriteZero,
        std::io::ErrorKind::Interrupted => ErrorCategory::Interrupted,
        std::io::ErrorKind::Unsupported => ErrorCategory::Unsupported,
        std::io::ErrorKind::UnexpectedEof => ErrorCategory::UnexpectedEof,
        std::io::ErrorKind::OutOfMemory => ErrorCategory::OutOfMemory,
        _ => ErrorCategory::Other,
    };
    let detail = format!("{}", e);
    match e.raw_os_error() {
        Some(code) => IoError { category, payload: ErrorPayload::Os { code, detail } },
        None => IoError { category, payload: ErrorPayload::Simple { detail } },
    }
}

fn lib_result<T>(raw: Result<T, std::io::Error>) -> Result<T, IoError> {
    raw.map_err(to_lib)
}

#[test]
fn opening_a_missing_path_renders_the_exact_message_with_not_found_cause() {
    let raw = block_on(async_fs::File::open("missing.txt"));
    assert!(raw.is_err(), "the path must not exist on disk");
    let outcome = lib_result(raw);
    let e = fs_err::file::File::open("missing.txt".to_string(), outcome).unwrap_err();
    assert_eq!(e.message(), "failed to open file `missing.txt`");
    assert_eq!(e.category(), ErrorCategory::NotFound);
    let cause = e.cause().expect("the platform error stays inspectable");
    assert_eq!(cause.category(), ErrorCategory::NotFound);
}

#[test]
fn copying_to_a_missing_destination_names_both_paths_with_the_copy_kind() {
    let raw = block_on(async_fs::copy("a.txt", "b/c.txt"));
    assert!(raw.is_err(), "neither path exists, so the platform call fails");
    let e = fs_err::copy("a.txt", "b/c.txt", lib_result(raw)).unwrap_err();
    assert_eq!(e.message(), "failed to copy file from a.txt to b/c.txt");
    match &e.payload {
        ErrorPayload::SourceDestContext(d) => {
            assert!(matches!(d.kind, fs_err::errors::SourceDestErrorKind::Copy));
            assert_eq!(d.from_path, "a.txt");
            assert_eq!(d.to_path, "b/c.txt");
        }
        _ => panic!("a failed copy must carry the dual-path context"),
    }
}

#[test]
fn copy_order_is_kept_when_the_destination_side_fails() {
    let dir = "/tmp/fs_err_scratch_copy_order";
    let _ = block_on(async_fs::remove_dir_all(dir));
    block_on(async_fs::create_dir_all(dir)).unwrap();
    let src = "/tmp/fs_err_scratch_copy_order/src.txt";
    let dst = "/tmp/fs_err_scratch_copy_order/nodir/dst.txt";
    block_on(async_fs::write(src, b"payload")).unwrap();
    let raw = block_on(async_fs::copy(src, dst));
    assert!(raw.is_err(), "the destination directory does not exist");
    let e = fs_err::copy(src, dst, lib_result(raw)).unwrap_err();
    assert_eq!(
        e.message(),
        "failed to copy file from /tmp/fs_err_scratch_copy_order/src.txt to /tmp/fs_err_scratch_copy_order/nodir/dst.txt"
    );
    block_on(async_fs::remove_dir_all(dir)).unwrap();
}

#[test]
fn written_bytes_read_back_identically() {
    let dir = "/tmp/fs_err_scratch_round_trip";
    let _ = block_on(async_fs::remove_dir_all(dir));
    block_on(async_fs::create_dir_all(dir)).unwrap();
    let path = "/tmp/fs_err_scratch_round_trip/data.bin";
    let bytes: Vec<u8> = vec![0, 255, 10, 13, 42, 7];
    let write_outcome = match block_on(async_fs::write(path, &bytes)) {
        Ok(()) => fs_err::WriteOutcome::Written,
        Err(e) => fs_err::WriteOutcome::WriteFailed(to_lib(e)),
    };
    fs_err::write(path, write_outcome).expect("the scratch directory is writable");
    let read_outcome = match block_on(async_fs::read(path)) {
        Ok(b) => fs_err::ReadOutcome::Bytes(b),
        Err(e) => fs_err::ReadOutcome::ReadFailed(to_lib(e)),
    };
    let got = fs_err::read(path, read_outcome).expect("the file was just written");
    assert_eq!(got, bytes);
    block_on(async_fs::remove_dir_all(dir)).unwrap();
}

#[test]
fn written_text_reads_back_identically() {
    let dir = "/tmp/fs_err_scratch_text_trip";
    let _ = block_on(async_fs::remove_dir_all(dir));
    block_on(async_fs::create_dir_all(dir)).unwrap();
    let path = "/tmp/fs_err_scratch_text_trip/note.txt";
    let text = "failed? no: this round trip succeeds";
    let write_outcome = match block_on(async_fs::write(path, text.as_bytes())) {
        Ok(()) => fs_err::WriteOutcome::Written,
        Err(e) => fs_err::WriteOutcome::WriteFailed(to_lib(e)),
    };
    fs_err::write(path, write_outcome).expect("the scratch directory is writable");
    let text_outcome = match block_on(async_fs::read_to_string(path)) {
        Ok(t) => fs_err::ReadToStringOutcome::Text(t),
        Err(e) => fs_err::ReadToStringOutcome::ReadFailed(to_lib(e)),
    };
    let got = fs_err::read_to_string(path, text_outcome).expect("the file was just written");
    assert_eq!(got, text);
    block_on(async_fs::remove_dir_all(dir)).unwrap();
}

#[test]
fn recursive_creation_over_an_existing_path_is_idempotent() {
    let dir = "/tmp/fs_err_scratch_idempotent/a/b";
    let _ = block_on(async_fs::remove_dir_all("/tmp/fs_err_scratch_idempotent"));
    let first = fs_err::create_dir_all(dir, lib_result(block_on(async_fs::create_dir_all(dir))));
    assert!(first.is_ok());
    let second = fs_err::create_dir_all(dir, lib_result(block_on(async_fs::create_dir_all(dir))));
    assert!(second.is_ok(), "creating over a fully existing path succeeds");
    block_on(async_fs::remove_dir_all("/tmp/fs_err_scratch_idempotent")).unwrap();
}

#[test]
fn single_level_creation_without_its_parent_fails_with_the_create_dir_kind() {
    let path = "/tmp/fs_err_scratch_no_parent/x/y";
    let _ = block_on(async_fs::remove_dir_all("/tmp/fs_err_scratch_no_parent"));
    let raw = block_on(async_fs::create_dir(path));
    assert!(raw.is_err(), "the parent directory is missing");
    let e = fs_err::create_dir(path, lib_result(raw)).unwrap_err();
    assert_eq!(e.message(), "failed to create directory `/tmp/fs_err_scratch_no_parent/x/y`");
    match &e.payload {
        ErrorPayload::Context(c) => assert!(matches!(c.kind, ErrorKind::CreateDir)),
        _ => panic!("a failed creation must carry the single-path context"),
    }
}

#[test]
fn directory_iteration_lists_every_child_exactly_once() {
    let dir = "/tmp/fs_err_scratch_listing";
    let _ = block_on(async_fs::remove_dir_all(dir));
    block_on(async_fs::create_dir_all(dir)).unwrap();
    block_on(async_fs::write("/tmp/fs_err_scratch_listing/x1", b"1")).unwrap();
    block_on(async_fs::write("/tmp/fs_err_scratch_listing/x2", b"2")).unwrap();
    block_on(async_fs::write("/tmp/fs_err_scratch_listing/x3", b"3")).unwrap();
    let stream = block_on(async_fs::read_dir(dir)).unwrap();
    let rd = fs_err::dir::read_dir(dir.to_string(), Ok(stream)).unwrap();
    let mut stream = rd.stream;
    let holder = fs_err::dir::ReadDir { stream: 0u8, path: rd.path };
    let mut names: Vec<String> = Vec::new();
    loop {
        let raw = match block_on(stream.next()) {
            None => None,
            Some(Ok(entry)) => {
                let p = entry.path().to_string_lossy().into_owned();
                let n = entry.file_name().to_string_lossy().into_owned();
                Some(Ok((entry, p, n)))
            }
            Some(Err(e)) => Some(Err(to_lib(e))),
        };
        match holder.next(raw) {
            None => break,
            Some(item) => names.push(item.expect("listing a fresh directory").file_name()),
        }
    }
    names.sort();
    assert_eq!(names, vec!["x1", "x2", "x3"]);
    block_on(async_fs::remove_dir_all(dir)).unwrap();
    let again = lib_result(block_on(async_fs::read_dir(dir)));
    let e = fs_err::dir::read_dir::<async_fs::ReadDir>(dir.to_string(), again).unwrap_err();
    assert_eq!(e.message(), "failed to read directory `/tmp/fs_err_scratch_listing`");
    assert_eq!(e.category(), ErrorCategory::NotFound);
}

#[test]
fn entry_queries_answer_through_the_facade() {
    let dir = "/tmp/fs_err_scratch_entry";
    let _ = block_on(async_fs::remove_dir_all(dir));
    block_on(async_fs::create_dir_all(dir)).unwrap();
    block_on(async_fs::write("/tmp/fs_err_scratch_entry/only", b"abc")).unwrap();
    let stream = block_on(async_fs::read_dir(dir)).unwrap();
    let rd = fs_err::dir::read_dir(dir.to_string(), Ok(stream)).unwrap();
    let mut stream = rd.stream;
    let holder = fs_err::dir::ReadDir { stream: 0u8, path: rd.path };
    let raw = block_on(stream.next()).unwrap().map_err(to_lib).map(|entry| {
        let p = entry.path().to_string_lossy().into_owned();
        let n = entry.file_name().to_string_lossy().into_owned();
        (entry, p, n)
    });
    let entry = holder.next(Some(raw)).unwrap().unwrap();
    assert_eq!(entry.file_name(), "only");
    assert_eq!(entry.path(), "/tmp/fs_err_scratch_entry/only");
    let meta = entry.metadata(lib_result(block_on(entry.inner.metadata()))).unwrap();
    assert_eq!(meta.len(), 3);
    let file_type = entry.file_type(lib_result(block_on(entry.inner.file_type()))).unwrap();
    assert!(file_type.is_file());
    block_on(async_fs::remove_dir_all(dir)).unwrap();
}

#[test]
fn a_real_open_through_options_reads_back_content() {
    let dir = "/tmp/fs_err_scratch_options";
    let _ = block_on(async_fs::remove_dir_all(dir));
    block_on(async_fs::create_dir_all(dir)).unwrap();
    let path = "/tmp/fs_err_scratch_options/f.txt";
    block_on(async_fs::write(path, b"hello")).unwrap();
    let opts = fs_err::open_options::OpenOptions::new().read(true);
    let mut native = async_fs::OpenOptions::new();
    native.read(opts.read).write(opts.write).append(opts.append).truncate(opts.truncate).create(
        opts.create,
    ).create_new(opts.create_new);
    let raw = block_on(native.open(path));
    let file = opts.open(path.to_string(), lib_result(raw)).unwrap();
    assert_eq!(file.path().as_str(), path);
    let meta = file.metadata(lib_result(block_on(file.file().metadata()))).unwrap();
    assert_eq!(meta.len(), 5);
    block_on(async_fs::remove_dir_all(dir)).unwrap();
}
