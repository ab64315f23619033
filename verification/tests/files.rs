use mirrord_layer::detour::{Bypass, Detour, HookError};
use mirrord_layer::file::action::{Action, Event, Step};
use mirrord_layer::file::io::{
    fdopen, fsync, getdents64, lseek, lseek_answered, pread, pwrite, read, write_answered, xstatfs,
};
use mirrord_layer::file::layer::{get_remote_fd, FileLayer, OpenDir, RemoteFile, MAX_READ_SIZE};
use mirrord_layer::file::local_file::{
    close_remote_file_on_failure, create_local_fake_file, LocalFileOp,
};
use mirrord_layer::file::open::{fdopendir, open, openat, OpenOp};
use mirrord_layer::file::stat::{access, realpath, xstat};
use mirrord_layer::path::PathBuf;
use mirrord_layer::protocol::{
    relay, CloseFileRequest, GetDEnts64Request, OpenDirResponse, OpenFileResponse,
    OpenOptionsInternal, ProxyError, ReadFileRequest, ReadLimitedFileRequest, ResponseError,
    SeekFileRequest, SeekFileResponse, SeekFromInternal, WriteFileResponse, XstatFsRequest,
    XstatResponse,
};

const CWD: i32 = -100;

fn options(write: bool) -> OpenOptionsInternal {
    OpenOptionsInternal {
        encoded: vec![1, 2],
        write,
    }
}

fn path(text: &str) -> Detour<PathBuf> {
    Detour::Success(PathBuf::from(text))
}

fn refusal() -> ResponseError {
    ResponseError { code: 2 }
}

fn broken() -> HookError {
    HookError::Proxy(ProxyError { code: 9 })
}

/// The state and the action of an operation that has not ended.
fn waiting<S, T>(step: Step<S, T>) -> (S, Action) {
    match step {
        Step::Wait(op, action) => (op, action),
        Step::Done(_) => panic!("the operation has ended"),
    }
}

/// The end of an operation.
fn done<S, T>(step: Step<S, T>) -> Detour<T> {
    match step {
        Step::Done(end) => end,
        Step::Wait(..) => panic!("the operation waits"),
    }
}

fn success<T>(end: Detour<T>) -> T {
    match end {
        Detour::Success(value) => value,
        Detour::Bypass(bypass) => panic!("bypassed: {:?}", bypass),
        Detour::Error(error) => panic!("failed: {:?}", error),
    }
}

fn error<T>(end: Detour<T>) -> HookError {
    match end {
        Detour::Error(error) => error,
        _ => panic!("did not fail"),
    }
}

fn is_local<T>(end: Detour<T>, fd: i32) -> bool {
    matches!(end, Detour::Bypass(Bypass::LocalFdNotFound(f)) if f == fd)
}

fn is_relative<T>(end: Detour<T>, text: &str) -> bool {
    matches!(end, Detour::Bypass(Bypass::RelativePath(p)) if p == PathBuf::from(text))
}

fn is_ignored<T>(end: Detour<T>, text: &str) -> bool {
    matches!(end, Detour::Bypass(Bypass::IgnoredFile(p)) if p == PathBuf::from(text))
}

/// Goes through the making of a local file in a directory.
fn make_local_file(op: OpenOp, layer: &mut FileLayer, dir: &str, fd: i32) -> Step<OpenOp, i32> {
    let (op, action) = waiting(op.resume(layer, Event::TempDirFound(PathBuf::from(dir))));
    let created = match action {
        Action::CreateLocalFile { path } => path,
        _ => panic!("no local file is made"),
    };
    let (op, action) = waiting(op.resume(layer, Event::LocalFileCreated(fd)));
    match action {
        Action::UnlinkLocalFile { path } => assert_eq!(path, created),
        _ => panic!("the local file is not unlinked"),
    }
    op.resume(layer, Event::LocalFileUnlinked)
}

/// Opens a file in a layer.
fn open_file(layer: &mut FileLayer, text: &str, remote_fd: u64, local_fd: i32) {
    let (op, _) = waiting(open(path(text), options(false)));
    let (op, _) = waiting(op.resume(layer, Event::FilterAnswered(true)));
    let opened = Event::FileOpened(Ok(Ok(OpenFileResponse { fd: remote_fd })));
    let (op, action) = waiting(op.resume(layer, opened));
    assert!(matches!(action, Action::FindTempDir));
    assert_eq!(
        success(done(make_local_file(op, layer, "/tmp", local_fd))),
        local_fd
    );
}

fn layer_with(remote_fd: u64, local_fd: i32) -> FileLayer {
    let mut layer = FileLayer::default();
    open_file(&mut layer, "/data/x", remote_fd, local_fd);
    layer
}

#[test]
fn opened_file_is_found() {
    let mut layer = FileLayer::default();
    let (op, action) = waiting(open(path("/data/x"), options(true)));
    assert!(matches!(action, Action::AskFilter { text, write } if text == "/data/x" && write));
    assert!(op.expects(&Event::FilterAnswered(true)));
    assert!(!op.expects(&Event::LocalFileUnlinked));
    let (op, action) = waiting(op.resume(&mut layer, Event::FilterAnswered(true)));
    match action {
        Action::OpenFile(request) => {
            assert_eq!(request.path, PathBuf::from("/data/x"));
            assert_eq!(request.open_options.encoded, vec![1, 2]);
            assert!(request.open_options.is_write());
        }
        _ => panic!("no file is opened"),
    }
    let opened = Event::FileOpened(Ok(Ok(OpenFileResponse { fd: 70 })));
    let (op, _) = waiting(op.resume(&mut layer, opened));
    assert!(layer.file(4).is_none());
    assert_eq!(
        success(done(make_local_file(op, &mut layer, "/tmp", 4))),
        4
    );
    assert_eq!(
        layer.file(4),
        Some(&RemoteFile::new(70, String::from("/data/x")))
    );
    assert_eq!(success(get_remote_fd(&layer, 4)), 70);
    assert!(is_local(get_remote_fd(&layer, 5), 5));
}

#[test]
fn local_file_has_a_random_name() {
    let (op, action) = waiting(create_local_fake_file(70));
    assert!(matches!(action, Action::FindTempDir));
    let random = match &op {
        LocalFileOp::Locate { remote_fd, random } => {
            assert_eq!(*remote_fd, 70);
            random.clone()
        }
        _ => panic!("no directory is looked for"),
    };
    assert_eq!(random.len(), 16);
    assert!(random.chars().all(|c| c.is_ascii_alphanumeric()));
    let (_, action) = waiting(op.resume(Event::TempDirFound(PathBuf::from("/tmp"))));
    let expected = format!("/tmp/70-{}", random).into_bytes();
    assert!(matches!(action, Action::CreateLocalFile { path } if path == expected));
}

#[test]
fn random_names_differ() {
    let name = || match waiting(create_local_fake_file(1)).0 {
        LocalFileOp::Locate { random, .. } => random,
        _ => panic!("no directory is looked for"),
    };
    assert_ne!(name(), name());
}

#[test]
fn temporary_directory_with_a_zero_byte_is_an_error() {
    let (op, _) = waiting(create_local_fake_file(70));
    let end = done(op.resume(Event::TempDirFound(PathBuf::from("/t\0mp"))));
    assert_eq!(error(end), HookError::Null);
}

#[test]
fn file_without_local_file_is_closed() {
    let mut layer = FileLayer::default();
    let (op, _) = waiting(open(path("/x"), options(false)));
    let (op, _) = waiting(op.resume(&mut layer, Event::FilterAnswered(true)));
    let opened = Event::FileOpened(Ok(Ok(OpenFileResponse { fd: 70 })));
    let (op, _) = waiting(op.resume(&mut layer, opened));
    let found = Event::TempDirFound(PathBuf::from("/tmp"));
    let (op, _) = waiting(op.resume(&mut layer, found));
    let (op, action) = waiting(op.resume(&mut layer, Event::LocalFileCreated(-1)));
    assert!(matches!(action, Action::CloseFile(CloseFileRequest { fd: 70 })));
    let end = done(op.resume(&mut layer, Event::CloseSent(Ok(()))));
    assert_eq!(error(end), HookError::LocalFileCreation(70));
    assert!(layer.file(-1).is_none());
}

#[test]
fn close_that_is_not_sent_is_the_error() {
    let (op, _) = waiting(create_local_fake_file(70));
    let (op, _) = waiting(op.resume(Event::TempDirFound(PathBuf::from("/tmp"))));
    let (op, _) = waiting(op.resume(Event::LocalFileCreated(-1)));
    assert!(op.expects(&Event::CloseSent(Ok(()))));
    let end = done(op.resume(Event::CloseSent(Err(broken()))));
    assert_eq!(error(end), broken());
}

#[test]
fn displaced_file_is_closed() {
    let mut layer = layer_with(70, 4);
    let (op, _) = waiting(open(path("/y"), options(false)));
    let (op, _) = waiting(op.resume(&mut layer, Event::FilterAnswered(true)));
    let opened = Event::FileOpened(Ok(Ok(OpenFileResponse { fd: 71 })));
    let (op, _) = waiting(op.resume(&mut layer, opened));
    let (op, action) = waiting(make_local_file(op, &mut layer, "/tmp", 4));
    assert!(matches!(action, Action::CloseFile(CloseFileRequest { fd: 70 })));
    assert!(!op.expects(&Event::CloseSent(Err(broken()))));
    assert_eq!(
        success(done(op.resume(&mut layer, Event::CloseSent(Ok(()))))),
        4
    );
    assert_eq!(success(get_remote_fd(&layer, 4)), 71);
}

#[test]
fn removed_file_is_closed() {
    let mut layer = layer_with(70, 4);
    open_file(&mut layer, "/y", 71, 6);
    assert_eq!(layer.remove_file(5), None);
    assert_eq!(layer.remove_file(4), Some(CloseFileRequest { fd: 70 }));
    assert!(is_local(get_remote_fd(&layer, 4), 4));
    assert_eq!(success(get_remote_fd(&layer, 6)), 71);
    assert_eq!(layer.remove_file(4), None);
}

#[test]
fn refused_file_is_an_error() {
    let mut layer = FileLayer::default();
    let (op, _) = waiting(open(path("/x"), options(false)));
    let (op, _) = waiting(op.resume(&mut layer, Event::FilterAnswered(true)));
    let end = done(op.resume(&mut layer, Event::FileOpened(Ok(Err(refusal())))));
    assert_eq!(error(end), HookError::Response(refusal()));
    let (op, _) = waiting(open(path("/x"), options(false)));
    let (op, _) = waiting(op.resume(&mut layer, Event::FilterAnswered(true)));
    let end = done(op.resume(&mut layer, Event::FileOpened(Err(broken()))));
    assert_eq!(error(end), broken());
}

#[test]
fn ignored_files_are_left_to_the_system() {
    let mut layer = FileLayer::default();
    let (op, _) = waiting(open(path("/x"), options(false)));
    let end = done(op.resume(&mut layer, Event::FilterAnswered(false)));
    assert!(is_ignored(end, "/x"));
    let (op, _) = waiting(access(path("/x"), 4));
    assert!(is_ignored(done(op.resume(Event::FilterAnswered(false))), "/x"));
    let (op, _) = waiting(xstat(&layer, Some(path("/x")), None, false));
    assert!(is_ignored(done(op.resume(Event::FilterAnswered(false))), "/x"));
    let (op, _) = waiting(realpath(path("/a/../x")));
    let end = done(op.resume(&layer, Event::FilterAnswered(false)));
    assert!(is_ignored(end, "/x"));
}

#[test]
fn relative_paths_are_left_to_the_system() {
    let layer = FileLayer::default();
    assert!(is_relative(done(open(path("x"), options(false))), "x"));
    assert!(is_relative(
        done(openat(&layer, CWD, path("x"), options(false))),
        "x"
    ));
    assert!(is_relative(done(access(path("x"), 0)), "x"));
    assert!(is_relative(
        done(xstat(&layer, Some(path("x")), None, true)),
        "x"
    ));
    assert!(is_relative(
        done(xstat(&layer, Some(path("x")), Some(CWD), true)),
        "x"
    ));
    assert!(is_relative(done(realpath(path("x/../y"))), "x/../y"));
}

#[test]
fn missing_paths_end_the_call() {
    let layer = FileLayer::default();
    let missing = || Detour::Bypass(Bypass::CStrConversion);
    let end = done(open(missing(), options(false)));
    assert!(matches!(end, Detour::Bypass(Bypass::CStrConversion)));
    let end = done(openat(&layer, 4, missing(), options(false)));
    assert!(matches!(end, Detour::Bypass(Bypass::CStrConversion)));
    let end = done(access(Detour::Error(HookError::NullPointer), 0));
    assert_eq!(error(end), HookError::NullPointer);
    let end = done(xstat(&layer, Some(missing()), Some(4), true));
    assert!(matches!(end, Detour::Bypass(Bypass::CStrConversion)));
    let end = done(realpath(missing()));
    assert!(matches!(end, Detour::Bypass(Bypass::CStrConversion)));
}

#[test]
fn opening_at_a_directory() {
    let mut layer = layer_with(70, 4);
    let (_, action) = waiting(openat(&layer, 4, path("/x"), options(false)));
    assert!(matches!(action, Action::AskFilter { text, write } if text == "/x" && !write));
    let (op, action) = waiting(openat(&layer, 4, path("sub/x"), options(false)));
    match action {
        Action::OpenRelativeFile(request) => {
            assert_eq!(request.relative_fd, 70);
            assert_eq!(request.path, PathBuf::from("sub/x"));
        }
        _ => panic!("no file is opened"),
    }
    let opened = Event::FileOpened(Ok(Ok(OpenFileResponse { fd: 71 })));
    let (op, _) = waiting(op.resume(&mut layer, opened));
    assert_eq!(
        success(done(make_local_file(op, &mut layer, "/tmp", 6))),
        6
    );
    assert_eq!(
        layer.file(6),
        Some(&RemoteFile::new(71, String::from("sub/x")))
    );
    assert!(is_local(
        done(openat(&layer, 5, path("x"), options(false))),
        5
    ));
}

#[test]
fn path_that_is_not_utf8_is_asked_about_without_text() {
    let mut layer = FileLayer::default();
    let bytes = vec![47, 0xff];
    let given = Detour::Success(PathBuf { bytes: bytes.clone() });
    let (op, action) = waiting(open(given, options(false)));
    assert!(matches!(action, Action::AskFilter { text, .. } if text.is_empty()));
    let (op, action) = waiting(op.resume(&mut layer, Event::FilterAnswered(true)));
    assert!(matches!(action, Action::OpenFile(request) if request.path.bytes == bytes));
    assert!(matches!(op, OpenOp::Remote { shown_path } if shown_path == "/\u{fffd}"));
}

#[test]
fn directory_stream_is_filed() {
    let mut layer = layer_with(70, 4);
    let (op, action) = waiting(fdopendir(&layer, 4));
    assert!(matches!(action, Action::OpenDir(request) if request.remote_fd == 70));
    assert!(op.expects(&Event::DirOpened(Err(broken()))));
    let opened = Event::DirOpened(Ok(Ok(OpenDirResponse { fd: 90 })));
    let (op, _) = waiting(op.resume(&mut layer, opened));
    let found = Event::TempDirFound(PathBuf::from("/tmp"));
    let (op, _) = waiting(op.resume(&mut layer, found));
    let (op, _) = waiting(op.resume(&mut layer, Event::LocalFileCreated(8)));
    assert_eq!(
        success(done(op.resume(&mut layer, Event::LocalFileUnlinked))),
        8
    );
    assert_eq!(
        layer.dir(8),
        Some(&OpenDir {
            remote_fd: 90,
            base_fd: 4
        })
    );
    assert!(layer.dir(9).is_none());
    assert_eq!(success(get_remote_fd(&layer, 4)), 70);
    assert!(is_local(done(fdopendir(&layer, 5)), 5));
}

#[test]
fn failed_directory_stream_is_an_error() {
    let mut layer = layer_with(70, 4);
    let (op, _) = waiting(fdopendir(&layer, 4));
    let end = done(op.resume(&mut layer, Event::DirOpened(Ok(Err(refusal())))));
    assert_eq!(error(end), HookError::Response(refusal()));
    let (op, _) = waiting(fdopendir(&layer, 4));
    let opened = Event::DirOpened(Ok(Ok(OpenDirResponse { fd: 90 })));
    let (op, _) = waiting(op.resume(&mut layer, opened));
    let found = Event::TempDirFound(PathBuf::from("/tmp"));
    let (op, _) = waiting(op.resume(&mut layer, found));
    let (op, action) = waiting(op.resume(&mut layer, Event::LocalFileCreated(-1)));
    assert!(matches!(action, Action::CloseFile(CloseFileRequest { fd: 90 })));
    let end = done(op.resume(&mut layer, Event::CloseSent(Ok(()))));
    assert_eq!(error(end), HookError::LocalFileCreation(90));
}

#[test]
fn access_is_checked_by_the_agent() {
    let (op, action) = waiting(access(path("/x"), 4));
    assert!(matches!(action, Action::AskFilter { text, write } if text == "/x" && !write));
    assert!(op.expects(&Event::FilterAnswered(true)));
    let (op, action) = waiting(op.resume(Event::FilterAnswered(true)));
    match action {
        Action::AccessFile(request) => {
            assert_eq!(request.pathname, PathBuf::from("/x"));
            assert_eq!(request.mode, 4);
        }
        _ => panic!("the agent is not asked"),
    }
    assert_eq!(success(done(op.resume(Event::AccessAnswered(Ok(Ok(())))))), 0);
    let (op, _) = waiting(access(path("/x"), 4));
    let (op, _) = waiting(op.resume(Event::FilterAnswered(true)));
    let end = done(op.resume(Event::AccessAnswered(Ok(Err(refusal())))));
    assert_eq!(error(end), HookError::Response(refusal()));
}

#[test]
fn description_by_path() {
    let layer = FileLayer::default();
    for fd in [None, Some(CWD)] {
        let (op, action) = waiting(xstat(&layer, Some(path("/x")), fd, true));
        assert!(matches!(action, Action::AskFilter { text, write } if text == "/x" && !write));
        assert!(op.expects(&Event::FilterAnswered(true)));
        let (op, action) = waiting(op.resume(Event::FilterAnswered(true)));
        match action {
            Action::Xstat(request) => {
                assert_eq!(request.fd, None);
                assert_eq!(request.path, Some(PathBuf::from("/x")));
                assert!(request.follow_symlink);
            }
            _ => panic!("the agent is not asked"),
        }
        let answer = XstatResponse { encoded: vec![5] };
        let end = done(op.resume(Event::XstatAnswered(Ok(Ok(answer)))));
        assert_eq!(success(end).encoded, vec![5]);
    }
}

#[test]
fn description_by_descriptor() {
    let layer = layer_with(70, 4);
    let (op, action) = waiting(xstat(&layer, None, Some(4), false));
    match action {
        Action::Xstat(request) => {
            assert_eq!(request.fd, Some(70));
            assert_eq!(request.path, None);
            assert!(!request.follow_symlink);
        }
        _ => panic!("the agent is not asked"),
    }
    let end = done(op.resume(Event::XstatAnswered(Err(broken()))));
    assert_eq!(error(end), broken());
    let (_, action) = waiting(xstat(&layer, Some(path("sub")), Some(4), true));
    match action {
        Action::Xstat(request) => {
            assert_eq!(request.fd, Some(70));
            assert_eq!(request.path, Some(PathBuf::from("sub")));
        }
        _ => panic!("the agent is not asked"),
    }
    assert!(is_local(done(xstat(&layer, None, Some(5), false)), 5));
    assert!(is_local(
        done(xstat(&layer, Some(path("/x")), Some(5), false)),
        5
    ));
}

#[test]
fn description_of_nothing_is_an_error() {
    let layer = FileLayer::default();
    let end = done(xstat(&layer, None, None, true));
    assert_eq!(error(end), HookError::NullPointer);
}

#[test]
fn path_is_resolved_to_a_file_that_is_there() {
    let layer = FileLayer::default();
    let (op, action) = waiting(realpath(path("/a/./b/../c")));
    assert!(matches!(action, Action::AskFilter { text, write } if text == "/a/c" && !write));
    let (op, action) = waiting(op.resume(&layer, Event::FilterAnswered(true)));
    assert!(matches!(action, Action::AskFilter { text, .. } if text == "/a/c"));
    let (op, action) = waiting(op.resume(&layer, Event::FilterAnswered(true)));
    match action {
        Action::Xstat(request) => {
            assert_eq!(request.fd, None);
            assert_eq!(request.path, Some(PathBuf::from("/a/c")));
            assert!(request.follow_symlink);
        }
        _ => panic!("the agent is not asked"),
    }
    assert!(op.expects(&Event::XstatAnswered(Err(broken()))));
    let answer = XstatResponse { encoded: vec![] };
    let end = done(op.resume(&layer, Event::XstatAnswered(Ok(Ok(answer)))));
    assert_eq!(success(end), PathBuf::from("/a/c"));
}

#[test]
fn path_to_a_missing_file_is_not_resolved() {
    let layer = FileLayer::default();
    let (op, _) = waiting(realpath(path("/a")));
    let (op, _) = waiting(op.resume(&layer, Event::FilterAnswered(true)));
    let (op, _) = waiting(op.resume(&layer, Event::FilterAnswered(true)));
    let end = done(op.resume(&layer, Event::XstatAnswered(Ok(Err(refusal())))));
    assert_eq!(error(end), HookError::Response(refusal()));
}

#[test]
fn reads_are_cut_to_a_mebibyte() {
    let layer = layer_with(70, 4);
    assert_eq!(MAX_READ_SIZE, 1_048_576);
    for (asked, sent) in [
        (0, 0),
        (10, 10),
        (1_048_576, 1_048_576),
        (1_048_577, 1_048_576),
        (u64::MAX, 1_048_576),
    ] {
        assert_eq!(
            success(read(&layer, 4, asked)),
            ReadFileRequest {
                remote_fd: 70,
                buffer_size: sent
            }
        );
    }
}

#[test]
fn reads_and_writes_at_a_place() {
    let layer = layer_with(70, 4);
    assert_eq!(
        success(pread(&layer, 4, u64::MAX, 12)),
        ReadLimitedFileRequest {
            remote_fd: 70,
            buffer_size: u64::MAX,
            start_from: 12
        }
    );
    let request = success(pwrite(&layer, 4, b"abc", 5));
    assert_eq!(request.remote_fd, 70);
    assert_eq!(request.write_bytes, b"abc".to_vec());
    assert_eq!(request.start_from, 5);
}

#[test]
fn seeking_knows_three_origins() {
    let layer = layer_with(70, 4);
    let target = |offset, whence| success(lseek(&layer, 4, offset, whence)).seek_from;
    assert_eq!(target(3, 0), SeekFromInternal::Start(3));
    assert_eq!(target(-1, 0), SeekFromInternal::Start(u64::MAX));
    assert_eq!(target(-3, 1), SeekFromInternal::Current(-3));
    assert_eq!(target(-3, 2), SeekFromInternal::End(-3));
    assert_eq!(
        success(lseek(&layer, 4, 3, 0)),
        SeekFileRequest {
            fd: 70,
            seek_from: SeekFromInternal::Start(3)
        }
    );
    for whence in [-1, 3, 100] {
        let end = lseek(&layer, 4, 0, whence);
        assert!(matches!(end, Detour::Bypass(Bypass::CStrConversion)));
    }
    assert!(is_local(lseek(&layer, 5, 0, 77), 5));
    let place = lseek_answered(Ok(Ok(SeekFileResponse { result_offset: 99 })));
    assert_eq!(success(place), 99);
    assert_eq!(
        error(lseek_answered(Ok(Err(refusal())))),
        HookError::Response(refusal())
    );
}

#[test]
fn writes_need_a_buffer() {
    let layer = layer_with(70, 4);
    let request = success(mirrord_layer::file::io::write(&layer, 4, Some(b"abc".to_vec())));
    assert_eq!(request.fd, 70);
    assert_eq!(request.write_bytes, b"abc".to_vec());
    let end = mirrord_layer::file::io::write(&layer, 4, None);
    assert!(matches!(end, Detour::Bypass(Bypass::EmptyBuffer)));
    assert!(is_local(mirrord_layer::file::io::write(&layer, 5, None), 5));
}

#[test]
fn written_amount_has_to_fit() {
    let answer = |written_amount| write_answered(Ok(Ok(WriteFileResponse { written_amount })));
    assert_eq!(success(answer(3)), 3);
    assert_eq!(success(answer(isize::MAX as u64)), isize::MAX);
    assert_eq!(error(answer(isize::MAX as u64 + 1)), HookError::TryFromInt);
    assert_eq!(error(write_answered(Err(broken()))), broken());
}

#[test]
fn flushing_succeeds_at_once() {
    let layer = layer_with(70, 4);
    assert_eq!(success(fsync(&layer, 4)), 0);
    assert!(is_local(fsync(&layer, 5), 5));
}

#[test]
fn listings_and_file_systems() {
    let layer = layer_with(70, 4);
    assert_eq!(success(xstatfs(&layer, 4)), XstatFsRequest { fd: 70 });
    assert_eq!(
        success(getdents64(&layer, 4, 512)),
        GetDEnts64Request {
            remote_fd: 70,
            buffer_size: 512
        }
    );
}

#[test]
fn stream_of_a_file_is_its_descriptor() {
    let layer = layer_with(70, 4);
    assert_eq!(success(fdopen(&layer, 4, None)), 4);
    assert_eq!(success(fdopen(&layer, 4, Some(b"r"))), 4);
    let end = fdopen(&layer, 4, Some(&[0xff]));
    assert!(matches!(end, Detour::Bypass(Bypass::CStrConversion)));
    let end = fdopen(&layer, 5, Some(&[0xff]));
    assert!(matches!(end, Detour::Bypass(Bypass::CStrConversion)));
    assert!(is_local(fdopen(&layer, 5, Some(b"r")), 5));
}

#[test]
fn local_descriptors_are_left_to_the_system() {
    let layer = layer_with(70, 4);
    assert!(is_local(read(&layer, 5, 1), 5));
    assert!(is_local(pread(&layer, 5, 1, 1), 5));
    assert!(is_local(pwrite(&layer, 5, b"", 1), 5));
    assert!(is_local(xstatfs(&layer, 5), 5));
    assert!(is_local(getdents64(&layer, 5, 1), 5));
}

#[test]
fn responses_are_handed_on() {
    assert_eq!(success(relay(Ok(Ok(5)))), 5);
    assert_eq!(
        error(relay::<u8>(Ok(Err(refusal())))),
        HookError::Response(refusal())
    );
    assert_eq!(error(relay::<u8>(Err(broken()))), broken());
}

#[test]
fn requests_of_a_remote_file() {
    assert_eq!(RemoteFile::remote_close(70), CloseFileRequest { fd: 70 });
    assert_eq!(close_remote_file_on_failure(71), CloseFileRequest { fd: 71 });
    let request = RemoteFile::remote_open(PathBuf::from("/x"), options(true));
    assert_eq!(request.path, PathBuf::from("/x"));
    assert!(request.open_options.is_write());
    assert_eq!(RemoteFile::remote_read(70, 8).buffer_size, 8);
}
