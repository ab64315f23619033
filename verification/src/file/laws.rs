//! What holds of file operations whatever happens around them.

use vstd::prelude::*;

use crate::detour::{BypassView, DetourView, HookError};
use crate::file::action::{comes_of, ActionView, Event, StepView};
use crate::file::io::{on_remote_file, seek_start, write_start};
use crate::file::layer::{FileLayerView, OpenDir, RemoteFileView};
use crate::file::local_file::{local_file_bytes, LocalFileOpView};
use crate::file::open::{FdOpenDirOpView, OpenOpView};
use crate::file::stat::{filter_question, AccessOpView, RealpathOpView, XstatOpView};
use crate::path::{resolved, starts_at_root, PathBuf};
use crate::path_laws::resolved_path_is_absolute;
use crate::platform::working_directory;
use crate::protocol::{
    relayed, CloseFileRequest, OpenDirResponse, OpenFileRequestView, OpenFileResponse,
    OpenOptionsInternal, OpenRelativeFileRequestView, ProxyResult, SeekFileRequest,
    WriteFileRequestView, XstatRequestView, XstatResponse,
};
use crate::text::shown;

verus! {

/// A call on a descriptor that does not stand for a remote file is left to the
/// system, and nothing is sent to the agent for it.
pub proof fn local_descriptors_are_left_to_the_system<R>(
    layer: FileLayerView,
    fd: i32,
    request: spec_fn(u64) -> R,
    offset: i64,
    whence: i32,
    write_bytes: Option<Vec<u8>>,
    path: Seq<u8>,
    open_options: OpenOptionsInternal,
    follow_symlink: bool,
)
    requires
        !layer.files.contains_key(fd),
    ensures
        ({
            let not_found = BypassView::LocalFdNotFound(fd);
            &&& on_remote_file(layer, fd, request) == DetourView::<R>::Bypass(not_found)
            &&& seek_start(layer, fd, offset, whence) == DetourView::<SeekFileRequest>::Bypass(
                not_found,
            )
            &&& write_start(layer, fd, write_bytes) == DetourView::<WriteFileRequestView>::Bypass(
                not_found,
            )
            &&& FdOpenDirOpView::start(layer, fd).ended(DetourView::Bypass(not_found))
            &&& XstatOpView::start(layer, None, Some(fd), follow_symlink).ended(
                DetourView::Bypass(not_found),
            )
            &&& fd != working_directory() ==> XstatOpView::start(
                layer,
                Some(DetourView::Success(path)),
                Some(fd),
                follow_symlink,
            ).ended(DetourView::Bypass(not_found))
            &&& fd != working_directory() && !starts_at_root(path) ==> OpenOpView::start_at(
                layer,
                fd,
                DetourView::Success(path),
                open_options,
            ).ended(DetourView::Bypass(not_found))
        }),
{
}

/// A call with a path that does not start at the root is left to the system,
/// unless the path starts at an open directory: the filter is not asked, and
/// nothing is sent to the agent.
pub proof fn relative_paths_are_left_to_the_system(
    layer: FileLayerView,
    path: Seq<u8>,
    open_options: OpenOptionsInternal,
    mode: u8,
    follow_symlink: bool,
)
    requires
        !starts_at_root(path),
    ensures
        ({
            let given = DetourView::Success(path);
            let relative = BypassView::RelativePath(path);
            let cwd = working_directory() as i32;
            &&& OpenOpView::start(given, open_options).ended(
                DetourView::Bypass(relative),
            )
            &&& OpenOpView::start_at(layer, cwd, given, open_options).ended(
                DetourView::Bypass(relative),
            )
            &&& AccessOpView::start(given, mode).ended(DetourView::Bypass(relative))
            &&& XstatOpView::start(layer, Some(given), None, follow_symlink).ended(
                DetourView::Bypass(relative),
            )
            &&& XstatOpView::start(layer, Some(given), Some(cwd), follow_symlink).ended(
                DetourView::Bypass(relative),
            )
            &&& RealpathOpView::start(given).ended(DetourView::Bypass(relative))
        }),
{
}

/// A file that the filter keeps local is left to the system, under the path
/// that the filter was asked about, and nothing is sent to the agent.
pub proof fn ignored_files_are_left_to_the_system(
    layer: FileLayerView,
    path: Seq<u8>,
    open_options: OpenOptionsInternal,
    mode: u8,
    follow_symlink: bool,
    random: Seq<char>,
)
    ensures
        ({
            let refused = Event::FilterAnswered(false);
            let ignored = BypassView::IgnoredFile(path);
            &&& (OpenOpView::Filter { path, open_options }).next(layer, refused, random) == (
                layer,
                StepView::<OpenOpView, i32>::Done(DetourView::Bypass(ignored)),
            )
            &&& (AccessOpView::Filter { path, mode }).next(refused).ended(
                DetourView::Bypass(ignored),
            )
            &&& (XstatOpView::Filter { path, follow_symlink }).next(refused).ended(
                DetourView::Bypass(ignored),
            )
            &&& (RealpathOpView::Filter { realpath: path }).next(layer, refused).ended(
                DetourView::Bypass(ignored),
            )
        }),
{
}

/// A path that never was one ends every call in the same way, whatever else the
/// call was given.
pub proof fn missing_paths_end_the_call(
    layer: FileLayerView,
    path: DetourView<Seq<u8>>,
    fd: i32,
    open_options: OpenOptionsInternal,
    mode: u8,
    some_fd: Option<i32>,
    follow_symlink: bool,
)
    requires
        path !is Success,
    ensures
        OpenOpView::start(path, open_options).ended(path.cut_short()),
        OpenOpView::start_at(layer, fd, path, open_options).ended(path.cut_short()),
        AccessOpView::start(path, mode).ended(path.cut_short()),
        XstatOpView::start(layer, Some(path), some_fd, follow_symlink).ended(
            path.cut_short(),
        ),
        RealpathOpView::start(path).ended(path.cut_short()),
{
}

/// Opening a path from the root does not depend on the directory that the call
/// names, and neither does opening one from the working directory depend on
/// the layer: both are the same as opening the path alone.
pub proof fn opening_from_the_root_needs_no_directory(
    layer: FileLayerView,
    fd: i32,
    path: Seq<u8>,
    open_options: OpenOptionsInternal,
)
    requires
        starts_at_root(path) || fd == working_directory(),
    ensures
        OpenOpView::start_at(layer, fd, DetourView::Success(path), open_options)
            == OpenOpView::start(DetourView::Success(path), open_options),
{
}

/// The layer and the step after an opening met a row of events.
pub open spec fn opening_run(
    op: OpenOpView,
    layer: FileLayerView,
    events: Seq<Event>,
    random: Seq<char>,
) -> (FileLayerView, StepView<OpenOpView, i32>)
    decreases events.len(),
{
    let (after, step) = op.next(layer, events[0], random);
    if events.len() <= 1 {
        (after, step)
    } else {
        match step {
            StepView::Wait(next_op, action) => opening_run(
                next_op,
                after,
                events.drop_first(),
                random,
            ),
            StepView::Done(end) => (after, step),
        }
    }
}

/// What happens to an opening when the agent opens the file and a local file
/// can be made.
pub open spec fn events_after_the_request(
    remote_fd: u64,
    temp_dir: PathBuf,
    local_fd: i32,
) -> Seq<Event> {
    seq![
        Event::FileOpened(Ok(Ok(OpenFileResponse { fd: remote_fd }))),
        Event::TempDirFound(temp_dir),
        Event::LocalFileCreated(local_fd),
        Event::LocalFileUnlinked,
    ]
}

proof fn requested_file_is_found(
    layer: FileLayerView,
    shown_path: Seq<char>,
    random: Seq<char>,
    remote_fd: u64,
    temp_dir: PathBuf,
    local_fd: i32,
)
    requires
        !local_file_bytes(temp_dir@, remote_fd, random).contains(0u8),
        local_fd != -1,
        !layer.files.contains_key(local_fd),
    ensures
        ({
            let events = events_after_the_request(remote_fd, temp_dir, local_fd);
            let (after, step) = opening_run(
                OpenOpView::Remote { shown_path },
                layer,
                events,
                random,
            );
            &&& step.ended(DetourView::Success(local_fd))
            &&& after == layer.with_file(
                local_fd,
                RemoteFileView { fd: remote_fd, path: shown_path },
            )
        }),
{
    reveal_with_fuel(opening_run, 4);
    let e1 = Event::FileOpened(Ok(Ok(OpenFileResponse { fd: remote_fd })));
    let e2 = Event::TempDirFound(temp_dir);
    let e3 = Event::LocalFileCreated(local_fd);
    let e4 = Event::LocalFileUnlinked;
    assert(seq![e1, e2, e3, e4].drop_first() =~= seq![e2, e3, e4]);
    assert(seq![e2, e3, e4].drop_first() =~= seq![e3, e4]);
    assert(seq![e3, e4].drop_first() =~= seq![e4]);
}

/// When the filter lets the layer handle a file, the agent opens it and a local
/// file can be made, then the call returns the local descriptor, and from then
/// on that descriptor stands for the agent's. Nothing else changes.
pub proof fn opened_file_is_found(
    layer: FileLayerView,
    path: Seq<u8>,
    open_options: OpenOptionsInternal,
    random: Seq<char>,
    remote_fd: u64,
    temp_dir: PathBuf,
    local_fd: i32,
    other: i32,
)
    requires
        starts_at_root(path),
        !local_file_bytes(temp_dir@, remote_fd, random).contains(0u8),
        local_fd != -1,
        !layer.files.contains_key(local_fd),
        other != local_fd,
    ensures
        ({
            let first = OpenOpView::start(DetourView::Success(path), open_options);
            let (filtered, request) = (first->Wait_0).next(
                layer,
                Event::FilterAnswered(true),
                random,
            );
            let (after, step) = opening_run(
                request->Wait_0,
                filtered,
                events_after_the_request(remote_fd, temp_dir, local_fd),
                random,
            );
            &&& first is Wait
            &&& request matches StepView::Wait(op, action)
            &&& action == ActionView::OpenFile(OpenFileRequestView { path, open_options })
            &&& step.ended(DetourView::Success(local_fd))
            &&& after == layer.with_file(
                local_fd,
                RemoteFileView { fd: remote_fd, path: shown(path) },
            )
            &&& after.remote_fd(local_fd) == DetourView::Success(remote_fd)
            &&& after.remote_fd(other) == layer.remote_fd(other)
        }),
{
    requested_file_is_found(layer, shown(path), random, remote_fd, temp_dir, local_fd);
}

/// The same holds of a file at a path that starts at an open directory, which
/// the filter is not asked about.
pub proof fn file_opened_at_a_directory_is_found(
    layer: FileLayerView,
    fd: i32,
    path: Seq<u8>,
    open_options: OpenOptionsInternal,
    random: Seq<char>,
    remote_fd: u64,
    temp_dir: PathBuf,
    local_fd: i32,
    other: i32,
)
    requires
        !starts_at_root(path),
        fd != working_directory(),
        layer.files.contains_key(fd),
        !local_file_bytes(temp_dir@, remote_fd, random).contains(0u8),
        local_fd != -1,
        !layer.files.contains_key(local_fd),
        other != local_fd,
    ensures
        ({
            let request = OpenOpView::start_at(
                layer,
                fd,
                DetourView::Success(path),
                open_options,
            );
            let (after, step) = opening_run(
                request->Wait_0,
                layer,
                events_after_the_request(remote_fd, temp_dir, local_fd),
                random,
            );
            &&& request matches StepView::Wait(op, action)
            &&& action == ActionView::OpenRelativeFile(
                OpenRelativeFileRequestView {
                    relative_fd: layer.files[fd].fd,
                    path,
                    open_options,
                },
            )
            &&& step.ended(DetourView::Success(local_fd))
            &&& after == layer.with_file(
                local_fd,
                RemoteFileView { fd: remote_fd, path: shown(path) },
            )
            &&& after.remote_fd(local_fd) == DetourView::Success(remote_fd)
            &&& after.remote_fd(other) == layer.remote_fd(other)
        }),
{
    requested_file_is_found(layer, shown(path), random, remote_fd, temp_dir, local_fd);
}

/// When the agent opened a file and no local file can be made for it, the agent
/// is told to close it, the call fails, and the layer knows nothing of it.
pub proof fn file_without_local_file_is_closed(
    layer: FileLayerView,
    shown_path: Seq<char>,
    remote_fd: u64,
    path: Seq<u8>,
    random: Seq<char>,
)
    ensures
        ({
            let local_file = LocalFileOpView::Open { remote_fd, path };
            let op = OpenOpView::Local { shown_path, remote_fd, local_file };
            let (during, closing) = op.next(layer, Event::LocalFileCreated((-1) as i32), random);
            let sent = Event::CloseSent(Ok(()));
            &&& closing matches StepView::Wait(next_op, action)
            &&& action == ActionView::CloseFile(CloseFileRequest { fd: remote_fd })
            &&& next_op.next(during, sent, random) == (
                layer,
                StepView::<OpenOpView, i32>::Done(
                    DetourView::Error(HookError::LocalFileCreation(remote_fd)),
                ),
            )
        }),
{
}

/// The making of a local file never fails with the remote file left open,
/// unless the path of the local file has a zero byte in it: every other failure
/// comes after the agent was told to close the file.
pub proof fn failure_comes_after_the_close(op: LocalFileOpView, event: Event)
    requires
        op.expects(event),
        op.next(event) is Done,
        op.next(event)->Done_0 !is Success,
    ensures
        op.next(event)->Done_0 is Error,
        op is Close || (op matches LocalFileOpView::Locate { remote_fd, random } && event
            matches Event::TempDirFound(temp_dir) && local_file_bytes(
            temp_dir@,
            remote_fd,
            random,
        ).contains(0u8)),
{
}

/// The close of the remote file is asked for as soon as its local file could not
/// be made, and only then.
pub proof fn close_is_asked_for_when_it_is_needed(op: LocalFileOpView, event: Event, fd: u64)
    requires
        op.expects(event),
    ensures
        (op.next(event) matches StepView::Wait(next_op, action) && action
            == ActionView::CloseFile(CloseFileRequest { fd })) <==> (op
            matches LocalFileOpView::Open { remote_fd, .. } && event
            matches Event::LocalFileCreated(local_fd) && remote_fd == fd && local_fd == -1),
{
}

/// When a local descriptor comes to stand for another remote file, the agent is
/// told to close the one that it stood for before.
pub proof fn displaced_file_is_closed(
    layer: FileLayerView,
    local_fd: i32,
    shown_path: Seq<char>,
    remote_fd: u64,
    random: Seq<char>,
)
    requires
        layer.files.contains_key(local_fd),
    ensures
        ({
            let local_file = LocalFileOpView::Unlink { local_fd };
            let op = OpenOpView::Local { shown_path, remote_fd, local_file };
            let (after, step) = op.next(layer, Event::LocalFileUnlinked, random);
            &&& after.remote_fd(local_fd) == DetourView::Success(remote_fd)
            &&& step matches StepView::Wait(next_op, action)
            &&& action == ActionView::CloseFile(
                CloseFileRequest { fd: layer.files[local_fd].fd },
            )
            &&& next_op.next(after, Event::CloseSent(Ok(())), random) == (
                after,
                StepView::<OpenOpView, i32>::Done(DetourView::Success(local_fd)),
            )
        }),
{
}

/// A remote file that is taken from the layer is not found any more, and the
/// other files stay. Taking away the file that an opening just filed undoes what
/// the opening did to the layer.
pub proof fn removed_file_is_gone(
    layer: FileLayerView,
    local_fd: i32,
    other: i32,
    file: RemoteFileView,
)
    requires
        other != local_fd,
    ensures
        layer.without_file(local_fd).remote_fd(local_fd) == DetourView::<u64>::Bypass(
            BypassView::LocalFdNotFound(local_fd),
        ),
        layer.without_file(local_fd).remote_fd(other) == layer.remote_fd(other),
        layer.without_file(local_fd).dirs == layer.dirs,
        !layer.files.contains_key(local_fd) ==> layer.with_file(local_fd, file).without_file(
            local_fd,
        ) == layer,
{
    if !layer.files.contains_key(local_fd) {
        assert(layer.with_file(local_fd, file).without_file(local_fd) =~= layer);
    }
}

/// An opening changes the layer in one place only, where it has a local
/// descriptor for the file; every other step leaves the layer as it is. The
/// making of a directory stream leaves the files as they are in every step.
pub proof fn layer_changes_with_the_local_descriptor_only(
    layer: FileLayerView,
    op: OpenOpView,
    dir_op: FdOpenDirOpView,
    event: Event,
    random: Seq<char>,
)
    ensures
        op.expects(event) && !(op matches OpenOpView::Local { local_file, .. } && local_file
            is Unlink) ==> op.next(layer, event, random).0 == layer,
        op.expects(event) ==> op.next(layer, event, random).0.dirs == layer.dirs,
        dir_op.expects(event) && !(dir_op matches FdOpenDirOpView::Local { local_file, .. }
            && local_file is Unlink) ==> dir_op.next(layer, event, random).0 == layer,
        dir_op.expects(event) ==> dir_op.next(layer, event, random).0.files == layer.files,
{
}

/// A directory stream is filed under the local descriptor that was made for it,
/// with the directory that it was made of.
pub proof fn directory_stream_is_filed(
    layer: FileLayerView,
    fd: i32,
    remote_dir_fd: u64,
    local_dir_fd: i32,
    random: Seq<char>,
)
    ensures
        ({
            let local_file = LocalFileOpView::Unlink { local_fd: local_dir_fd };
            let op = FdOpenDirOpView::Local { fd, remote_dir_fd, local_file };
            let (after, step) = op.next(layer, Event::LocalFileUnlinked, random);
            &&& step == StepView::<FdOpenDirOpView, usize>::Done(
                DetourView::Success(local_dir_fd as usize),
            )
            &&& after == layer.with_dir(
                local_dir_fd as usize,
                OpenDir { remote_fd: remote_dir_fd, base_fd: fd },
            )
            &&& after.remote_fd(fd) == layer.remote_fd(fd)
        }),
{
}

/// When the agent refuses a request, or the exchange with it fails, the call
/// ends with that error, and the layer stays as it is.
pub proof fn refusal_ends_the_call(
    layer: FileLayerView,
    opened: ProxyResult<OpenFileResponse>,
    dir_opened: ProxyResult<OpenDirResponse>,
    answered: ProxyResult<()>,
    described: ProxyResult<XstatResponse>,
    error: HookError,
    shown_path: Seq<char>,
    realpath: Seq<u8>,
    fd: i32,
    random: Seq<char>,
)
    requires
        relayed(opened) == Err::<OpenFileResponse, HookError>(error),
        relayed(dir_opened) == Err::<OpenDirResponse, HookError>(error),
        relayed(answered) == Err::<(), HookError>(error),
        relayed(described) == Err::<XstatResponse, HookError>(error),
    ensures
        (OpenOpView::Remote { shown_path }).next(layer, Event::FileOpened(opened), random) == (
            layer,
            StepView::<OpenOpView, i32>::Done(DetourView::Error(error)),
        ),
        (FdOpenDirOpView::Remote { fd }).next(layer, Event::DirOpened(dir_opened), random) == (
            layer,
            StepView::<FdOpenDirOpView, usize>::Done(DetourView::Error(error)),
        ),
        AccessOpView::Remote.next(Event::AccessAnswered(answered)).ended(
            DetourView::Error(error),
        ),
        XstatOpView::Remote.next(Event::XstatAnswered(described)).ended(
            DetourView::Error(error),
        ),
        (RealpathOpView::Stat { realpath, stat: XstatOpView::Remote }).next(
            layer,
            Event::XstatAnswered(described),
        ).ended(DetourView::Error(error)),
{
}

/// A path is resolved only to a file that is there: the agent is asked about
/// the very path that is returned, and the call succeeds if and only if the
/// agent describes the file.
pub proof fn resolved_file_is_there(
    layer: FileLayerView,
    path: Seq<u8>,
    reply: ProxyResult<XstatResponse>,
)
    requires
        starts_at_root(path),
    ensures
        ({
            let realpath = resolved(path);
            let handled = Event::FilterAnswered(true);
            let first = RealpathOpView::Filter { realpath };
            let filtered = RealpathOpView::Stat {
                realpath,
                stat: XstatOpView::Filter { path: realpath, follow_symlink: true },
            };
            let asked = RealpathOpView::Stat { realpath, stat: XstatOpView::Remote };
            let request = XstatRequestView {
                fd: None,
                path: Some(realpath),
                follow_symlink: true,
            };
            let end = asked.next(layer, Event::XstatAnswered(reply));
            &&& RealpathOpView::start(DetourView::Success(path)).waits(
                first,
                filter_question(realpath),
            )
            &&& first.next(layer, handled).waits(filtered, filter_question(realpath))
            &&& filtered.next(layer, handled).waits(asked, ActionView::Xstat(request))
            &&& end is Done
            &&& end == StepView::<RealpathOpView, Seq<u8>>::Done(DetourView::Success(realpath))
                <==> relayed(reply) is Ok
        }),
{
    resolved_path_is_absolute(path);
}

/// Whether an operation that waits can go on with whatever comes of the action
/// that it waits for.
pub open spec fn goes_on<S, T>(step: StepView<S, T>, expects: spec_fn(S, Event) -> bool) -> bool {
    step matches StepView::Wait(op, action) ==> forall|event: Event| #[trigger]
        comes_of(event, action) ==> expects(op, event)
}

/// An operation never waits for an action and then has no way on from what
/// comes of it. The one exception is a close of a displaced file that cannot be
/// sent.
pub proof fn operations_go_on(
    layer: FileLayerView,
    path: DetourView<Seq<u8>>,
    some_path: Option<DetourView<Seq<u8>>>,
    fd: i32,
    some_fd: Option<i32>,
    open_options: OpenOptionsInternal,
    mode: u8,
    follow_symlink: bool,
    remote_fd: u64,
    random: Seq<char>,
    event: Event,
    local_op: LocalFileOpView,
    open_op: OpenOpView,
    dir_op: FdOpenDirOpView,
    access_op: AccessOpView,
    xstat_op: XstatOpView,
    realpath_op: RealpathOpView,
)
    ensures
        ({
            let local = |op: LocalFileOpView, e: Event| op.expects(e);
            let open = |op: OpenOpView, e: Event|
                op.expects(e) || (op is Displace && e is CloseSent && e->CloseSent_0 is Err);
            let dir = |op: FdOpenDirOpView, e: Event| op.expects(e);
            let access = |op: AccessOpView, e: Event| op.expects(e);
            let xstat = |op: XstatOpView, e: Event| op.expects(e);
            let realpath = |op: RealpathOpView, e: Event| op.expects(e);
            &&& goes_on(LocalFileOpView::start(remote_fd, random), local)
            &&& local_op.expects(event) ==> goes_on(local_op.next(event), local)
            &&& goes_on(OpenOpView::start(path, open_options), open)
            &&& goes_on(OpenOpView::start_at(layer, fd, path, open_options), open)
            &&& open_op.expects(event) ==> goes_on(open_op.next(layer, event, random).1, open)
            &&& goes_on(FdOpenDirOpView::start(layer, fd), dir)
            &&& dir_op.expects(event) ==> goes_on(dir_op.next(layer, event, random).1, dir)
            &&& goes_on(AccessOpView::start(path, mode), access)
            &&& access_op.expects(event) ==> goes_on(access_op.next(event), access)
            &&& goes_on(XstatOpView::start(layer, some_path, some_fd, follow_symlink), xstat)
            &&& xstat_op.expects(event) ==> goes_on(xstat_op.next(event), xstat)
            &&& goes_on(RealpathOpView::start(path), realpath)
            &&& realpath_op.expects(event) ==> goes_on(realpath_op.next(layer, event), realpath)
        }),
{
}

/// How many events the making of a local file takes at most.
pub open spec fn local_file_steps(op: LocalFileOpView) -> nat {
    match op {
        LocalFileOpView::Locate { .. } => 3,
        LocalFileOpView::Open { .. } => 2,
        LocalFileOpView::Unlink { .. } => 1,
        LocalFileOpView::Close { .. } => 1,
    }
}

/// How many events an opening takes at most.
pub open spec fn open_steps(op: OpenOpView) -> nat {
    match op {
        OpenOpView::Filter { .. } => 6,
        OpenOpView::Remote { .. } => 5,
        OpenOpView::Local { local_file, .. } => 1 + local_file_steps(local_file),
        OpenOpView::Displace { .. } => 1,
    }
}

/// How many events the making of a directory stream takes at most.
pub open spec fn dir_steps(op: FdOpenDirOpView) -> nat {
    match op {
        FdOpenDirOpView::Remote { .. } => 4,
        FdOpenDirOpView::Local { local_file, .. } => local_file_steps(local_file),
    }
}

/// How many events the description of a file takes at most.
pub open spec fn xstat_steps(op: XstatOpView) -> nat {
    match op {
        XstatOpView::Filter { .. } => 2,
        XstatOpView::Remote => 1,
    }
}

/// How many events the resolving of a path takes at most.
pub open spec fn realpath_steps(op: RealpathOpView) -> nat {
    match op {
        RealpathOpView::Filter { .. } => 3,
        RealpathOpView::Stat { stat, .. } => xstat_steps(stat),
    }
}

/// Every operation comes to an end: each event brings it at least one step
/// nearer.
pub proof fn operations_end(
    layer: FileLayerView,
    event: Event,
    random: Seq<char>,
    local_op: LocalFileOpView,
    open_op: OpenOpView,
    dir_op: FdOpenDirOpView,
    access_op: AccessOpView,
    xstat_op: XstatOpView,
    realpath_op: RealpathOpView,
)
    ensures
        local_op.expects(event) ==> (local_op.next(event) matches StepView::Wait(op, action)
            ==> local_file_steps(op) < local_file_steps(local_op)),
        open_op.expects(event) ==> (open_op.next(layer, event, random).1 matches StepView::Wait(
            op,
            action,
        ) ==> open_steps(op) < open_steps(open_op)),
        dir_op.expects(event) ==> (dir_op.next(layer, event, random).1 matches StepView::Wait(
            op,
            action,
        ) ==> dir_steps(op) < dir_steps(dir_op)),
        access_op.expects(event) ==> (access_op.next(event) matches StepView::Wait(op, action)
            ==> access_op is Filter && op is Remote),
        xstat_op.expects(event) ==> (xstat_op.next(event) matches StepView::Wait(op, action)
            ==> xstat_steps(op) < xstat_steps(xstat_op)),
        realpath_op.expects(event) ==> (realpath_op.next(layer, event) matches StepView::Wait(
            op,
            action,
        ) ==> realpath_steps(op) < realpath_steps(realpath_op)),
{
}

} // verus!
