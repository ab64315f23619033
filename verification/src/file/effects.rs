//! What each file operation asks of the filter, of the agent and of the system,
//! and what it does with the answers.

use vstd::prelude::*;

use crate::detour::{Bypass, BypassView, Detour, DetourView, HookError};
use crate::file::action::{comes_of, Action, ActionView, Event, Step, StepView};
use crate::file::io::{on_remote_file, plainly, seek_start, write_start};
use crate::file::layer::{
    read_request, FileLayerView, OpenDir, RemoteFile, RemoteFileView, MAX_READ_SIZE,
};
use crate::file::local_file::{local_file_bytes, LocalFileOp, LocalFileOpView};
use crate::file::open::{FdOpenDirOpView, OpenOpView};
use crate::file::stat::{path_view, AccessOpView, RealpathOpView, XstatOpView};
use crate::path::{resolved, text_or_nothing, PathBuf};
use crate::path_laws::resolved_path_is_absolute;
use crate::platform::working_directory;
use crate::protocol::{
    relayed, AccessFileRequest, AccessFileRequestView, CloseFileRequest, FdOpenDirRequest,
    OpenDirResponse, OpenFileRequest, OpenFileRequestView, OpenFileResponse, OpenOptionsInternal,
    OpenRelativeFileRequest, OpenRelativeFileRequestView, ProxyResult, ReadFileRequest,
    ResponseError, SeekFileRequest, SeekFromInternal, WriteFileRequest, WriteFileRequestView,
    WriteLimitedFileRequest, XstatRequest, XstatRequestView, XstatResponse,
};
use crate::text::shown;

verus! {

/// A fresh layer holds no file and no directory stream.
pub proof fn fresh_layer_holds_nothing(fd: i32, dir: usize)
    ensures
        !FileLayerView::empty().files.contains_key(fd),
        !FileLayerView::empty().dirs.contains_key(dir),
        FileLayerView::empty().remote_fd(fd) == DetourView::<u64>::Bypass(
            BypassView::LocalFdNotFound(fd),
        ),
{
}

/// A descriptor stands for the file that is filed under it, and for nothing if
/// there is none. Filing a file or a directory stream, and taking a file away,
/// changes what is under that one descriptor alone.
pub proof fn filing_changes_one_descriptor(
    layer: FileLayerView,
    fd: i32,
    file: RemoteFileView,
    local_dir: usize,
    dir: OpenDir,
)
    ensures
        layer.files.contains_key(fd) ==> layer.remote_fd(fd) == DetourView::Success(
            layer.files[fd].fd,
        ),
        !layer.files.contains_key(fd) ==> layer.remote_fd(fd) == DetourView::<u64>::Bypass(
            BypassView::LocalFdNotFound(fd),
        ),
        layer.with_file(fd, file).files.contains_pair(fd, file),
        layer.with_file(fd, file).files.remove(fd) == layer.files.remove(fd),
        layer.with_file(fd, file).dirs == layer.dirs,
        layer.without_file(fd).files == layer.files.remove(fd),
        layer.without_file(fd).dirs == layer.dirs,
        layer.with_dir(local_dir, dir).dirs.contains_pair(local_dir, dir),
        layer.with_dir(local_dir, dir).dirs.remove(local_dir) == layer.dirs.remove(local_dir),
        layer.with_dir(local_dir, dir).files == layer.files,
{
    assert(layer.with_file(fd, file).files.remove(fd) =~= layer.files.remove(fd));
    assert(layer.with_dir(local_dir, dir).dirs.remove(local_dir) =~= layer.dirs.remove(local_dir));
}

/// A call on a descriptor that stands for a remote file makes its request of the
/// agent's descriptor of that file, whatever the request is.
pub proof fn remote_files_are_asked_for_by_their_own_descriptor<R>(
    layer: FileLayerView,
    fd: i32,
    request: spec_fn(u64) -> R,
)
    requires
        layer.files.contains_key(fd),
    ensures
        on_remote_file(layer, fd, request) == DetourView::Success(request(layer.files[fd].fd)),
{
}

/// A read is one of the file itself. It never asks the agent for more bytes than
/// the program asked for, and never for more than one mebibyte; up to there it
/// asks for exactly as many, and beyond for a mebibyte. A larger read never asks
/// for less than a smaller one.
pub proof fn read_asks_for_what_fits(
    layer: FileLayerView,
    fd: i32,
    read_amount: u64,
    larger_amount: u64,
)
    requires
        layer.files.contains_key(fd),
        read_amount <= larger_amount,
    ensures
        ({
            let start = on_remote_file(
                layer,
                fd,
                |remote_fd: u64| read_request(remote_fd, read_amount),
            );
            let request: ReadFileRequest = start->Success_0;
            &&& start is Success
            &&& request.remote_fd == layer.files[fd].fd
            &&& request.buffer_size <= read_amount
            &&& request.buffer_size <= 1048576
            &&& read_amount <= MAX_READ_SIZE ==> request.buffer_size == read_amount
            &&& read_amount <= 1048576 ==> request.buffer_size == read_amount
            &&& read_amount >= 1048576 ==> request.buffer_size == 1048576
            &&& request.buffer_size <= read_request(
                layer.files[fd].fd,
                larger_amount,
            ).buffer_size
        }),
{
}

/// A move in a remote file asks for the very offset that was given, of either
/// sign, from where the call says that it counts: 0 is the start, 1 the place that
/// was reached, 2 the end. Any other number leaves the call to the system. An
/// offset from the start is sent as the unsigned number with the same bits, so one
/// that is not negative is sent as it is.
pub proof fn seek_asks_for_the_given_place(
    layer: FileLayerView,
    fd: i32,
    offset: i64,
    whence: i32,
)
    requires
        layer.files.contains_key(fd),
    ensures
        ({
            let remote_fd = layer.files[fd].fd;
            let start = seek_start(layer, fd, offset, whence);
            &&& whence == 0 ==> start == DetourView::Success(
                SeekFileRequest {
                    fd: remote_fd,
                    seek_from: SeekFromInternal::Start(offset as u64),
                },
            )
            &&& whence == 0 && offset >= 0 ==> start->Success_0.seek_from->Start_0 == offset
            &&& whence == 0 && offset < 0 ==> start->Success_0.seek_from->Start_0 == offset
                + 0x1_0000_0000_0000_0000
            &&& whence == 1 ==> start == DetourView::Success(
                SeekFileRequest { fd: remote_fd, seek_from: SeekFromInternal::Current(offset) },
            )
            &&& whence == 2 ==> start == DetourView::Success(
                SeekFileRequest { fd: remote_fd, seek_from: SeekFromInternal::End(offset) },
            )
            &&& whence < 0 || whence > 2 ==> start == DetourView::<SeekFileRequest>::Bypass(
                BypassView::CStrConversion,
            )
        }),
{
    if offset < 0 {
        assert(offset as u64 == offset + 0x1_0000_0000_0000_0000) by (bit_vector)
            requires
                offset < 0,
        ;
    }
}

/// A write to a remote file hands on all of its bytes and nothing else, however
/// many there are. Without a buffer the call is left to the system.
pub proof fn write_hands_on_the_given_bytes(
    layer: FileLayerView,
    fd: i32,
    write_bytes: Option<Vec<u8>>,
)
    requires
        layer.files.contains_key(fd),
    ensures
        write_bytes matches Some(bytes) ==> write_start(layer, fd, write_bytes)
            == DetourView::Success(
            WriteFileRequestView { fd: layer.files[fd].fd, write_bytes: bytes@ },
        ),
        write_bytes is None ==> write_start(layer, fd, write_bytes) == DetourView::<
            WriteFileRequestView,
        >::Bypass(BypassView::EmptyBuffer),
{
}

/// A response of the agent is handed on as it is, a refusal as a refusal with the
/// same number, and a failed exchange with its own error. A call that rests on one
/// that did not succeed ends as that one did.
pub proof fn replies_are_handed_on<T, U>(
    reply: ProxyResult<T>,
    response: T,
    refusal: ResponseError,
    error: HookError,
    bypass: BypassView,
)
    ensures
        relayed(reply) == Ok::<T, HookError>(response) <==> reply == Ok::<
            Result<T, ResponseError>,
            HookError,
        >(Ok(response)),
        reply == Ok::<Result<T, ResponseError>, HookError>(Err(refusal)) ==> relayed(reply)
            == Err::<T, HookError>(HookError::Response(refusal)),
        reply == Err::<Result<T, ResponseError>, HookError>(error) ==> relayed(reply)
            == Err::<T, HookError>(error),
        DetourView::<T>::Bypass(bypass).cut_short::<U>() == DetourView::<U>::Bypass(bypass),
        DetourView::<T>::Error(error).cut_short::<U>() == DetourView::<U>::Error(error),
{
}

/// A check of access asks the filter about the path, and then the agent about the
/// same path with the mode that was given. It succeeds with 0 if and only if the
/// agent grants the access.
pub proof fn access_asks_for_what_was_given(path: Seq<u8>, mode: u8, reply: ProxyResult<()>)
    requires
        path.len() > 0,
        path[0] == 47,
    ensures
        ({
            let first = AccessOpView::start(DetourView::Success(path), mode);
            let second = (first->Wait_0).next(Event::FilterAnswered(true));
            let end = (second->Wait_0).next(Event::AccessAnswered(reply));
            &&& first is Wait
            &&& first->Wait_1 == ActionView::AskFilter {
                text: text_or_nothing(path),
                write: false,
            }
            &&& forall|handled: bool| (first->Wait_0).expects(Event::FilterAnswered(handled))
            &&& second is Wait
            &&& (first->Wait_0).next(Event::FilterAnswered(false)) == StepView::<
                AccessOpView,
                i32,
            >::Done(DetourView::Bypass(BypassView::IgnoredFile(path)))
            &&& second->Wait_1 == ActionView::AccessFile(
                AccessFileRequestView { pathname: path, mode },
            )
            &&& (second->Wait_0).expects(Event::AccessAnswered(reply))
            &&& end is Done
            &&& reply matches Ok(Ok(_)) ==> end->Done_0 == DetourView::Success(0i32)
            &&& reply matches Ok(Err(refusal)) ==> end->Done_0 == DetourView::<i32>::Error(
                HookError::Response(refusal),
            )
            &&& reply matches Err(error) ==> end->Done_0 == DetourView::<i32>::Error(error)
        }),
{
}

/// A description of the file at a path from the root asks the filter about the
/// path, and then the agent about the same path, without a descriptor, and
/// following symbolic links exactly if the call said so. The agent's description
/// is the result.
pub proof fn description_by_path_asks_for_what_was_given(
    layer: FileLayerView,
    path: Seq<u8>,
    fd: Option<i32>,
    follow_symlink: bool,
    reply: ProxyResult<XstatResponse>,
)
    requires
        path.len() > 0,
        path[0] == 47,
        fd matches Some(f) ==> f == -100,
    ensures
        ({
            let first = XstatOpView::start(
                layer,
                Some(DetourView::Success(path)),
                fd,
                follow_symlink,
            );
            let second = (first->Wait_0).next(Event::FilterAnswered(true));
            let end = (second->Wait_0).next(Event::XstatAnswered(reply));
            &&& first is Wait
            &&& first->Wait_1 == ActionView::AskFilter {
                text: text_or_nothing(path),
                write: false,
            }
            &&& forall|handled: bool| (first->Wait_0).expects(Event::FilterAnswered(handled))
            &&& second is Wait
            &&& (first->Wait_0).next(Event::FilterAnswered(false)) == StepView::<
                XstatOpView,
                XstatResponse,
            >::Done(DetourView::Bypass(BypassView::IgnoredFile(path)))
            &&& second->Wait_1 == ActionView::Xstat(
                XstatRequestView { fd: None, path: Some(path), follow_symlink },
            )
            &&& (second->Wait_0).expects(Event::XstatAnswered(reply))
            &&& end is Done
            &&& reply matches Ok(Ok(response)) ==> end->Done_0 == DetourView::Success(response)
            &&& reply matches Ok(Err(refusal)) ==> end->Done_0 == DetourView::<
                XstatResponse,
            >::Error(HookError::Response(refusal))
            &&& reply matches Err(error) ==> end->Done_0 == DetourView::<XstatResponse>::Error(
                error,
            )
        }),
{
}

/// A description of a remote file by its descriptor asks the agent at once, by the
/// agent's descriptor of the file, with the path that was given or none, and
/// following symbolic links exactly if the call said so. A path from the root does
/// not change that. The agent's description is the result.
pub proof fn description_by_descriptor_asks_for_what_was_given(
    layer: FileLayerView,
    path: Option<Seq<u8>>,
    fd: i32,
    follow_symlink: bool,
    reply: ProxyResult<XstatResponse>,
)
    requires
        layer.files.contains_key(fd),
        path is None || fd != -100,
    ensures
        ({
            let given = match path {
                Some(p) => Some(DetourView::Success(p)),
                None => None,
            };
            let first = XstatOpView::start(layer, given, Some(fd), follow_symlink);
            let end = (first->Wait_0).next(Event::XstatAnswered(reply));
            &&& first is Wait
            &&& first->Wait_1 == ActionView::Xstat(
                XstatRequestView { fd: Some(layer.files[fd].fd), path, follow_symlink },
            )
            &&& (first->Wait_0).expects(Event::XstatAnswered(reply))
            &&& end is Done
            &&& reply matches Ok(Ok(response)) ==> end->Done_0 == DetourView::Success(response)
            &&& reply matches Ok(Err(refusal)) ==> end->Done_0 == DetourView::<
                XstatResponse,
            >::Error(HookError::Response(refusal))
            &&& reply matches Err(error) ==> end->Done_0 == DetourView::<XstatResponse>::Error(
                error,
            )
        }),
{
}

/// A description without a path and without a descriptor is an error.
pub proof fn description_needs_a_file(layer: FileLayerView, follow_symlink: bool)
    ensures
        XstatOpView::start(layer, None, None, follow_symlink) == StepView::<
            XstatOpView,
            XstatResponse,
        >::Done(DetourView::Error(HookError::NullPointer)),
{
}

/// Resolving a path from the root asks the filter, twice, and the agent, once, all
/// about the resolved path, and the agent is to follow symbolic links. The resolved
/// path is the result exactly if the agent describes the file.
pub proof fn resolving_asks_about_the_resolved_path(
    layer: FileLayerView,
    path: Seq<u8>,
    reply: ProxyResult<XstatResponse>,
)
    requires
        path.len() > 0,
        path[0] == 47,
    ensures
        ({
            let question = ActionView::AskFilter {
                text: text_or_nothing(resolved(path)),
                write: false,
            };
            let handled = Event::FilterAnswered(true);
            let ignored = StepView::<RealpathOpView, Seq<u8>>::Done(
                DetourView::Bypass(BypassView::IgnoredFile(resolved(path))),
            );
            let first = RealpathOpView::start(DetourView::Success(path));
            let second = (first->Wait_0).next(layer, handled);
            let third = (second->Wait_0).next(layer, handled);
            let end = (third->Wait_0).next(layer, Event::XstatAnswered(reply));
            &&& first is Wait
            &&& first->Wait_1 == question
            &&& second is Wait
            &&& second->Wait_1 == question
            &&& (first->Wait_0).next(layer, Event::FilterAnswered(false)) == ignored
            &&& (second->Wait_0).next(layer, Event::FilterAnswered(false)) == ignored
            &&& third is Wait
            &&& third->Wait_1 == ActionView::Xstat(
                XstatRequestView {
                    fd: None,
                    path: Some(resolved(path)),
                    follow_symlink: true,
                },
            )
            &&& (first->Wait_0).expects(handled)
            &&& (second->Wait_0).expects(handled)
            &&& (third->Wait_0).expects(Event::XstatAnswered(reply))
            &&& end is Done
            &&& reply matches Ok(Ok(_)) ==> end->Done_0 == DetourView::Success(resolved(path))
            &&& reply matches Ok(Err(refusal)) ==> end->Done_0 == DetourView::<Seq<u8>>::Error(
                HookError::Response(refusal),
            )
            &&& reply matches Err(error) ==> end->Done_0 == DetourView::<Seq<u8>>::Error(error)
        }),
{
    resolved_path_is_absolute(path);
}

/// Opening a path from the root asks the filter about the path and whether it is
/// written to, and then the agent for the same path with the same options. Which
/// directory the call names makes no difference.
pub proof fn opening_asks_for_what_was_given(
    layer: FileLayerView,
    fd: i32,
    path: Seq<u8>,
    open_options: OpenOptionsInternal,
    random: Seq<char>,
)
    requires
        path.len() > 0,
        path[0] == 47,
    ensures
        ({
            let given = DetourView::Success(path);
            let first = OpenOpView::start(given, open_options);
            let (after, second) = (first->Wait_0).next(
                layer,
                Event::FilterAnswered(true),
                random,
            );
            &&& OpenOpView::start_at(layer, fd, given, open_options) == first
            &&& first is Wait
            &&& first->Wait_1 == ActionView::AskFilter {
                text: text_or_nothing(path),
                write: open_options.write,
            }
            &&& forall|handled: bool| (first->Wait_0).expects(Event::FilterAnswered(handled))
            &&& (first->Wait_0).next(layer, Event::FilterAnswered(false), random) == (
                layer,
                StepView::<OpenOpView, i32>::Done(
                    DetourView::Bypass(BypassView::IgnoredFile(path)),
                ),
            )
            &&& after == layer
            &&& second == StepView::<OpenOpView, i32>::Wait(
                OpenOpView::Remote { shown_path: shown(path) },
                ActionView::OpenFile(OpenFileRequestView { path, open_options }),
            )
        }),
{
}

/// Opening a path that starts at a remote directory asks the agent at once, by its
/// descriptor of the directory, for the path with the options that were given.
pub proof fn opening_at_a_directory_asks_for_what_was_given(
    layer: FileLayerView,
    fd: i32,
    path: Seq<u8>,
    open_options: OpenOptionsInternal,
)
    requires
        path.len() == 0 || path[0] != 47,
        fd != -100,
        layer.files.contains_key(fd),
    ensures
        OpenOpView::start_at(layer, fd, DetourView::Success(path), open_options) == StepView::<
            OpenOpView,
            i32,
        >::Wait(
            OpenOpView::Remote { shown_path: shown(path) },
            ActionView::OpenRelativeFile(
                OpenRelativeFileRequestView {
                    relative_fd: layer.files[fd].fd,
                    path,
                    open_options,
                },
            ),
        ),
{
}

/// Once the agent opened a file, the directory for temporary files is looked for; a
/// file named after the agent's descriptor is made in it, and the very same file is
/// taken out of it again. Then the local descriptor stands for the agent's, under
/// the path that was opened, and every other file and every directory stream stays.
pub proof fn opened_file_gets_a_local_file(
    layer: FileLayerView,
    shown_path: Seq<char>,
    remote_fd: u64,
    temp_dir: PathBuf,
    local_fd: i32,
    random: Seq<char>,
)
    requires
        local_fd != -1,
        !local_file_bytes(temp_dir@, remote_fd, random).contains(0u8),
    ensures
        ({
            let reply = Ok::<Result<OpenFileResponse, ResponseError>, HookError>(
                Ok(OpenFileResponse { fd: remote_fd }),
            );
            let path = local_file_bytes(temp_dir@, remote_fd, random);
            let opened = OpenOpView::Remote { shown_path };
            let (l1, s1) = opened.next(layer, Event::FileOpened(reply), random);
            let (l2, s2) = (s1->Wait_0).next(l1, Event::TempDirFound(temp_dir), random);
            let (l3, s3) = (s2->Wait_0).next(l2, Event::LocalFileCreated(local_fd), random);
            let (l4, s4) = (s3->Wait_0).next(l3, Event::LocalFileUnlinked, random);
            &&& opened.expects(Event::FileOpened(reply))
            &&& s1 is Wait && s1->Wait_1 == ActionView::FindTempDir
            &&& (s1->Wait_0).expects(Event::TempDirFound(temp_dir))
            &&& s2 is Wait && s2->Wait_1 == ActionView::CreateLocalFile { path }
            &&& (s2->Wait_0).expects(Event::LocalFileCreated(local_fd))
            &&& s3 is Wait && s3->Wait_1 == ActionView::UnlinkLocalFile { path }
            &&& (s3->Wait_0).expects(Event::LocalFileUnlinked)
            &&& l1 == layer && l2 == layer && l3 == layer
            &&& l4.files == layer.files.insert(
                local_fd,
                RemoteFileView { fd: remote_fd, path: shown_path },
            )
            &&& l4.dirs == layer.dirs
            &&& !layer.files.contains_key(local_fd) ==> s4 == StepView::<OpenOpView, i32>::Done(
                DetourView::Success(local_fd),
            )
            &&& layer.files.contains_key(local_fd) ==> {
                let (l5, s5) = (s4->Wait_0).next(l4, Event::CloseSent(Ok(())), random);
                &&& s4 is Wait
                &&& s4->Wait_1 == ActionView::CloseFile(
                    CloseFileRequest { fd: layer.files[local_fd].fd },
                )
                &&& (s4->Wait_0).expects(Event::CloseSent(Ok(())))
                &&& l5 == l4
                &&& s5 == StepView::<OpenOpView, i32>::Done(DetourView::Success(local_fd))
            }
        }),
{
}

/// Once the agent opened a file, the opening fails without a trace in the layer if
/// no local file can be made: at once if the path of the local file has a zero byte
/// in it, and otherwise after the agent was told to close the file. If it could not
/// be told, that is the error.
pub proof fn opened_file_without_local_file_is_given_up(
    layer: FileLayerView,
    shown_path: Seq<char>,
    remote_fd: u64,
    temp_dir: PathBuf,
    random: Seq<char>,
    sent: Result<(), HookError>,
)
    ensures
        ({
            let reply = Ok::<Result<OpenFileResponse, ResponseError>, HookError>(
                Ok(OpenFileResponse { fd: remote_fd }),
            );
            let path = local_file_bytes(temp_dir@, remote_fd, random);
            let opened = OpenOpView::Remote { shown_path };
            let none = Event::LocalFileCreated((-1) as i32);
            let (l1, s1) = opened.next(layer, Event::FileOpened(reply), random);
            let (l2, s2) = (s1->Wait_0).next(l1, Event::TempDirFound(temp_dir), random);
            let (l3, s3) = (s2->Wait_0).next(l2, none, random);
            let (l4, s4) = (s3->Wait_0).next(l3, Event::CloseSent(sent), random);
            &&& l1 == layer && l2 == layer
            &&& path.contains(0u8) ==> s2 == StepView::<OpenOpView, i32>::Done(
                DetourView::Error(HookError::Null),
            )
            &&& !path.contains(0u8) ==> {
                &&& l3 == layer && l4 == layer
                &&& s3 is Wait
                &&& s3->Wait_1 == ActionView::CloseFile(CloseFileRequest { fd: remote_fd })
                &&& (s3->Wait_0).expects(Event::CloseSent(sent))
                &&& s4 is Done
                &&& sent is Ok ==> s4->Done_0 == DetourView::<i32>::Error(
                    HookError::LocalFileCreation(remote_fd),
                )
                &&& sent matches Err(error) ==> s4->Done_0 == DetourView::<i32>::Error(error)
            }
        }),
{
}

/// Making a directory stream of a remote directory asks the agent for one, by its
/// descriptor of the directory; a local file named after the agent's descriptor of
/// the stream is made, and the very same file is taken out of its directory again.
/// Then the local descriptor stands for the stream, beside the descriptor of the
/// directory. Every file and every other stream stays.
pub proof fn directory_stream_gets_a_local_file(
    layer: FileLayerView,
    fd: i32,
    remote_dir_fd: u64,
    temp_dir: PathBuf,
    local_fd: i32,
    random: Seq<char>,
)
    requires
        layer.files.contains_key(fd),
        local_fd != -1,
        !local_file_bytes(temp_dir@, remote_dir_fd, random).contains(0u8),
    ensures
        ({
            let reply = Ok::<Result<OpenDirResponse, ResponseError>, HookError>(
                Ok(OpenDirResponse { fd: remote_dir_fd }),
            );
            let path = local_file_bytes(temp_dir@, remote_dir_fd, random);
            let s0 = FdOpenDirOpView::start(layer, fd);
            let (l1, s1) = (s0->Wait_0).next(layer, Event::DirOpened(reply), random);
            let (l2, s2) = (s1->Wait_0).next(l1, Event::TempDirFound(temp_dir), random);
            let (l3, s3) = (s2->Wait_0).next(l2, Event::LocalFileCreated(local_fd), random);
            let (l4, s4) = (s3->Wait_0).next(l3, Event::LocalFileUnlinked, random);
            &&& s0 is Wait
            &&& s0->Wait_1 == ActionView::OpenDir(
                FdOpenDirRequest { remote_fd: layer.files[fd].fd },
            )
            &&& (s0->Wait_0).expects(Event::DirOpened(reply))
            &&& s1 is Wait && s1->Wait_1 == ActionView::FindTempDir
            &&& (s1->Wait_0).expects(Event::TempDirFound(temp_dir))
            &&& s2 is Wait && s2->Wait_1 == ActionView::CreateLocalFile { path }
            &&& (s2->Wait_0).expects(Event::LocalFileCreated(local_fd))
            &&& s3 is Wait && s3->Wait_1 == ActionView::UnlinkLocalFile { path }
            &&& (s3->Wait_0).expects(Event::LocalFileUnlinked)
            &&& l1 == layer && l2 == layer && l3 == layer
            &&& l4.dirs == layer.dirs.insert(
                local_fd as usize,
                OpenDir { remote_fd: remote_dir_fd, base_fd: fd },
            )
            &&& l4.files == layer.files
            &&& s4 == StepView::<FdOpenDirOpView, usize>::Done(
                DetourView::Success(local_fd as usize),
            )
        }),
{
}

/// Once the agent made a directory stream, the call fails without a trace in the
/// layer if no local file can be made: at once if the path of the local file has a
/// zero byte in it, and otherwise after the agent was told to close the stream. If
/// it could not be told, that is the error.
pub proof fn directory_stream_without_local_file_is_given_up(
    layer: FileLayerView,
    fd: i32,
    remote_dir_fd: u64,
    temp_dir: PathBuf,
    random: Seq<char>,
    sent: Result<(), HookError>,
)
    ensures
        ({
            let reply = Ok::<Result<OpenDirResponse, ResponseError>, HookError>(
                Ok(OpenDirResponse { fd: remote_dir_fd }),
            );
            let path = local_file_bytes(temp_dir@, remote_dir_fd, random);
            let made = FdOpenDirOpView::Remote { fd };
            let none = Event::LocalFileCreated((-1) as i32);
            let (l1, s1) = made.next(layer, Event::DirOpened(reply), random);
            let (l2, s2) = (s1->Wait_0).next(l1, Event::TempDirFound(temp_dir), random);
            let (l3, s3) = (s2->Wait_0).next(l2, none, random);
            let (l4, s4) = (s3->Wait_0).next(l3, Event::CloseSent(sent), random);
            &&& l1 == layer && l2 == layer
            &&& path.contains(0u8) ==> s2 == StepView::<FdOpenDirOpView, usize>::Done(
                DetourView::Error(HookError::Null),
            )
            &&& !path.contains(0u8) ==> {
                &&& l3 == layer && l4 == layer
                &&& s3 is Wait
                &&& s3->Wait_1 == ActionView::CloseFile(CloseFileRequest { fd: remote_dir_fd })
                &&& (s3->Wait_0).expects(Event::CloseSent(sent))
                &&& s4 is Done
                &&& sent is Ok ==> s4->Done_0 == DetourView::<usize>::Error(
                    HookError::LocalFileCreation(remote_dir_fd),
                )
                &&& sent matches Err(error) ==> s4->Done_0 == DetourView::<usize>::Error(error)
            }
        }),
{
}

/// A local file on its own is made in the same steps, with the random part that was
/// drawn for it, and the descriptor that the system gave it is the result.
pub proof fn local_file_is_made_and_taken_out(
    remote_fd: u64,
    random: Seq<char>,
    temp_dir: PathBuf,
    local_fd: i32,
)
    requires
        local_fd != -1,
        !local_file_bytes(temp_dir@, remote_fd, random).contains(0u8),
    ensures
        ({
            let path = local_file_bytes(temp_dir@, remote_fd, random);
            let s1 = LocalFileOpView::start(remote_fd, random);
            let s2 = (s1->Wait_0).next(Event::TempDirFound(temp_dir));
            let s3 = (s2->Wait_0).next(Event::LocalFileCreated(local_fd));
            let s4 = (s3->Wait_0).next(Event::LocalFileUnlinked);
            &&& s1 is Wait && s1->Wait_1 == ActionView::FindTempDir
            &&& s2 is Wait && s2->Wait_1 == ActionView::CreateLocalFile { path }
            &&& s3 is Wait && s3->Wait_1 == ActionView::UnlinkLocalFile { path }
            &&& s4 == StepView::<LocalFileOpView, i32>::Done(DetourView::Success(local_fd))
        }),
{
}

/// A request says what its fields hold, and so do a remote file and a description.
pub proof fn requests_say_what_they_hold(
    open: OpenFileRequest,
    relative: OpenRelativeFileRequest,
    write: WriteFileRequest,
    limited: WriteLimitedFileRequest,
    access: AccessFileRequest,
    xstat: XstatRequest,
    file: RemoteFile,
    description: XstatResponse,
)
    ensures
        file@.fd == file.fd && file@.path == file.path@,
        description@ == description,
        open@.path == open.path.bytes@ && open@.open_options == open.open_options,
        relative@.relative_fd == relative.relative_fd,
        relative@.path == relative.path.bytes@,
        relative@.open_options == relative.open_options,
        write@.fd == write.fd && write@.write_bytes == write.write_bytes@,
        limited@.remote_fd == limited.remote_fd,
        limited@.write_bytes == limited.write_bytes@,
        limited@.start_from == limited.start_from,
        access@.pathname == access.pathname.bytes@ && access@.mode == access.mode,
        xstat@.fd == xstat.fd && xstat@.follow_symlink == xstat.follow_symlink,
        xstat@.path is Some <==> xstat.path is Some,
        xstat.path matches Some(path) ==> xstat@.path == Some(path.bytes@),
{
}

/// An action says what is to be done, and the end of a call says how it ended: two
/// that differ in kind, in a number or in the bytes of a path never say the same.
pub proof fn actions_and_ends_say_what_they_hold<T>(
    action: Action,
    start: Detour<T>,
    bypass: Bypass,
    path: Option<Detour<PathBuf>>,
    step: Step<LocalFileOp, i32>,
    end: Detour<i32>,
)
    ensures
        step matches Step::Wait(op, waits_for) ==> step@ == StepView::<LocalFileOpView, i32>::Wait(
            op@,
            waits_for@,
        ),
        step matches Step::Done(ended) ==> step@ == StepView::<LocalFileOpView, i32>::Done(ended@),
        end matches Detour::Success(value) ==> end@ == DetourView::Success(value),
        end matches Detour::Bypass(reason) ==> end@ == DetourView::<i32>::Bypass(reason@),
        end matches Detour::Error(error) ==> end@ == DetourView::<i32>::Error(error),
        action matches Action::AskFilter { text, write } ==> action@ == (ActionView::AskFilter {
            text: text@,
            write,
        }),
        action matches Action::OpenFile(request) ==> action@ == ActionView::OpenFile(request@),
        action matches Action::OpenRelativeFile(request) ==> action@
            == ActionView::OpenRelativeFile(request@),
        action matches Action::OpenDir(request) ==> action@ == ActionView::OpenDir(request),
        action matches Action::AccessFile(request) ==> action@ == ActionView::AccessFile(request@),
        action matches Action::Xstat(request) ==> action@ == ActionView::Xstat(request@),
        action matches Action::CloseFile(request) ==> action@ == ActionView::CloseFile(request),
        action is FindTempDir ==> action@ == ActionView::FindTempDir,
        action matches Action::CreateLocalFile { path } ==> action@
            == (ActionView::CreateLocalFile { path: path@ }),
        action matches Action::UnlinkLocalFile { path } ==> action@
            == (ActionView::UnlinkLocalFile { path: path@ }),
        start matches Detour::Success(value) ==> plainly(start) == DetourView::Success(value),
        start matches Detour::Bypass(reason) ==> plainly(start) == DetourView::<T>::Bypass(reason@),
        start matches Detour::Error(error) ==> plainly(start) == DetourView::<T>::Error(error),
        bypass matches Bypass::RelativePath(p) ==> bypass@ == BypassView::RelativePath(p.bytes@),
        bypass matches Bypass::IgnoredFile(p) ==> bypass@ == BypassView::IgnoredFile(p.bytes@),
        bypass matches Bypass::LocalFdNotFound(fd) ==> bypass@ == BypassView::LocalFdNotFound(fd),
        bypass is CStrConversion ==> bypass@ == BypassView::CStrConversion,
        bypass is EmptyBuffer ==> bypass@ == BypassView::EmptyBuffer,
        path_view(path) is Some <==> path is Some,
        path matches Some(p) ==> path_view(path) == Some(p@),
{
}

/// Each action has one kind of answer.
pub proof fn each_action_has_its_answer(event: Event, action: ActionView)
    ensures
        action is AskFilter ==> (comes_of(event, action) <==> event is FilterAnswered),
        action is OpenFile || action is OpenRelativeFile ==> (comes_of(event, action)
            <==> event is FileOpened),
        action is OpenDir ==> (comes_of(event, action) <==> event is DirOpened),
        action is AccessFile ==> (comes_of(event, action) <==> event is AccessAnswered),
        action is Xstat ==> (comes_of(event, action) <==> event is XstatAnswered),
        action is CloseFile ==> (comes_of(event, action) <==> event is CloseSent),
        action is FindTempDir ==> (comes_of(event, action) <==> event is TempDirFound),
        action is CreateLocalFile ==> (comes_of(event, action) <==> event is LocalFileCreated),
        action is UnlinkLocalFile ==> (comes_of(event, action) <==> event is LocalFileUnlinked),
{
}

/// Whether an operation that waits goes on with nothing but what comes of the action
/// that it waits for.
pub open spec fn goes_on_with_the_answer_only<S, T>(
    step: StepView<S, T>,
    expects: spec_fn(S, Event) -> bool,
) -> bool {
    step matches StepView::Wait(op, action) ==> forall|event: Event| #[trigger]
        comes_of(event, action) <== expects(op, event)
}

/// An operation that waits for an action goes on with nothing but what comes of it;
/// and one that closes a displaced file goes on only if the close was sent.
pub proof fn operations_go_on_with_the_answer_only(
    layer: FileLayerView,
    path: DetourView<Seq<u8>>,
    some_path: Option<DetourView<Seq<u8>>>,
    fd: i32,
    some_fd: Option<i32>,
    open_options: OpenOptionsInternal,
    mode: u8,
    follow_symlink: bool,
    remote_fd: u64,
    random: Seq<char>,
    event: Event,
    local_op: LocalFileOpView,
    open_op: OpenOpView,
    dir_op: FdOpenDirOpView,
    access_op: AccessOpView,
    xstat_op: XstatOpView,
    realpath_op: RealpathOpView,
    error: HookError,
)
    ensures
        ({
            let local = |op: LocalFileOpView, e: Event| op.expects(e);
            let open = |op: OpenOpView, e: Event| op.expects(e);
            let dir = |op: FdOpenDirOpView, e: Event| op.expects(e);
            let access = |op: AccessOpView, e: Event| op.expects(e);
            let xstat = |op: XstatOpView, e: Event| op.expects(e);
            let realpath = |op: RealpathOpView, e: Event| op.expects(e);
            let start = OpenOpView::start(path, open_options);
            let start_at = OpenOpView::start_at(layer, fd, path, open_options);
            let described = XstatOpView::start(layer, some_path, some_fd, follow_symlink);
            let opened = open_op.next(layer, event, random).1;
            let dir_opened = dir_op.next(layer, event, random).1;
            let resolved_on = realpath_op.next(layer, event);
            &&& goes_on_with_the_answer_only(LocalFileOpView::start(remote_fd, random), local)
            &&& local_op.expects(event) ==> goes_on_with_the_answer_only(
                local_op.next(event),
                local,
            )
            &&& goes_on_with_the_answer_only(start, open)
            &&& goes_on_with_the_answer_only(start_at, open)
            &&& open_op.expects(event) ==> goes_on_with_the_answer_only(opened, open)
            &&& goes_on_with_the_answer_only(FdOpenDirOpView::start(layer, fd), dir)
            &&& dir_op.expects(event) ==> goes_on_with_the_answer_only(dir_opened, dir)
            &&& goes_on_with_the_answer_only(AccessOpView::start(path, mode), access)
            &&& access_op.expects(event) ==> goes_on_with_the_answer_only(
                access_op.next(event),
                access,
            )
            &&& goes_on_with_the_answer_only(described, xstat)
            &&& xstat_op.expects(event) ==> goes_on_with_the_answer_only(
                xstat_op.next(event),
                xstat,
            )
            &&& goes_on_with_the_answer_only(RealpathOpView::start(path), realpath)
            &&& realpath_op.expects(event) ==> goes_on_with_the_answer_only(
                resolved_on,
                realpath,
            )
            &&& open_op is Displace ==> !open_op.expects(Event::CloseSent(Err(error)))
        }),
{
}

/// The working directory is the descriptor -100, and no other.
pub proof fn working_directory_is_one_descriptor(fd: i32)
    ensures
        fd == working_directory() <==> fd == -100,
{
}

} // verus!
