//! Opening of remote files and directories.

use vstd::prelude::*;
#[allow(unused_imports)]
use vstd::utf8::{decode_utf8, valid_utf8};

use crate::detour::{Bypass, Detour};
#[allow(unused_imports)]
use crate::detour::{BypassView, DetourView};
use crate::file::action::{Action, Event, Step};
#[allow(unused_imports)]
use crate::file::action::{ActionView, StepView};
#[allow(unused_imports)]
use crate::file::layer::{FileLayerView, RemoteFileView};
use crate::file::layer::{get_remote_fd, FileLayer, OpenDir, RemoteFile};
use crate::file::local_file::{create_local_fake_file, LocalFileOp};
#[allow(unused_imports)]
use crate::file::local_file::{is_random_part, local_file_name, LocalFileOpView};
use crate::path::PathBuf;
#[allow(unused_imports)]
use crate::path::{followed_by, starts_at_root, text_or_nothing};
use crate::platform::at_fdcwd;
#[allow(unused_imports)]
use crate::platform::working_directory;
use crate::protocol::{
    flatten, CloseFileRequest, FdOpenDirRequest, OpenOptionsInternal, OpenRelativeFileRequest,
};
#[allow(unused_imports)]
use crate::protocol::{relayed, OpenFileRequestView, OpenRelativeFileRequestView};
#[allow(unused_imports)]
use crate::text::shown;

verus! {

/// How far the opening of a file is.
#[derive(Debug)]
pub enum OpenOp {
    /// The filter is asked about the file.
    Filter { path: PathBuf, open_options: OpenOptionsInternal },
    /// The agent opens it.
    Remote { shown_path: String },
    /// The agent holds it open, and a local file is made to stand for it.
    Local { shown_path: String, remote_fd: u64, local_file: LocalFileOp },
    /// A remote file that the descriptor stood for before is being closed.
    Displace { local_fd: i32 },
}

/// What an [`OpenOp`] says.
pub enum OpenOpView {
    Filter { path: Seq<u8>, open_options: OpenOptionsInternal },
    Remote { shown_path: Seq<char> },
    Local { shown_path: Seq<char>, remote_fd: u64, local_file: LocalFileOpView },
    Displace { local_fd: i32 },
}

impl View for OpenOp {
    type V = OpenOpView;

    open spec fn view(&self) -> OpenOpView {
        match self {
            OpenOp::Filter { path, open_options } => OpenOpView::Filter {
                path: path@,
                open_options: *open_options,
            },
            OpenOp::Remote { shown_path } => OpenOpView::Remote { shown_path: shown_path@ },
            OpenOp::Local { shown_path, remote_fd, local_file } => OpenOpView::Local {
                shown_path: shown_path@,
                remote_fd: *remote_fd,
                local_file: local_file@,
            },
            OpenOp::Displace { local_fd } => OpenOpView::Displace { local_fd: *local_fd },
        }
    }
}

impl OpenOpView {
    /// The events that the operation can go on with. The close of a displaced
    /// file has to be sent.
    pub open spec fn expects(self, event: Event) -> bool {
        match self {
            OpenOpView::Filter { .. } => event is FilterAnswered,
            OpenOpView::Remote { .. } => event is FileOpened,
            OpenOpView::Local { local_file, .. } => local_file.expects(event),
            OpenOpView::Displace { .. } => event matches Event::CloseSent(sent) && sent is Ok,
        }
    }

    /// The first step of opening the file at a path: only one that starts at
    /// the root is the layer's.
    pub open spec fn start(
        path: DetourView<Seq<u8>>,
        open_options: OpenOptionsInternal,
    ) -> StepView<OpenOpView, i32> {
        match path {
            DetourView::Success(p) => if starts_at_root(p) {
                StepView::Wait(
                    OpenOpView::Filter { path: p, open_options },
                    ActionView::AskFilter {
                        text: text_or_nothing(p),
                        write: open_options.is_write(),
                    },
                )
            } else {
                StepView::Done(DetourView::Bypass(BypassView::RelativePath(p)))
            },
            other => StepView::Done(other.cut_short()),
        }
    }

    /// The first step of opening the file at a path that starts at an open
    /// directory. A path from the root, or from the working directory, is one
    /// for [`OpenOpView::start`].
    pub open spec fn start_at(
        layer: FileLayerView,
        fd: i32,
        path: DetourView<Seq<u8>>,
        open_options: OpenOptionsInternal,
    ) -> StepView<OpenOpView, i32> {
        match path {
            DetourView::Success(p) => if starts_at_root(p) || fd == working_directory() {
                Self::start(path, open_options)
            } else {
                match layer.remote_fd(fd) {
                    DetourView::Success(relative_fd) => StepView::Wait(
                        OpenOpView::Remote { shown_path: shown(p) },
                        ActionView::OpenRelativeFile(
                            OpenRelativeFileRequestView { relative_fd, path: p, open_options },
                        ),
                    ),
                    other => StepView::Done(other.cut_short()),
                }
            },
            other => StepView::Done(other.cut_short()),
        }
    }

    /// The last part: the local descriptor stands for the remote file from
    /// now on. If it stood for another one before, that one is closed first.
    pub open spec fn register(
        layer: FileLayerView,
        local_fd: i32,
        file: RemoteFileView,
    ) -> (FileLayerView, StepView<OpenOpView, i32>) {
        (
            layer.with_file(local_fd, file),
            if layer.files.contains_key(local_fd) {
                StepView::Wait(
                    OpenOpView::Displace { local_fd },
                    ActionView::CloseFile(CloseFileRequest { fd: layer.files[local_fd].fd }),
                )
            } else {
                StepView::Done(DetourView::Success(local_fd))
            },
        )
    }

    /// The layer and the step after an event, with the random part that is
    /// drawn if a local file has to be made.
    pub open spec fn next(self, layer: FileLayerView, event: Event, random: Seq<char>) -> (
        FileLayerView,
        StepView<OpenOpView, i32>,
    )
        recommends
            self.expects(event),
    {
        match (self, event) {
            (OpenOpView::Filter { path, open_options }, Event::FilterAnswered(handled)) => (
                layer,
                if handled {
                    StepView::Wait(
                        OpenOpView::Remote { shown_path: shown(path) },
                        ActionView::OpenFile(OpenFileRequestView { path, open_options }),
                    )
                } else {
                    StepView::Done(DetourView::Bypass(BypassView::IgnoredFile(path)))
                },
            ),
            (OpenOpView::Remote { shown_path }, Event::FileOpened(reply)) => (
                layer,
                match relayed(reply) {
                    Ok(response) => match LocalFileOpView::start(
                        response.fd,
                        random,
                    ) {
                        StepView::Wait(local_file, action) => StepView::Wait(
                            OpenOpView::Local { shown_path, remote_fd: response.fd, local_file },
                            action,
                        ),
                        StepView::Done(end) => StepView::Done(end),
                    },
                    Err(error) => StepView::Done(DetourView::Error(error)),
                },
            ),
            (OpenOpView::Local { shown_path, remote_fd, local_file }, event) => {
                match local_file.next(event) {
                    StepView::Wait(local_file, action) => (
                        layer,
                        StepView::Wait(
                            OpenOpView::Local { shown_path, remote_fd, local_file },
                            action,
                        ),
                    ),
                    StepView::Done(DetourView::Success(local_fd)) => Self::register(
                        layer,
                        local_fd,
                        RemoteFileView { fd: remote_fd, path: shown_path },
                    ),
                    StepView::Done(other) => (layer, StepView::Done(other)),
                }
            },
            (OpenOpView::Displace { local_fd }, Event::CloseSent(_)) => (
                layer,
                StepView::Done(DetourView::Success(local_fd)),
            ),
            _ => arbitrary(),
        }
    }
}

/// Opens the file at a path. Paths that do not start at the root, and files
/// that the filter keeps local, are left to the system. Any other file is
/// opened by the agent, and a local descriptor is made to stand for it.
pub fn open(path: Detour<PathBuf>, open_options: OpenOptionsInternal) -> (step: Step<OpenOp, i32>)
    ensures
        step@ == OpenOpView::start(path@, open_options),
{
    let path = match path {
        Detour::Success(path) => path,
        Detour::Bypass(bypass) => return Step::Done(Detour::Bypass(bypass)),
        Detour::Error(error) => return Step::Done(Detour::Error(error)),
    };
    if path.is_relative() {
        return Step::Done(Detour::Bypass(Bypass::RelativePath(path)));
    }
    let question = Action::AskFilter { text: path.to_text(), write: open_options.is_write() };
    Step::Wait(OpenOp::Filter { path, open_options }, question)
}

/// Opens the file at a path that starts at an open directory. It does the same
/// as [`open`] for a path from the root, and for the working directory.
pub fn openat(
    layer: &FileLayer,
    fd: i32,
    path: Detour<PathBuf>,
    open_options: OpenOptionsInternal,
) -> (step: Step<OpenOp, i32>)
    ensures
        step@ == OpenOpView::start_at(layer@, fd, path@, open_options),
        path@ matches DetourView::Success(p) ==> layer@.remote_fd(fd) matches DetourView::Success(
            relative_fd,
        ) ==> valid_utf8(p) && !starts_at_root(p) && fd != working_directory() ==> step@.waits(
            OpenOpView::Remote { shown_path: decode_utf8(p) },
            ActionView::OpenRelativeFile(
                OpenRelativeFileRequestView { relative_fd, path: p, open_options },
            ),
        ),
{
    let path = match path {
        Detour::Success(path) => path,
        Detour::Bypass(bypass) => return Step::Done(Detour::Bypass(bypass)),
        Detour::Error(error) => return Step::Done(Detour::Error(error)),
    };
    if path.is_absolute() || fd == at_fdcwd() {
        return open(Detour::Success(path), open_options);
    }
    match get_remote_fd(layer, fd) {
        Detour::Success(relative_fd) => {
            let shown_path = path.display();
            let request = OpenRelativeFileRequest { relative_fd, path, open_options };
            Step::Wait(OpenOp::Remote { shown_path }, Action::OpenRelativeFile(request))
        },
        Detour::Bypass(bypass) => Step::Done(Detour::Bypass(bypass)),
        Detour::Error(error) => Step::Done(Detour::Error(error)),
    }
}

impl OpenOp {
    /// Whether the operation can go on with an event.
    pub fn expects(&self, event: &Event) -> (expected: bool)
        ensures
            expected == self@.expects(*event),
    {
        match (self, event) {
            (OpenOp::Filter { .. }, Event::FilterAnswered(_)) => true,
            (OpenOp::Remote { .. }, Event::FileOpened(_)) => true,
            (OpenOp::Local { local_file, .. }, event) => local_file.expects(event),
            (OpenOp::Displace { .. }, Event::CloseSent(sent)) => sent.is_ok(),
            _ => false,
        }
    }

    /// Goes on with what came of the last action.
    pub fn resume(self, layer: &mut FileLayer, event: Event) -> (step: Step<OpenOp, i32>)
        requires
            self@.expects(event),
        ensures
            exists|random: Seq<char>| #[trigger]
                is_random_part(random) && (final(layer)@, step@) == self@.next(
                    old(layer)@,
                    event,
                    random,
                ),
            self@ matches OpenOpView::Filter { path, open_options } ==> event
                == Event::FilterAnswered(true) ==> valid_utf8(path) ==> step@.waits(
                OpenOpView::Remote { shown_path: decode_utf8(path) },
                ActionView::OpenFile(OpenFileRequestView { path, open_options }),
            ),
            self@ matches OpenOpView::Local { shown_path, remote_fd, local_file } ==> local_file
                matches LocalFileOpView::Locate { remote_fd: stands_for, random } ==> event
                matches Event::TempDirFound(temp_dir) ==> is_random_part(random) && valid_utf8(
                temp_dir@,
            ) && !temp_dir@.contains(0u8) ==> ({
                let path = followed_by(temp_dir@, local_file_name(stands_for, random));
                let local_file = LocalFileOpView::Open { remote_fd: stands_for, path };
                step@.waits(
                    OpenOpView::Local { shown_path, remote_fd, local_file },
                    ActionView::CreateLocalFile { path },
                )
            }),
    {
        proof {
            some_random_part();
        }
        match (self, event) {
            (OpenOp::Filter { path, open_options }, Event::FilterAnswered(handled)) => {
                if handled {
                    let shown_path = path.display();
                    let request = RemoteFile::remote_open(path, open_options);
                    Step::Wait(OpenOp::Remote { shown_path }, Action::OpenFile(request))
                } else {
                    Step::Done(Detour::Bypass(Bypass::IgnoredFile(path)))
                }
            },
            (OpenOp::Remote { shown_path }, Event::FileOpened(reply)) => match flatten(reply) {
                Ok(response) => {
                    let remote_fd = response.fd;
                    match create_local_fake_file(remote_fd) {
                        Step::Wait(local_file, action) => Step::Wait(
                            OpenOp::Local { shown_path, remote_fd, local_file },
                            action,
                        ),
                        Step::Done(end) => Step::Done(end),
                    }
                },
                Err(error) => Step::Done(Detour::Error(error)),
            },
            (OpenOp::Local { shown_path, remote_fd, local_file }, event) => {
                match local_file.resume(event) {
                    Step::Wait(local_file, action) => Step::Wait(
                        OpenOp::Local { shown_path, remote_fd, local_file },
                        action,
                    ),
                    Step::Done(Detour::Success(local_fd)) => {
                        let file = RemoteFile::new(remote_fd, shown_path);
                        match layer.insert_file(local_fd, file) {
                            Some(displaced) => Step::Wait(
                                OpenOp::Displace { local_fd },
                                Action::CloseFile(RemoteFile::remote_close(displaced.fd)),
                            ),
                            None => Step::Done(Detour::Success(local_fd)),
                        }
                    },
                    Step::Done(end) => Step::Done(end),
                }
            },
            (OpenOp::Displace { local_fd }, Event::CloseSent(_)) => Step::Done(
                Detour::Success(local_fd),
            ),
            _ => vstd::pervasive::unreached(),
        }
    }
}

/// How far the making of a directory stream is.
#[derive(Debug)]
pub enum FdOpenDirOp {
    /// The agent makes it.
    Remote { fd: i32 },
    /// The agent holds it open, and a local file is made to stand for it.
    Local { fd: i32, remote_dir_fd: u64, local_file: LocalFileOp },
}

/// What an [`FdOpenDirOp`] says.
pub enum FdOpenDirOpView {
    Remote { fd: i32 },
    Local { fd: i32, remote_dir_fd: u64, local_file: LocalFileOpView },
}

impl View for FdOpenDirOp {
    type V = FdOpenDirOpView;

    open spec fn view(&self) -> FdOpenDirOpView {
        match self {
            FdOpenDirOp::Remote { fd } => FdOpenDirOpView::Remote { fd: *fd },
            FdOpenDirOp::Local { fd, remote_dir_fd, local_file } => FdOpenDirOpView::Local {
                fd: *fd,
                remote_dir_fd: *remote_dir_fd,
                local_file: local_file@,
            },
        }
    }
}

impl FdOpenDirOpView {
    /// The events that the operation can go on with.
    pub open spec fn expects(self, event: Event) -> bool {
        match self {
            FdOpenDirOpView::Remote { .. } => event is DirOpened,
            FdOpenDirOpView::Local { local_file, .. } => local_file.expects(event),
        }
    }

    /// The first step.
    pub open spec fn start(layer: FileLayerView, fd: i32) -> StepView<FdOpenDirOpView, usize> {
        match layer.remote_fd(fd) {
            DetourView::Success(remote_fd) => StepView::Wait(
                FdOpenDirOpView::Remote { fd },
                ActionView::OpenDir(FdOpenDirRequest { remote_fd }),
            ),
            other => StepView::Done(other.cut_short()),
        }
    }

    /// The layer and the step after an event, with the random part that is
    /// drawn if a local file has to be made. The directory's own descriptor
    /// goes on standing for it.
    pub open spec fn next(self, layer: FileLayerView, event: Event, random: Seq<char>) -> (
        FileLayerView,
        StepView<FdOpenDirOpView, usize>,
    )
        recommends
            self.expects(event),
    {
        match (self, event) {
            (FdOpenDirOpView::Remote { fd }, Event::DirOpened(reply)) => (
                layer,
                match relayed(reply) {
                    Ok(response) => match LocalFileOpView::start(
                        response.fd,
                        random,
                    ) {
                        StepView::Wait(local_file, action) => StepView::Wait(
                            FdOpenDirOpView::Local { fd, remote_dir_fd: response.fd, local_file },
                            action,
                        ),
                        StepView::Done(end) => StepView::Done(end.cut_short()),
                    },
                    Err(error) => StepView::Done(DetourView::Error(error)),
                },
            ),
            (FdOpenDirOpView::Local { fd, remote_dir_fd, local_file }, event) => {
                match local_file.next(event) {
                    StepView::Wait(local_file, action) => (
                        layer,
                        StepView::Wait(
                            FdOpenDirOpView::Local { fd, remote_dir_fd, local_file },
                            action,
                        ),
                    ),
                    StepView::Done(DetourView::Success(local_dir_fd)) => (
                        layer.with_dir(
                            local_dir_fd as usize,
                            OpenDir { remote_fd: remote_dir_fd, base_fd: fd },
                        ),
                        StepView::Done(DetourView::Success(local_dir_fd as usize)),
                    ),
                    StepView::Done(other) => (layer, StepView::Done(other.cut_short())),
                }
            },
            _ => arbitrary(),
        }
    }
}

/// Makes a directory stream of an open directory. The result is the local
/// descriptor that stands for the stream, as an address.
pub fn fdopendir(layer: &FileLayer, fd: i32) -> (step: Step<FdOpenDirOp, usize>)
    ensures
        step@ == FdOpenDirOpView::start(layer@, fd),
{
    match get_remote_fd(layer, fd) {
        Detour::Success(remote_fd) => Step::Wait(
            FdOpenDirOp::Remote { fd },
            Action::OpenDir(FdOpenDirRequest { remote_fd }),
        ),
        Detour::Bypass(bypass) => Step::Done(Detour::Bypass(bypass)),
        Detour::Error(error) => Step::Done(Detour::Error(error)),
    }
}

impl FdOpenDirOp {
    /// Whether the operation can go on with an event.
    pub fn expects(&self, event: &Event) -> (expected: bool)
        ensures
            expected == self@.expects(*event),
    {
        match (self, event) {
            (FdOpenDirOp::Remote { .. }, Event::DirOpened(_)) => true,
            (FdOpenDirOp::Local { local_file, .. }, event) => local_file.expects(event),
            _ => false,
        }
    }

    /// Goes on with what came of the last action.
    pub fn resume(self, layer: &mut FileLayer, event: Event) -> (step: Step<FdOpenDirOp, usize>)
        requires
            self@.expects(event),
        ensures
            exists|random: Seq<char>| #[trigger]
                is_random_part(random) && (final(layer)@, step@) == self@.next(
                    old(layer)@,
                    event,
                    random,
                ),
            self@ matches FdOpenDirOpView::Local { fd, remote_dir_fd, local_file } ==> local_file
                matches LocalFileOpView::Locate { remote_fd: stands_for, random } ==> event
                matches Event::TempDirFound(temp_dir) ==> is_random_part(random) && valid_utf8(
                temp_dir@,
            ) && !temp_dir@.contains(0u8) ==> ({
                let path = followed_by(temp_dir@, local_file_name(stands_for, random));
                let local_file = LocalFileOpView::Open { remote_fd: stands_for, path };
                step@.waits(
                    FdOpenDirOpView::Local { fd, remote_dir_fd, local_file },
                    ActionView::CreateLocalFile { path },
                )
            }),
    {
        proof {
            some_random_part();
        }
        match (self, event) {
            (FdOpenDirOp::Remote { fd }, Event::DirOpened(reply)) => match flatten(reply) {
                Ok(response) => {
                    let remote_dir_fd = response.fd;
                    match create_local_fake_file(remote_dir_fd) {
                        Step::Wait(local_file, action) => Step::Wait(
                            FdOpenDirOp::Local { fd, remote_dir_fd, local_file },
                            action,
                        ),
                        Step::Done(_) => vstd::pervasive::unreached(),
                    }
                },
                Err(error) => Step::Done(Detour::Error(error)),
            },
            (FdOpenDirOp::Local { fd, remote_dir_fd, local_file }, event) => {
                match local_file.resume(event) {
                    Step::Wait(local_file, action) => Step::Wait(
                        FdOpenDirOp::Local { fd, remote_dir_fd, local_file },
                        action,
                    ),
                    Step::Done(Detour::Success(local_dir_fd)) => {
                        let local_dir: usize = local_dir_fd as usize;
                        layer.insert_dir(
                            local_dir,
                            OpenDir { remote_fd: remote_dir_fd, base_fd: fd },
                        );
                        Step::Done(Detour::Success(local_dir))
                    },
                    Step::Done(Detour::Bypass(bypass)) => Step::Done(Detour::Bypass(bypass)),
                    Step::Done(Detour::Error(error)) => Step::Done(Detour::Error(error)),
                }
            },
            _ => vstd::pervasive::unreached(),
        }
    }
}

proof fn some_random_part()
    ensures
        exists|random: Seq<char>| is_random_part(random),
{
    let random = Seq::new(16, |i: int| 'a');
    assert(is_random_part(random));
}

} // verus!
