//! Questions about files by their paths.

use vstd::prelude::*;

use crate::detour::{Bypass, Detour, HookError};
#[allow(unused_imports)]
use crate::detour::{BypassView, DetourView};
use crate::file::action::{Action, Event, Step};
#[allow(unused_imports)]
use crate::file::action::{ActionView, StepView};
#[allow(unused_imports)]
use crate::file::layer::FileLayerView;
use crate::file::layer::{get_remote_fd, FileLayer};
use crate::path::{absolute_path, PathBuf};
#[allow(unused_imports)]
use crate::path::{resolved, starts_at_root, text_or_nothing};
use crate::platform::at_fdcwd;
#[allow(unused_imports)]
use crate::platform::working_directory;
use crate::protocol::{flatten, AccessFileRequest, XstatRequest, XstatResponse};
#[allow(unused_imports)]
use crate::protocol::{relayed, AccessFileRequestView, XstatRequestView};

verus! {

/// The question whether the layer handles a file that is not written to.
pub open spec fn filter_question(path: Seq<u8>) -> ActionView {
    ActionView::AskFilter { text: text_or_nothing(path), write: false }
}

/// How far a check of access is.
#[derive(Debug)]
pub enum AccessOp {
    /// The filter is asked about the file.
    Filter { path: PathBuf, mode: u8 },
    /// The agent checks.
    Remote,
}

/// What an [`AccessOp`] says.
pub enum AccessOpView {
    Filter { path: Seq<u8>, mode: u8 },
    Remote,
}

impl View for AccessOp {
    type V = AccessOpView;

    open spec fn view(&self) -> AccessOpView {
        match self {
            AccessOp::Filter { path, mode } => AccessOpView::Filter { path: path@, mode: *mode },
            AccessOp::Remote => AccessOpView::Remote,
        }
    }
}

impl AccessOpView {
    /// The events that the operation can go on with.
    pub open spec fn expects(self, event: Event) -> bool {
        match self {
            AccessOpView::Filter { .. } => event is FilterAnswered,
            AccessOpView::Remote => event is AccessAnswered,
        }
    }

    /// The first step: only a path that starts at the root is the layer's.
    pub open spec fn start(path: DetourView<Seq<u8>>, mode: u8) -> StepView<AccessOpView, i32> {
        match path {
            DetourView::Success(p) => if starts_at_root(p) {
                StepView::Wait(AccessOpView::Filter { path: p, mode }, filter_question(p))
            } else {
                StepView::Done(DetourView::Bypass(BypassView::RelativePath(p)))
            },
            other => StepView::Done(other.cut_short()),
        }
    }

    /// The step after an event.
    pub open spec fn next(self, event: Event) -> StepView<AccessOpView, i32>
        recommends
            self.expects(event),
    {
        match (self, event) {
            (AccessOpView::Filter { path, mode }, Event::FilterAnswered(handled)) => if handled {
                StepView::Wait(
                    AccessOpView::Remote,
                    ActionView::AccessFile(AccessFileRequestView { pathname: path, mode }),
                )
            } else {
                StepView::Done(DetourView::Bypass(BypassView::IgnoredFile(path)))
            },
            (AccessOpView::Remote, Event::AccessAnswered(reply)) => match relayed(reply) {
                Ok(_) => StepView::Done(DetourView::Success(0)),
                Err(error) => StepView::Done(DetourView::Error(error)),
            },
            _ => arbitrary(),
        }
    }
}

/// Checks whether the file at a path can be accessed. Paths that do not start
/// at the root, and files that the filter keeps local, are left to the system.
pub fn access(path: Detour<PathBuf>, mode: u8) -> (step: Step<AccessOp, i32>)
    ensures
        step@ == AccessOpView::start(path@, mode),
{
    let path = match path {
        Detour::Success(path) => path,
        Detour::Bypass(bypass) => return Step::Done(Detour::Bypass(bypass)),
        Detour::Error(error) => return Step::Done(Detour::Error(error)),
    };
    if path.is_relative() {
        return Step::Done(Detour::Bypass(Bypass::RelativePath(path)));
    }
    let question = Action::AskFilter { text: path.to_text(), write: false };
    Step::Wait(AccessOp::Filter { path, mode }, question)
}

impl AccessOp {
    /// Whether the operation can go on with an event.
    pub fn expects(&self, event: &Event) -> (expected: bool)
        ensures
            expected == self@.expects(*event),
    {
        match (self, event) {
            (AccessOp::Filter { .. }, Event::FilterAnswered(_)) => true,
            (AccessOp::Remote, Event::AccessAnswered(_)) => true,
            _ => false,
        }
    }

    /// Goes on with what came of the last action.
    pub fn resume(self, event: Event) -> (step: Step<AccessOp, i32>)
        requires
            self@.expects(event),
        ensures
            step@ == self@.next(event),
            self@ matches AccessOpView::Filter { path, mode } ==> event == Event::FilterAnswered(
                true,
            ) ==> step@.waits(
                AccessOpView::Remote,
                ActionView::AccessFile(AccessFileRequestView { pathname: path, mode }),
            ),
    {
        match (self, event) {
            (AccessOp::Filter { path, mode }, Event::FilterAnswered(handled)) => {
                if handled {
                    Step::Wait(
                        AccessOp::Remote,
                        Action::AccessFile(AccessFileRequest { pathname: path, mode }),
                    )
                } else {
                    Step::Done(Detour::Bypass(Bypass::IgnoredFile(path)))
                }
            },
            (AccessOp::Remote, Event::AccessAnswered(reply)) => match flatten(reply) {
                Ok(_) => Step::Done(Detour::Success(0)),
                Err(error) => Step::Done(Detour::Error(error)),
            },
            _ => vstd::pervasive::unreached(),
        }
    }
}

/// How far the description of a file is.
#[derive(Debug)]
pub enum XstatOp {
    /// The filter is asked about the file.
    Filter { path: PathBuf, follow_symlink: bool },
    /// The agent describes it.
    Remote,
}

/// What an [`XstatOp`] says.
pub enum XstatOpView {
    Filter { path: Seq<u8>, follow_symlink: bool },
    Remote,
}

impl View for XstatOp {
    type V = XstatOpView;

    open spec fn view(&self) -> XstatOpView {
        match self {
            XstatOp::Filter { path, follow_symlink } => XstatOpView::Filter {
                path: path@,
                follow_symlink: *follow_symlink,
            },
            XstatOp::Remote => XstatOpView::Remote,
        }
    }
}

/// What an optional path says.
pub open spec fn path_view(path: Option<Detour<PathBuf>>) -> Option<DetourView<Seq<u8>>> {
    match path {
        Some(p) => Some(p@),
        None => None,
    }
}

impl XstatOpView {
    /// The events that the operation can go on with.
    pub open spec fn expects(self, event: Event) -> bool {
        match self {
            XstatOpView::Filter { .. } => event is FilterAnswered,
            XstatOpView::Remote => event is XstatAnswered,
        }
    }

    /// The first step for a path alone: only one that starts at the root is
    /// the layer's.
    pub open spec fn start_at_path(path: Seq<u8>, follow_symlink: bool) -> StepView<
        XstatOpView,
        XstatResponse,
    > {
        if starts_at_root(path) {
            StepView::Wait(XstatOpView::Filter { path, follow_symlink }, filter_question(path))
        } else {
            StepView::Done(DetourView::Bypass(BypassView::RelativePath(path)))
        }
    }

    /// The first step for an open file, or for a path that starts at one: the
    /// file has to be remote, and the filter is not asked.
    pub open spec fn start_at_file(
        layer: FileLayerView,
        fd: i32,
        path: Option<Seq<u8>>,
        follow_symlink: bool,
    ) -> StepView<XstatOpView, XstatResponse> {
        match layer.remote_fd(fd) {
            DetourView::Success(remote_fd) => StepView::Wait(
                XstatOpView::Remote,
                ActionView::Xstat(
                    XstatRequestView { fd: Some(remote_fd), path, follow_symlink },
                ),
            ),
            other => StepView::Done(other.cut_short()),
        }
    }

    /// The first step. Without a path and without a descriptor there is no
    /// file to describe.
    pub open spec fn start(
        layer: FileLayerView,
        path: Option<DetourView<Seq<u8>>>,
        fd: Option<i32>,
        follow_symlink: bool,
    ) -> StepView<XstatOpView, XstatResponse> {
        match (path, fd) {
            (Some(DetourView::Success(p)), Some(f)) => if f == working_directory() {
                Self::start_at_path(p, follow_symlink)
            } else {
                Self::start_at_file(layer, f, Some(p), follow_symlink)
            },
            (Some(DetourView::Success(p)), None) => Self::start_at_path(p, follow_symlink),
            (Some(other), _) => StepView::Done(other.cut_short()),
            (None, Some(f)) => Self::start_at_file(layer, f, None, follow_symlink),
            (None, None) => StepView::Done(DetourView::Error(HookError::NullPointer)),
        }
    }

    /// The step after an event.
    pub open spec fn next(self, event: Event) -> StepView<XstatOpView, XstatResponse>
        recommends
            self.expects(event),
    {
        match (self, event) {
            (XstatOpView::Filter { path, follow_symlink }, Event::FilterAnswered(handled)) => {
                if handled {
                    StepView::Wait(
                        XstatOpView::Remote,
                        ActionView::Xstat(
                            XstatRequestView { fd: None, path: Some(path), follow_symlink },
                        ),
                    )
                } else {
                    StepView::Done(DetourView::Bypass(BypassView::IgnoredFile(path)))
                }
            },
            (XstatOpView::Remote, Event::XstatAnswered(reply)) => match relayed(reply) {
                Ok(response) => StepView::Done(DetourView::Success(response)),
                Err(error) => StepView::Done(DetourView::Error(error)),
            },
            _ => arbitrary(),
        }
    }
}

/// Starts the description of the file at a path.
fn xstat_at_path(path: PathBuf, follow_symlink: bool) -> (step: Step<XstatOp, XstatResponse>)
    ensures
        step@ == XstatOpView::start_at_path(path@, follow_symlink),
{
    if path.is_relative() {
        return Step::Done(Detour::Bypass(Bypass::RelativePath(path)));
    }
    let question = Action::AskFilter { text: path.to_text(), write: false };
    Step::Wait(XstatOp::Filter { path, follow_symlink }, question)
}

/// Starts the description of an open file, or of one at a path that starts
/// there.
fn xstat_at_file(
    layer: &FileLayer,
    fd: i32,
    path: Option<PathBuf>,
    follow_symlink: bool,
) -> (step: Step<XstatOp, XstatResponse>)
    ensures
        step@ == XstatOpView::start_at_file(
            layer@,
            fd,
            match path {
                Some(p) => Some(p@),
                None => None,
            },
            follow_symlink,
        ),
{
    match get_remote_fd(layer, fd) {
        Detour::Success(remote_fd) => Step::Wait(
            XstatOp::Remote,
            Action::Xstat(XstatRequest { fd: Some(remote_fd), path, follow_symlink }),
        ),
        Detour::Bypass(bypass) => Step::Done(Detour::Bypass(bypass)),
        Detour::Error(error) => Step::Done(Detour::Error(error)),
    }
}

/// Describes a file, for each of the system's calls that do: by its path, by
/// its descriptor, or by a path that starts at a descriptor. A path can be
/// missing as an argument of the call, or be there and have no meaning.
pub fn xstat(
    layer: &FileLayer,
    rawish_path: Option<Detour<PathBuf>>,
    fd: Option<i32>,
    follow_symlink: bool,
) -> (step: Step<XstatOp, XstatResponse>)
    ensures
        step@ == XstatOpView::start(layer@, path_view(rawish_path), fd, follow_symlink),
        step matches Step::Wait(op, Action::Xstat(request)) ==> request.follow_symlink
            == follow_symlink,
        step matches Step::Wait(XstatOp::Filter { path, follow_symlink: follows }, action)
            ==> follows == follow_symlink,
{
    match (rawish_path, fd) {
        (Some(Detour::Bypass(bypass)), _) => Step::Done(Detour::Bypass(bypass)),
        (Some(Detour::Error(error)), _) => Step::Done(Detour::Error(error)),
        (Some(Detour::Success(path)), Some(fd)) => {
            if fd == at_fdcwd() {
                xstat_at_path(path, follow_symlink)
            } else {
                xstat_at_file(layer, fd, Some(path), follow_symlink)
            }
        },
        (Some(Detour::Success(path)), None) => xstat_at_path(path, follow_symlink),
        (None, Some(fd)) => xstat_at_file(layer, fd, None, follow_symlink),
        (None, None) => Step::Done(Detour::Error(HookError::NullPointer)),
    }
}

impl XstatOp {
    /// Whether the operation can go on with an event.
    pub fn expects(&self, event: &Event) -> (expected: bool)
        ensures
            expected == self@.expects(*event),
    {
        match (self, event) {
            (XstatOp::Filter { .. }, Event::FilterAnswered(_)) => true,
            (XstatOp::Remote, Event::XstatAnswered(_)) => true,
            _ => false,
        }
    }

    /// Goes on with what came of the last action.
    pub fn resume(self, event: Event) -> (step: Step<XstatOp, XstatResponse>)
        requires
            self@.expects(event),
        ensures
            step@ == self@.next(event),
            self@ matches XstatOpView::Filter { path, follow_symlink } ==> event
                == Event::FilterAnswered(true) ==> step@.waits(
                XstatOpView::Remote,
                ActionView::Xstat(
                    XstatRequestView { fd: None, path: Some(path), follow_symlink },
                ),
            ),
    {
        match (self, event) {
            (XstatOp::Filter { path, follow_symlink }, Event::FilterAnswered(handled)) => {
                if handled {
                    Step::Wait(
                        XstatOp::Remote,
                        Action::Xstat(
                            XstatRequest { fd: None, path: Some(path), follow_symlink },
                        ),
                    )
                } else {
                    Step::Done(Detour::Bypass(Bypass::IgnoredFile(path)))
                }
            },
            (XstatOp::Remote, Event::XstatAnswered(reply)) => match flatten(reply) {
                Ok(response) => Step::Done(Detour::Success(response)),
                Err(error) => Step::Done(Detour::Error(error)),
            },
            _ => vstd::pervasive::unreached(),
        }
    }
}

/// How far the resolving of a path is.
#[derive(Debug)]
pub enum RealpathOp {
    /// The filter is asked about the file that the path leads to.
    Filter { realpath: PathBuf },
    /// The file is described, to see that it is there.
    Stat { realpath: PathBuf, stat: XstatOp },
}

/// What a [`RealpathOp`] says.
pub enum RealpathOpView {
    Filter { realpath: Seq<u8> },
    Stat { realpath: Seq<u8>, stat: XstatOpView },
}

impl View for RealpathOp {
    type V = RealpathOpView;

    open spec fn view(&self) -> RealpathOpView {
        match self {
            RealpathOp::Filter { realpath } => RealpathOpView::Filter { realpath: realpath@ },
            RealpathOp::Stat { realpath, stat } => RealpathOpView::Stat {
                realpath: realpath@,
                stat: stat@,
            },
        }
    }
}

impl RealpathOpView {
    /// The events that the operation can go on with.
    pub open spec fn expects(self, event: Event) -> bool {
        match self {
            RealpathOpView::Filter { .. } => event is FilterAnswered,
            RealpathOpView::Stat { stat, .. } => stat.expects(event),
        }
    }

    /// The first step: only a path that starts at the root is the layer's.
    pub open spec fn start(path: DetourView<Seq<u8>>) -> StepView<RealpathOpView, Seq<u8>> {
        match path {
            DetourView::Success(p) => if starts_at_root(p) {
                StepView::Wait(
                    RealpathOpView::Filter { realpath: resolved(p) },
                    filter_question(resolved(p)),
                )
            } else {
                StepView::Done(DetourView::Bypass(BypassView::RelativePath(p)))
            },
            other => StepView::Done(other.cut_short()),
        }
    }

    /// The step that follows from how far the description of the file is. Once
    /// the file was described, the resolved path is the result.
    pub open spec fn after_stat(
        realpath: Seq<u8>,
        step: StepView<XstatOpView, XstatResponse>,
    ) -> StepView<RealpathOpView, Seq<u8>> {
        match step {
            StepView::Wait(stat, action) => StepView::Wait(
                RealpathOpView::Stat { realpath, stat },
                action,
            ),
            StepView::Done(DetourView::Success(_)) => StepView::Done(
                DetourView::Success(realpath),
            ),
            StepView::Done(other) => StepView::Done(other.cut_short()),
        }
    }

    /// The step after an event.
    pub open spec fn next(self, layer: FileLayerView, event: Event) -> StepView<
        RealpathOpView,
        Seq<u8>,
    >
        recommends
            self.expects(event),
    {
        match (self, event) {
            (RealpathOpView::Filter { realpath }, Event::FilterAnswered(handled)) => if handled {
                Self::after_stat(
                    realpath,
                    XstatOpView::start(layer, Some(DetourView::Success(realpath)), None, true),
                )
            } else {
                StepView::Done(DetourView::Bypass(BypassView::IgnoredFile(realpath)))
            },
            (RealpathOpView::Stat { realpath, stat }, event) => Self::after_stat(
                realpath,
                stat.next(event),
            ),
            _ => arbitrary(),
        }
    }
}

/// Resolves a path to the absolute path of a file that is there. Paths that do
/// not start at the root, and files that the filter keeps local, are left to
/// the system.
pub fn realpath(path: Detour<PathBuf>) -> (step: Step<RealpathOp, PathBuf>)
    ensures
        step@ == RealpathOpView::start(path@),
{
    let path = match path {
        Detour::Success(path) => path,
        Detour::Bypass(bypass) => return Step::Done(Detour::Bypass(bypass)),
        Detour::Error(error) => return Step::Done(Detour::Error(error)),
    };
    if path.is_relative() {
        return Step::Done(Detour::Bypass(Bypass::RelativePath(path)));
    }
    let realpath = absolute_path(path);
    let question = Action::AskFilter { text: realpath.to_text(), write: false };
    Step::Wait(RealpathOp::Filter { realpath }, question)
}

impl RealpathOp {
    /// Whether the operation can go on with an event.
    pub fn expects(&self, event: &Event) -> (expected: bool)
        ensures
            expected == self@.expects(*event),
    {
        match (self, event) {
            (RealpathOp::Filter { .. }, Event::FilterAnswered(_)) => true,
            (RealpathOp::Stat { stat, .. }, event) => stat.expects(event),
            _ => false,
        }
    }

    /// The step that follows from how far the description of the file is.
    fn after_stat(realpath: PathBuf, step: Step<XstatOp, XstatResponse>) -> (next: Step<
        RealpathOp,
        PathBuf,
    >)
        ensures
            next@ == RealpathOpView::after_stat(realpath@, step@),
    {
        match step {
            Step::Wait(stat, action) => Step::Wait(RealpathOp::Stat { realpath, stat }, action),
            Step::Done(Detour::Success(_)) => Step::Done(Detour::Success(realpath)),
            Step::Done(Detour::Bypass(bypass)) => Step::Done(Detour::Bypass(bypass)),
            Step::Done(Detour::Error(error)) => Step::Done(Detour::Error(error)),
        }
    }

    /// Goes on with what came of the last action.
    pub fn resume(self, layer: &FileLayer, event: Event) -> (step: Step<RealpathOp, PathBuf>)
        requires
            self@.expects(event),
        ensures
            step@ == self@.next(layer@, event),
    {
        match (self, event) {
            (RealpathOp::Filter { realpath }, Event::FilterAnswered(handled)) => {
                if handled {
                    let described = Detour::Success(realpath.clone());
                    let step = xstat(layer, Some(described), None, true);
                    Self::after_stat(realpath, step)
                } else {
                    Step::Done(Detour::Bypass(Bypass::IgnoredFile(realpath)))
                }
            },
            (RealpathOp::Stat { realpath, stat }, event) => {
                Self::after_stat(realpath, stat.resume(event))
            },
            _ => vstd::pervasive::unreached(),
        }
    }
}

} // verus!
