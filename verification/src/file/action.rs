//! What an operation asks of its surroundings, and what it gets to know.

use vstd::prelude::*;

use crate::detour::{Detour, DetourView, HookError};
use crate::path::PathBuf;
use crate::protocol::{
    AccessFileRequest, AccessFileRequestView, CloseFileRequest, FdOpenDirRequest, OpenDirResponse,
    OpenFileRequest, OpenFileRequestView, OpenFileResponse, OpenRelativeFileRequest,
    OpenRelativeFileRequestView, ProxyResult, XstatRequest, XstatRequestView, XstatResponse,
};

verus! {

/// The next thing to do for an operation.
#[derive(Debug)]
pub enum Action {
    /// Ask the file filter whether the layer handles the file with this path,
    /// when it is opened for writing or not.
    AskFilter { text: String, write: bool },
    /// Send a request to the agent and wait for the answer.
    OpenFile(OpenFileRequest),
    OpenRelativeFile(OpenRelativeFileRequest),
    OpenDir(FdOpenDirRequest),
    AccessFile(AccessFileRequest),
    Xstat(XstatRequest),
    /// Send a request to the agent that has no answer.
    CloseFile(CloseFileRequest),
    /// Find the directory for temporary files.
    FindTempDir,
    /// Open the local file with this path for reading, and make it if it is
    /// not there.
    CreateLocalFile { path: Vec<u8> },
    /// Take the local file with this path out of its directory.
    UnlinkLocalFile { path: Vec<u8> },
}

/// What came of an action.
#[derive(Debug)]
pub enum Event {
    /// Whether the layer handles the file.
    FilterAnswered(bool),
    FileOpened(ProxyResult<OpenFileResponse>),
    DirOpened(ProxyResult<OpenDirResponse>),
    AccessAnswered(ProxyResult<()>),
    XstatAnswered(ProxyResult<XstatResponse>),
    CloseSent(Result<(), HookError>),
    TempDirFound(PathBuf),
    /// The descriptor of the local file, or -1.
    LocalFileCreated(i32),
    LocalFileUnlinked,
}

/// What an [`Action`] says.
pub enum ActionView {
    AskFilter { text: Seq<char>, write: bool },
    OpenFile(OpenFileRequestView),
    OpenRelativeFile(OpenRelativeFileRequestView),
    OpenDir(FdOpenDirRequest),
    AccessFile(AccessFileRequestView),
    Xstat(XstatRequestView),
    CloseFile(CloseFileRequest),
    FindTempDir,
    CreateLocalFile { path: Seq<u8> },
    UnlinkLocalFile { path: Seq<u8> },
}

impl View for Action {
    type V = ActionView;

    open spec fn view(&self) -> ActionView {
        match self {
            Action::AskFilter { text, write } => ActionView::AskFilter {
                text: text@,
                write: *write,
            },
            Action::OpenFile(request) => ActionView::OpenFile(request@),
            Action::OpenRelativeFile(request) => ActionView::OpenRelativeFile(request@),
            Action::OpenDir(request) => ActionView::OpenDir(*request),
            Action::AccessFile(request) => ActionView::AccessFile(request@),
            Action::Xstat(request) => ActionView::Xstat(request@),
            Action::CloseFile(request) => ActionView::CloseFile(*request),
            Action::FindTempDir => ActionView::FindTempDir,
            Action::CreateLocalFile { path } => ActionView::CreateLocalFile { path: path@ },
            Action::UnlinkLocalFile { path } => ActionView::UnlinkLocalFile { path: path@ },
        }
    }
}

/// Whether an event is what comes of an action.
pub open spec fn comes_of(event: Event, action: ActionView) -> bool {
    match action {
        ActionView::AskFilter { .. } => event is FilterAnswered,
        ActionView::OpenFile(_) => event is FileOpened,
        ActionView::OpenRelativeFile(_) => event is FileOpened,
        ActionView::OpenDir(_) => event is DirOpened,
        ActionView::AccessFile(_) => event is AccessAnswered,
        ActionView::Xstat(_) => event is XstatAnswered,
        ActionView::CloseFile(_) => event is CloseSent,
        ActionView::FindTempDir => event is TempDirFound,
        ActionView::CreateLocalFile { .. } => event is LocalFileCreated,
        ActionView::UnlinkLocalFile { .. } => event is LocalFileUnlinked,
    }
}

/// How far an operation is: it waits for an action, to go on from a state, or
/// it has ended.
#[derive(Debug)]
pub enum Step<S, T> {
    Wait(S, Action),
    Done(Detour<T>),
}

/// What a [`Step`] says.
pub enum StepView<S, T> {
    Wait(S, ActionView),
    Done(DetourView<T>),
}

impl<S, T> StepView<S, T> {
    /// The operation has ended so.
    pub open spec fn ended(self, end: DetourView<T>) -> bool {
        self == StepView::<S, T>::Done(end)
    }

    /// The operation waits for an action, to go on from a state.
    pub open spec fn waits(self, op: S, action: ActionView) -> bool {
        self == StepView::<S, T>::Wait(op, action)
    }
}

impl<S: View, T: View> View for Step<S, T> {
    type V = StepView<S::V, T::V>;

    open spec fn view(&self) -> StepView<S::V, T::V> {
        match self {
            Step::Wait(state, action) => StepView::Wait(state@, action@),
            Step::Done(end) => StepView::Done(end@),
        }
    }
}

} // verus!
