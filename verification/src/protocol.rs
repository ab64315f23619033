//! What the layer and the agent say to each other about files.

use vstd::prelude::*;

use crate::detour::{Detour, HookError};
use crate::path::PathBuf;

verus! {

/// Why the agent refused a request, by the number of its error.
#[derive(Clone, Copy, Debug, PartialEq, Eq, Structural)]
pub struct ResponseError {
    pub code: u64,
}

/// Why an exchange with the agent failed, by the number of the error.
#[derive(Clone, Copy, Debug, PartialEq, Eq, Structural)]
pub struct ProxyError {
    pub code: u64,
}

/// What came of a request: an exchange that failed, or the agent's answer,
/// which may be a refusal.
pub type ProxyResult<T> = Result<Result<T, ResponseError>, HookError>;

/// How the agent is to open a file. The layer hands the encoded options on as
/// they are, and knows of them only whether they ask for write access.
#[derive(Debug)]
pub struct OpenOptionsInternal {
    pub encoded: Vec<u8>,
    pub write: bool,
}

impl OpenOptionsInternal {
    pub open spec fn spec_is_write(&self) -> bool {
        self.write
    }

    /// Whether the options ask for write access.
    #[verifier::when_used_as_spec(spec_is_write)]
    pub fn is_write(&self) -> (write: bool)
        ensures
            write == self.spec_is_write(),
    {
        self.write
    }
}

/// Open the file at a path.
#[derive(Debug)]
pub struct OpenFileRequest {
    pub path: PathBuf,
    pub open_options: OpenOptionsInternal,
}

/// Open the file at a path that starts at an open directory.
#[derive(Debug)]
pub struct OpenRelativeFileRequest {
    pub relative_fd: u64,
    pub path: PathBuf,
    pub open_options: OpenOptionsInternal,
}

/// Read on from the place that was reached.
#[derive(Clone, Copy, Debug, PartialEq, Eq, Structural)]
pub struct ReadFileRequest {
    pub remote_fd: u64,
    pub buffer_size: u64,
}

/// Read from a place in a file.
#[derive(Clone, Copy, Debug, PartialEq, Eq, Structural)]
pub struct ReadLimitedFileRequest {
    pub remote_fd: u64,
    pub buffer_size: u64,
    pub start_from: u64,
}

/// Write on from the place that was reached.
#[derive(Debug)]
pub struct WriteFileRequest {
    pub fd: u64,
    pub write_bytes: Vec<u8>,
}

/// Write at a place in a file.
#[derive(Debug)]
pub struct WriteLimitedFileRequest {
    pub remote_fd: u64,
    pub write_bytes: Vec<u8>,
    pub start_from: u64,
}

/// Where an offset counts from.
#[derive(Clone, Copy, Debug, PartialEq, Eq, Structural)]
pub enum SeekFromInternal {
    Start(u64),
    Current(i64),
    End(i64),
}

/// Go to a place in a file.
#[derive(Clone, Copy, Debug, PartialEq, Eq, Structural)]
pub struct SeekFileRequest {
    pub fd: u64,
    pub seek_from: SeekFromInternal,
}

/// Tell whether the file at a path can be accessed.
#[derive(Debug)]
pub struct AccessFileRequest {
    pub pathname: PathBuf,
    pub mode: u8,
}

/// Describe a file: the one that is open, the one at a path, or the one at a
/// path that starts at an open directory.
#[derive(Debug)]
pub struct XstatRequest {
    pub fd: Option<u64>,
    pub path: Option<PathBuf>,
    pub follow_symlink: bool,
}

/// Describe the file system of an open file.
#[derive(Clone, Copy, Debug, PartialEq, Eq, Structural)]
pub struct XstatFsRequest {
    pub fd: u64,
}

/// List entries of an open directory.
#[derive(Clone, Copy, Debug, PartialEq, Eq, Structural)]
pub struct GetDEnts64Request {
    pub remote_fd: u64,
    pub buffer_size: u64,
}

/// Close an open file. The agent does not answer.
#[derive(Clone, Copy, Debug, PartialEq, Eq, Structural)]
pub struct CloseFileRequest {
    pub fd: u64,
}

/// Make a directory stream of an open directory.
#[derive(Clone, Copy, Debug, PartialEq, Eq, Structural)]
pub struct FdOpenDirRequest {
    pub remote_fd: u64,
}

/// The agent's descriptor of a file that was opened.
#[derive(Clone, Copy, Debug, PartialEq, Eq, Structural)]
pub struct OpenFileResponse {
    pub fd: u64,
}

/// The agent's descriptor of a directory stream that was made.
#[derive(Clone, Copy, Debug, PartialEq, Eq, Structural)]
pub struct OpenDirResponse {
    pub fd: u64,
}

/// The place that was gone to.
#[derive(Clone, Copy, Debug, PartialEq, Eq, Structural)]
pub struct SeekFileResponse {
    pub result_offset: u64,
}

/// How many bytes were written.
#[derive(Clone, Copy, Debug, PartialEq, Eq, Structural)]
pub struct WriteFileResponse {
    pub written_amount: u64,
}

/// A description of a file, as the agent encoded it.
#[derive(Debug)]
pub struct XstatResponse {
    pub encoded: Vec<u8>,
}

impl View for XstatResponse {
    type V = XstatResponse;

    open spec fn view(&self) -> XstatResponse {
        *self
    }
}

/// What an [`OpenFileRequest`] says.
pub struct OpenFileRequestView {
    pub path: Seq<u8>,
    pub open_options: OpenOptionsInternal,
}

/// What an [`OpenRelativeFileRequest`] says.
pub struct OpenRelativeFileRequestView {
    pub relative_fd: u64,
    pub path: Seq<u8>,
    pub open_options: OpenOptionsInternal,
}

/// What a [`WriteFileRequest`] says.
pub struct WriteFileRequestView {
    pub fd: u64,
    pub write_bytes: Seq<u8>,
}

/// What a [`WriteLimitedFileRequest`] says.
pub struct WriteLimitedFileRequestView {
    pub remote_fd: u64,
    pub write_bytes: Seq<u8>,
    pub start_from: u64,
}

/// What an [`AccessFileRequest`] says.
pub struct AccessFileRequestView {
    pub pathname: Seq<u8>,
    pub mode: u8,
}

/// What an [`XstatRequest`] says.
pub struct XstatRequestView {
    pub fd: Option<u64>,
    pub path: Option<Seq<u8>>,
    pub follow_symlink: bool,
}

impl View for OpenFileRequest {
    type V = OpenFileRequestView;

    open spec fn view(&self) -> OpenFileRequestView {
        OpenFileRequestView { path: self.path@, open_options: self.open_options }
    }
}

impl View for OpenRelativeFileRequest {
    type V = OpenRelativeFileRequestView;

    open spec fn view(&self) -> OpenRelativeFileRequestView {
        OpenRelativeFileRequestView {
            relative_fd: self.relative_fd,
            path: self.path@,
            open_options: self.open_options,
        }
    }
}

impl View for WriteFileRequest {
    type V = WriteFileRequestView;

    open spec fn view(&self) -> WriteFileRequestView {
        WriteFileRequestView { fd: self.fd, write_bytes: self.write_bytes@ }
    }
}

impl View for WriteLimitedFileRequest {
    type V = WriteLimitedFileRequestView;

    open spec fn view(&self) -> WriteLimitedFileRequestView {
        WriteLimitedFileRequestView {
            remote_fd: self.remote_fd,
            write_bytes: self.write_bytes@,
            start_from: self.start_from,
        }
    }
}

impl View for AccessFileRequest {
    type V = AccessFileRequestView;

    open spec fn view(&self) -> AccessFileRequestView {
        AccessFileRequestView { pathname: self.pathname@, mode: self.mode }
    }
}

impl View for XstatRequest {
    type V = XstatRequestView;

    open spec fn view(&self) -> XstatRequestView {
        XstatRequestView {
            fd: self.fd,
            path: match self.path {
                Some(path) => Some(path@),
                None => None,
            },
            follow_symlink: self.follow_symlink,
        }
    }
}

/// The response to a request, or the error with which the call ends.
pub open spec fn relayed<T>(reply: ProxyResult<T>) -> Result<T, HookError> {
    match reply {
        Ok(Ok(response)) => Ok(response),
        Ok(Err(refusal)) => Err(HookError::Response(refusal)),
        Err(error) => Err(error),
    }
}

/// The response to a request, or the error with which the call ends.
pub(crate) fn flatten<T>(reply: ProxyResult<T>) -> (result: Result<T, HookError>)
    ensures
        result == relayed(reply),
{
    match reply {
        Ok(Ok(response)) => Ok(response),
        Ok(Err(refusal)) => Err(HookError::Response(refusal)),
        Err(error) => Err(error),
    }
}

/// Ends a call with the response to its request.
pub fn relay<T>(reply: ProxyResult<T>) -> (end: Detour<T>)
    ensures
        end == match relayed(reply) {
            Ok(response) => Detour::Success(response),
            Err(error) => Detour::Error(error),
        },
        reply matches Ok(Ok(response)) ==> end == Detour::Success(response),
        reply matches Ok(Err(refusal)) ==> end == Detour::<T>::Error(HookError::Response(refusal)),
        reply matches Err(error) ==> end == Detour::<T>::Error(error),
{
    match flatten(reply) {
        Ok(response) => Detour::Success(response),
        Err(error) => Detour::Error(error),
    }
}

} // verus!
