//! How an intercepted call ends.

use vstd::prelude::*;

use crate::path::PathBuf;
use crate::protocol::{ProxyError, ResponseError};

verus! {

/// How an intercepted call ends: with a result of the layer's own, with the
/// system's call in its place, or with an error.
#[derive(Debug)]
pub enum Detour<T> {
    Success(T),
    Bypass(Bypass),
    Error(HookError),
}

/// Why a call is left to the system.
#[derive(Debug)]
pub enum Bypass {
    /// The path does not start at the root.
    RelativePath(PathBuf),
    /// The file filter keeps the file local.
    IgnoredFile(PathBuf),
    /// The descriptor is not one of a remote file.
    LocalFdNotFound(i32),
    /// An argument does not have a meaning.
    CStrConversion,
    /// There is nothing to write from.
    EmptyBuffer,
}

/// Why a call fails.
#[derive(Clone, Copy, Debug, PartialEq, Eq, Structural)]
pub enum HookError {
    /// There is no local file to stand for the remote file of this descriptor.
    LocalFileCreation(u64),
    /// An argument is missing.
    NullPointer,
    /// A path has a zero byte in it.
    Null,
    /// A number does not fit into its type.
    TryFromInt,
    /// The agent refused the request.
    Response(ResponseError),
    /// The request did not reach the agent, or the answer did not come back.
    Proxy(ProxyError),
}

/// What a [`Detour`] says.
pub enum DetourView<T> {
    Success(T),
    Bypass(BypassView),
    Error(HookError),
}

/// What a [`Bypass`] says.
pub enum BypassView {
    RelativePath(Seq<u8>),
    IgnoredFile(Seq<u8>),
    LocalFdNotFound(i32),
    CStrConversion,
    EmptyBuffer,
}

impl View for Bypass {
    type V = BypassView;

    open spec fn view(&self) -> BypassView {
        match self {
            Bypass::RelativePath(path) => BypassView::RelativePath(path@),
            Bypass::IgnoredFile(path) => BypassView::IgnoredFile(path@),
            Bypass::LocalFdNotFound(fd) => BypassView::LocalFdNotFound(*fd),
            Bypass::CStrConversion => BypassView::CStrConversion,
            Bypass::EmptyBuffer => BypassView::EmptyBuffer,
        }
    }
}

impl<T: View> View for Detour<T> {
    type V = DetourView<T::V>;

    open spec fn view(&self) -> DetourView<T::V> {
        match self {
            Detour::Success(value) => DetourView::Success(value@),
            Detour::Bypass(bypass) => DetourView::Bypass(bypass@),
            Detour::Error(error) => DetourView::Error(*error),
        }
    }
}

impl<T> DetourView<T> {
    /// The end of a call that comes to the same end as one that it rests on,
    /// because that one did not succeed.
    pub open spec fn cut_short<U>(self) -> DetourView<U>
        recommends
            self !is Success,
    {
        match self {
            DetourView::Success(value) => arbitrary(),
            DetourView::Bypass(bypass) => DetourView::Bypass(bypass),
            DetourView::Error(error) => DetourView::Error(error),
        }
    }
}

} // verus!
