use vstd::prelude::*;

use crate::sockets::address::SocketAddr;

verus! {

/// A file descriptor that stands for a socket of the local program.
pub type SockFd = i32;

/// The number by which the agent names a connection.
pub type ConnectionId = u16;

/// Bytes that arrived on a connection.
pub type TCPBuffer = Vec<u8>;

/// One end of a socket pair, named by its file descriptor.
#[derive(Clone, Copy, Debug, PartialEq, Eq, Structural)]
pub struct StreamHandle {
    pub raw_fd: SockFd,
}

/// The two connected ends of a fresh socket pair. The local program holds the
/// descriptor of `read_socket`; the layer feeds it through `write_socket`.
#[derive(Clone, Copy, Debug, PartialEq, Eq, Structural)]
pub struct SocketPair {
    pub read_socket: StreamHandle,
    pub write_socket: StreamHandle,
}

/// A socket that has no address yet.
#[derive(Debug, PartialEq, Eq, Structural)]
pub struct Socket {
    pub read_fd: SockFd,
    pub read_socket: StreamHandle,
    pub write_socket: StreamHandle,
}

/// A socket that was bound to an address.
#[derive(Debug, PartialEq, Eq)]
pub struct ConnectionSocket {
    pub read_fd: SockFd,
    pub read_socket: StreamHandle,
    pub write_socket: StreamHandle,
    pub address: SocketAddr,
    pub state: ConnectionState,
}

/// How far a bound socket has come.
#[derive(Clone, Copy, Debug, PartialEq, Eq, Structural)]
pub enum ConnectionState {
    Bound,
    Listening,
}

/// A socket that carries the data of one accepted connection.
#[derive(Debug, PartialEq, Eq)]
pub struct DataSocket {
    pub connection_id: ConnectionId,
    pub read_socket: StreamHandle,
    pub write_socket: StreamHandle,
    pub address: SocketAddr,
}

/// Bytes that the caller has to write to a stream.
#[derive(Debug)]
pub struct StreamWrite {
    pub stream: StreamHandle,
    pub bytes: TCPBuffer,
    /// After the write, throw away what the local program has sent back on the
    /// same stream so far.
    pub clear: bool,
}

/// What a [`StreamWrite`] says.
pub struct StreamWriteView {
    pub stream: StreamHandle,
    pub bytes: Seq<u8>,
    pub clear: bool,
}

impl View for StreamWrite {
    type V = StreamWriteView;

    open spec fn view(&self) -> StreamWriteView {
        StreamWriteView { stream: self.stream, bytes: self.bytes@, clear: self.clear }
    }
}

/// What an optional [`StreamWrite`] says.
pub open spec fn write_view(write: Option<StreamWrite>) -> Option<StreamWriteView> {
    match write {
        Some(w) => Some(w@),
        None => None,
    }
}

} // verus!
