//! What the socket registry holds, and what each of its operations does to it.

use vstd::prelude::*;

use crate::sockets::address::{Port, SocketAddr};
use crate::sockets::collections::Indexed;
use crate::sockets::types::{
    ConnectionId, ConnectionSocket, ConnectionState, DataSocket, SockFd, Socket, SocketPair,
    StreamWriteView,
};

verus! {

/// What the registry holds.
#[verifier::ext_equal]
pub struct SocketsView {
    /// Sockets without an address, by descriptor.
    pub new_sockets: Map<SockFd, Socket>,
    /// Bound sockets, by descriptor and by port.
    pub connections: Indexed<ConnectionSocket>,
    /// Sockets of accepted connections, by descriptor and by connection.
    pub data: Indexed<DataSocket>,
    /// Connections that wait to be accepted on a bound socket, oldest first.
    pub queues: Map<SockFd, Seq<ConnectionId>>,
    /// Data of connections that have no data socket yet.
    pub pending: Map<ConnectionId, Seq<u8>>,
}

/// The one byte that wakes the local program up for a new connection.
pub open spec fn wakeup_bytes() -> Seq<u8> {
    seq![97u8]
}

impl SocketsView {
    /// The registry without sockets.
    pub open spec fn empty() -> Self {
        SocketsView {
            new_sockets: Map::empty(),
            connections: Indexed::empty(),
            data: Indexed::empty(),
            queues: Map::empty(),
            pending: Map::empty(),
        }
    }

    /// The connections that wait to be accepted on a bound socket.
    pub open spec fn waiting(self, fd: SockFd) -> Seq<ConnectionId> {
        if self.queues.contains_key(fd) {
            self.queues[fd]
        } else {
            Seq::empty()
        }
    }

    /// What is kept for a connection that has no data socket yet.
    pub open spec fn kept(self, connection_id: ConnectionId) -> Seq<u8> {
        if self.pending.contains_key(connection_id) {
            self.pending[connection_id]
        } else {
            Seq::empty()
        }
    }

    /// Every socket is filed under its own descriptor, every bound socket
    /// under the port of its address, and every data socket under the
    /// connection that it belongs to.
    pub open spec fn well_filed(self) -> bool {
        &&& forall|fd: SockFd| #[trigger]
            self.new_sockets.contains_key(fd) ==> {
                &&& self.new_sockets[fd].read_fd == fd
                &&& self.new_sockets[fd].read_socket.raw_fd == fd
            }
        &&& forall|fd: SockFd| #[trigger]
            self.connections.entries.contains_key(fd) ==> {
                &&& self.connections.entries[fd].1.read_fd == fd
                &&& self.connections.entries[fd].1.read_socket.raw_fd == fd
                &&& self.connections.entries[fd].0 == self.connections.entries[fd].1.address.port()
            }
        &&& forall|fd: SockFd| #[trigger]
            self.data.entries.contains_key(fd) ==> {
                &&& self.data.entries[fd].1.read_socket.raw_fd == fd
                &&& self.data.entries[fd].0 == self.data.entries[fd].1.connection_id
            }
    }

    /// Ports and connections lead to sockets that are filed under them.
    pub open spec fn in_step(self) -> bool {
        &&& self.connections.in_step()
        &&& self.data.in_step()
    }

    /// The socket that a fresh pair makes.
    pub open spec fn fresh_socket(pair: SocketPair) -> Socket {
        Socket {
            read_fd: pair.read_socket.raw_fd,
            read_socket: pair.read_socket,
            write_socket: pair.write_socket,
        }
    }

    /// After a socket was made of a fresh pair.
    pub open spec fn created(self, pair: SocketPair) -> Self {
        SocketsView {
            new_sockets: self.new_sockets.insert(
                pair.read_socket.raw_fd,
                Self::fresh_socket(pair),
            ),
            ..self
        }
    }

    /// The bound socket that a socket becomes.
    pub open spec fn bound_socket(socket: Socket, address: SocketAddr) -> ConnectionSocket {
        ConnectionSocket {
            read_fd: socket.read_fd,
            read_socket: socket.read_socket,
            write_socket: socket.write_socket,
            address,
            state: ConnectionState::Bound,
        }
    }

    /// After a socket was bound to an address. Only a socket without an
    /// address can be bound.
    pub open spec fn bound(self, fd: SockFd, address: SocketAddr) -> Self {
        if self.new_sockets.contains_key(fd) {
            SocketsView {
                new_sockets: self.new_sockets.remove(fd),
                connections: self.connections.insert(
                    fd,
                    address.port(),
                    Self::bound_socket(self.new_sockets[fd], address),
                ),
                ..self
            }
        } else {
            self
        }
    }

    /// Whether a bound socket can go over to a state: it has to be in another.
    pub open spec fn can_enter(self, fd: SockFd, state: ConnectionState) -> bool {
        self.connections.get(fd) matches Some(socket) && socket.state != state
    }

    /// After a bound socket went over to a state.
    pub open spec fn entered(self, fd: SockFd, state: ConnectionState) -> Self {
        if self.can_enter(fd, state) {
            SocketsView {
                connections: self.connections.replace(
                    fd,
                    ConnectionSocket { state, ..self.connections.get(fd)->0 },
                ),
                ..self
            }
        } else {
            self
        }
    }

    /// The address of a bound socket.
    pub open spec fn connection_address(self, fd: SockFd) -> Option<SocketAddr> {
        match self.connections.get(fd) {
            Some(socket) => Some(socket.address),
            None => None,
        }
    }

    /// The address of a data socket.
    pub open spec fn data_address(self, fd: SockFd) -> Option<SocketAddr> {
        match self.data.get(fd) {
            Some(socket) => Some(socket.address),
            None => None,
        }
    }

    /// The connection that is accepted next on a socket: the one that waits
    /// longest, and 0 if the socket is not bound.
    pub open spec fn next_connection(self, fd: SockFd) -> ConnectionId {
        if self.connections.entries.contains_key(fd) {
            self.waiting(fd)[0]
        } else {
            0
        }
    }

    /// After the connection that waits longest on a socket was taken. The
    /// socket is filed anew under the port of its address.
    pub open spec fn connection_taken(self, fd: SockFd) -> Self {
        if self.connections.entries.contains_key(fd) {
            let socket = self.connections.entries[fd].1;
            SocketsView {
                connections: self.connections.remove(fd).insert(fd, socket.address.port(), socket),
                queues: self.queues.insert(fd, self.waiting(fd).drop_first()),
                ..self
            }
        } else {
            self
        }
    }

    /// The write that tells the local program of a connection to a port.
    pub open spec fn wakeup(self, port: Port) -> Option<StreamWriteView> {
        match self.connections.get_alt(port) {
            Some(socket) => Some(
                StreamWriteView {
                    stream: socket.write_socket,
                    bytes: wakeup_bytes(),
                    clear: false,
                },
            ),
            None => None,
        }
    }

    /// After a connection to a port arrived: it waits behind the others of the
    /// socket that is bound to the port. Without such a socket it is refused,
    /// and the port leads nowhere.
    pub open spec fn connection_opened(self, connection_id: ConnectionId, port: Port) -> Self {
        match self.connections.get_alt(port) {
            Some(socket) => SocketsView {
                connections: self.connections.remove_alt(port).insert(
                    socket.read_fd,
                    socket.address.port(),
                    socket,
                ),
                queues: self.queues.insert(
                    socket.read_fd,
                    self.waiting(socket.read_fd).push(connection_id),
                ),
                ..self
            },
            None => SocketsView { connections: self.connections.remove_alt(port), ..self },
        }
    }

    /// The data socket that a fresh pair makes.
    pub open spec fn data_socket(
        pair: SocketPair,
        connection_id: ConnectionId,
        address: SocketAddr,
    ) -> DataSocket {
        DataSocket {
            connection_id,
            read_socket: pair.read_socket,
            write_socket: pair.write_socket,
            address,
        }
    }

    /// After a data socket for a connection was made of a fresh pair.
    pub open spec fn data_created(
        self,
        pair: SocketPair,
        connection_id: ConnectionId,
        address: SocketAddr,
    ) -> Self {
        SocketsView {
            data: self.data.insert(
                pair.read_socket.raw_fd,
                connection_id,
                Self::data_socket(pair, connection_id, address),
            ),
            pending: self.pending.remove(connection_id),
            ..self
        }
    }

    /// The write of what a connection received before it had a data socket.
    pub open spec fn backlog(
        self,
        pair: SocketPair,
        connection_id: ConnectionId,
    ) -> Option<StreamWriteView> {
        if self.pending.contains_key(connection_id) {
            Some(
                StreamWriteView {
                    stream: pair.write_socket,
                    bytes: self.pending[connection_id],
                    clear: false,
                },
            )
        } else {
            None
        }
    }

    /// After the connection that waits longest on a bound socket was accepted.
    pub open spec fn accepted(self, fd: SockFd, pair: SocketPair) -> Self {
        self.connection_taken(fd).data_created(
            pair,
            self.next_connection(fd),
            self.connections.get(fd)->0.address,
        )
    }

    /// The write of data that arrived on a connection.
    pub open spec fn delivery(
        self,
        connection_id: ConnectionId,
        data: Seq<u8>,
    ) -> Option<StreamWriteView> {
        match self.data.get_alt(connection_id) {
            Some(socket) => Some(
                StreamWriteView { stream: socket.write_socket, bytes: data, clear: true },
            ),
            None => None,
        }
    }

    /// After data arrived on a connection. Without a data socket it is kept
    /// until the connection gets one, behind what was kept before.
    pub open spec fn data_received(self, connection_id: ConnectionId, data: Seq<u8>) -> Self {
        match self.data.get_alt(connection_id) {
            Some(socket) => SocketsView {
                data: self.data.remove_alt(connection_id).insert(
                    socket.read_socket.raw_fd,
                    socket.connection_id,
                    socket,
                ),
                ..self
            },
            None => SocketsView {
                data: self.data.remove_alt(connection_id),
                pending: self.pending.insert(connection_id, self.kept(connection_id) + data),
                ..self
            },
        }
    }

    /// After a connection ended.
    pub open spec fn connection_closed(self, connection_id: ConnectionId) -> Self {
        SocketsView { data: self.data.remove_alt(connection_id), ..self }
    }
}

} // verus!
