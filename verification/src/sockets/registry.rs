use multi_map::MultiMap;
use queues::Queue;
use std::collections::HashMap;
use vstd::prelude::*;

use crate::sockets::address::{Port, SocketAddr};
use crate::sockets::collections::{
    add_to_queue, get_connection, get_connection_mut, get_data, get_data_by_id, insert_connection,
    insert_data, new_connections, new_data, new_queue, queue_size, remove_connection,
    remove_connection_by_port, remove_data_by_id, remove_from_queue,
};
#[allow(unused_imports)]
use crate::sockets::collections::{connections_view, data_view, queue_contents};
#[allow(unused_imports)]
use crate::sockets::model::SocketsView;
#[allow(unused_imports)]
use crate::sockets::types::{write_view, StreamWriteView};
use crate::sockets::types::{
    ConnectionId, ConnectionSocket, ConnectionState, DataSocket, SockFd, Socket, SocketPair,
    StreamHandle, StreamWrite, TCPBuffer,
};
use crate::text::append_bytes;

verus! {

broadcast use vstd::std_specs::hash::group_hash_axioms;

/// The sockets of the local program.
pub struct Sockets {
    new_sockets: HashMap<SockFd, Socket>,
    connections: MultiMap<SockFd, Port, ConnectionSocket>,
    data: MultiMap<SockFd, ConnectionId, DataSocket>,
    /// Connections that the agent announced, to be handed out by `accept`.
    connection_queues: HashMap<SockFd, Queue<ConnectionId>>,
    /// Data that arrived before its connection was accepted. It is handed out
    /// when the connection gets its data socket.
    pending_data: HashMap<ConnectionId, TCPBuffer>,
}

impl View for Sockets {
    type V = SocketsView;

    closed spec fn view(&self) -> SocketsView {
        SocketsView {
            new_sockets: self.new_sockets@,
            connections: connections_view(self.connections),
            data: data_view(self.data),
            queues: self.connection_queues@.map_values(|queue: Queue<u16>| queue_contents(queue)),
            pending: self.pending_data@.map_values(|data: TCPBuffer| data@),
        }
    }
}

impl Default for Sockets {
    fn default() -> (sockets: Self)
        ensures
            sockets@ == SocketsView::empty(),
    {
        let sockets = Sockets {
            new_sockets: HashMap::new(),
            connections: new_connections(),
            data: new_data(),
            connection_queues: HashMap::new(),
            pending_data: HashMap::new(),
        };
        assert(sockets@ =~= SocketsView::empty());
        sockets
    }
}

impl Sockets {
    /// Files a socket that was made of a fresh pair. Returns the descriptor
    /// for the local program.
    pub fn create_socket(&mut self, pair: SocketPair) -> (fd: SockFd)
        ensures
            fd == pair.read_socket.raw_fd,
            final(self)@ == old(self)@.created(pair),
    {
        let read_fd = pair.read_socket.raw_fd;
        let socket = Socket {
            read_fd,
            read_socket: pair.read_socket,
            write_socket: pair.write_socket,
        };
        self.new_sockets.insert(read_fd, socket);
        read_fd
    }

    /// Whether a descriptor is that of a socket that has no address yet.
    pub fn has_new_socket(&self, sockfd: SockFd) -> (has: bool)
        ensures
            has <==> self@.new_sockets.contains_key(sockfd),
    {
        self.new_sockets.contains_key(&sockfd)
    }

    /// Binds a socket that has no address yet. Any other descriptor is
    /// ignored.
    pub fn convert_to_connection_socket(&mut self, sockfd: SockFd, address: SocketAddr)
        ensures
            final(self)@ == old(self)@.bound(sockfd, address),
    {
        match self.new_sockets.remove(&sockfd) {
            Some(socket) => {
                let bound = ConnectionSocket {
                    read_fd: socket.read_fd,
                    read_socket: socket.read_socket,
                    write_socket: socket.write_socket,
                    address,
                    state: ConnectionState::Bound,
                };
                insert_connection(&mut self.connections, sockfd, address.port(), bound);
            },
            None => {
                assert(self@ =~= old(self)@);
            },
        }
    }

    /// Moves a bound socket to another state. It is an error if the descriptor
    /// is not that of a bound socket, or if the socket is in that state.
    pub fn set_connection_state(&mut self, sockfd: SockFd, state: ConnectionState) -> (result:
        Result<(), ()>)
        ensures
            result is Ok <==> old(self)@.can_enter(sockfd, state),
            final(self)@ == old(self)@.entered(sockfd, state),
    {
        match get_connection_mut(&mut self.connections, &sockfd) {
            Some(connection) => {
                if connection.state != state {
                    connection.state = state;
                    Ok(())
                } else {
                    assert(self@ =~= old(self)@);
                    Err(())
                }
            },
            None => Err(()),
        }
    }

    /// The address that a bound socket has.
    pub fn get_connection_socket_address(&self, sockfd: SockFd) -> (address: Option<SocketAddr>)
        ensures
            address == self@.connection_address(sockfd),
    {
        match get_connection(&self.connections, &sockfd) {
            Some(socket) => Some(socket.address),
            None => None,
        }
    }

    /// The address that a data socket has.
    pub fn get_data_socket_address(&self, sockfd: SockFd) -> (address: Option<SocketAddr>)
        ensures
            address == self@.data_address(sockfd),
    {
        match get_data(&self.data, &sockfd) {
            Some(socket) => Some(socket.address),
            None => None,
        }
    }

    /// The stream on which one byte arrives for each connection that waits on
    /// a bound socket.
    pub fn wakeup_stream(&self, sockfd: SockFd) -> (stream: Option<StreamHandle>)
        ensures
            match self@.connections.get(sockfd) {
                Some(socket) => stream == Some(socket.read_socket),
                None => stream is None,
            },
    {
        match get_connection(&self.connections, &sockfd) {
            Some(socket) => Some(socket.read_socket),
            None => None,
        }
    }

    /// Whether a connection waits to be accepted on a socket.
    pub fn has_waiting_connection(&self, sockfd: SockFd) -> (waits: bool)
        ensures
            waits <==> self@.waiting(sockfd).len() > 0,
    {
        match self.connection_queues.get(&sockfd) {
            Some(queue) => queue_size(queue) > 0,
            None => false,
        }
    }

    /// Takes the connection that waits longest on a bound socket, once the
    /// byte that announced it was read from the socket's wakeup stream. A
    /// descriptor that is not that of a bound socket gives 0.
    pub fn read_single_connection(&mut self, sockfd: SockFd) -> (connection_id: ConnectionId)
        requires
            old(self)@.connections.get(sockfd) is Some ==> old(self)@.waiting(sockfd).len() > 0,
        ensures
            connection_id == old(self)@.next_connection(sockfd),
            final(self)@ == old(self)@.connection_taken(sockfd),
    {
        match remove_connection(&mut self.connections, &sockfd) {
            Some(socket) => {
                insert_connection(&mut self.connections, sockfd, socket.address.port(), socket);
                let mut queue = self.connection_queues.remove(&sockfd).unwrap();
                let connection_id = remove_from_queue(&mut queue).unwrap();
                self.connection_queues.insert(sockfd, queue);
                assert(self@ =~= old(self)@.connection_taken(sockfd));
                connection_id
            },
            None => 0,
        }
    }

    /// Lets a connection wait on the socket that is bound to the port. Returns
    /// the write that wakes the local program up; a port that no socket is
    /// bound to has none.
    pub fn open_connection(&mut self, connection_id: ConnectionId, port: Port) -> (wakeup: Option<
        StreamWrite,
    >)
        ensures
            write_view(wakeup) == old(self)@.wakeup(port),
            final(self)@ == old(self)@.connection_opened(connection_id, port),
    {
        match remove_connection_by_port(&mut self.connections, &port) {
            Some(socket) => {
                let read_fd = socket.read_fd;
                let mut queue = match self.connection_queues.remove(&read_fd) {
                    Some(queue) => queue,
                    None => new_queue(),
                };
                add_to_queue(&mut queue, connection_id);
                self.connection_queues.insert(read_fd, queue);
                let stream = socket.write_socket;
                insert_connection(&mut self.connections, read_fd, socket.address.port(), socket);
                assert(self@ =~= old(self)@.connection_opened(connection_id, port));
                // One byte per connection.
                let bytes: Vec<u8> = vec![97u8];
                assert(bytes@ =~= crate::sockets::model::wakeup_bytes());
                Some(StreamWrite { stream, bytes, clear: false })
            },
            None => {
                assert(self@ =~= old(self)@.connection_opened(connection_id, port));
                None
            },
        }
    }

    /// Files a data socket for a connection that was made of a fresh pair.
    /// Returns the descriptor for the local program, and the write of what
    /// arrived on the connection before.
    pub fn create_data_socket(
        &mut self,
        pair: SocketPair,
        connection_id: ConnectionId,
        address: SocketAddr,
    ) -> (created: (SockFd, Option<StreamWrite>))
        ensures
            created.0 == pair.read_socket.raw_fd,
            write_view(created.1) == old(self)@.backlog(pair, connection_id),
            final(self)@ == old(self)@.data_created(pair, connection_id, address),
    {
        let read_fd = pair.read_socket.raw_fd;
        let backlog = match self.pending_data.remove(&connection_id) {
            Some(bytes) => Some(StreamWrite { stream: pair.write_socket, bytes, clear: false }),
            None => None,
        };
        let data_socket = DataSocket {
            connection_id,
            read_socket: pair.read_socket,
            write_socket: pair.write_socket,
            address,
        };
        insert_data(&mut self.data, read_fd, connection_id, data_socket);
        assert(self@ =~= old(self)@.data_created(pair, connection_id, address));
        (read_fd, backlog)
    }

    /// Lets a bound socket listen. Returns the status for the local program,
    /// and the socket whose port the agent has to be subscribed to.
    pub fn listen(&mut self, sockfd: SockFd) -> (outcome: (i32, Option<SockFd>))
        ensures
            old(self)@.can_enter(sockfd, ConnectionState::Listening) ==> outcome == (
                0i32,
                Some(sockfd),
            ),
            !old(self)@.can_enter(sockfd, ConnectionState::Listening) ==> outcome == (
                -1i32,
                None::<SockFd>,
            ),
            final(self)@ == old(self)@.entered(sockfd, ConnectionState::Listening),
            outcome.0 == 0 <==> old(self)@.connections.entries.contains_key(sockfd) && old(
                self,
            )@.connections.entries[sockfd].1.state == ConnectionState::Bound,
    {
        match self.set_connection_state(sockfd, ConnectionState::Listening) {
            Ok(()) => (0, Some(sockfd)),
            Err(()) => (-1, None),
        }
    }

    /// Accepts the connection that waits longest on a bound socket, once the
    /// byte that announced it was read from the socket's wakeup stream. The
    /// connection gets a data socket that was made of a fresh pair, with the
    /// address of the bound socket. Returns the descriptor for the local
    /// program, and the write of what arrived on the connection before.
    pub fn accept(&mut self, sockfd: SockFd, pair: SocketPair) -> (accepted: (
        SockFd,
        Option<StreamWrite>,
    ))
        requires
            old(self)@.connections.get(sockfd) is Some,
            old(self)@.waiting(sockfd).len() > 0,
        ensures
            accepted.0 == pair.read_socket.raw_fd,
            write_view(accepted.1) == old(self)@.backlog(pair, old(self)@.next_connection(sockfd)),
            final(self)@ == old(self)@.accepted(sockfd, pair),
            final(self)@.data.entries.remove(accepted.0) == old(self)@.data.entries.remove(
                accepted.0,
            ),
            final(self)@.data.entries[accepted.0].1.connection_id == old(self)@.waiting(sockfd)[0],
            final(self)@.data.entries[accepted.0].1.write_socket == pair.write_socket,
    {
        let address = self.get_connection_socket_address(sockfd).unwrap();
        let connection_id = self.read_single_connection(sockfd);
        self.create_data_socket(pair, connection_id, address)
    }

    /// Takes in data that arrived on a connection. Returns the write that
    /// hands it to the local program. A connection without a data socket has
    /// none: its data waits for [`Sockets::create_data_socket`], behind what
    /// arrived before.
    pub fn write_data(&mut self, connection_id: ConnectionId, data: TCPBuffer) -> (delivery: Option<
        StreamWrite,
    >)
        ensures
            write_view(delivery) == old(self)@.delivery(connection_id, data@),
            final(self)@ == old(self)@.data_received(connection_id, data@),
    {
        match remove_data_by_id(&mut self.data, &connection_id) {
            Some(socket) => {
                let stream = socket.write_socket;
                insert_data(
                    &mut self.data,
                    socket.read_socket.raw_fd,
                    socket.connection_id,
                    socket,
                );
                assert(self@ =~= old(self)@.data_received(connection_id, data@));
                Some(StreamWrite { stream, bytes: data, clear: true })
            },
            None => {
                // The data messages of a connection can come before the
                // connection was accepted.
                let mut kept = match self.pending_data.remove(&connection_id) {
                    Some(kept) => kept,
                    None => Vec::new(),
                };
                append_bytes(&mut kept, data.as_slice());
                self.pending_data.insert(connection_id, kept);
                assert(self@ =~= old(self)@.data_received(connection_id, data@));
                None
            },
        }
    }

    /// Whether a connection has a data socket.
    pub fn has_data_socket(&self, connection_id: ConnectionId) -> (has: bool)
        ensures
            has <==> self@.data.get_alt(connection_id) is Some,
    {
        get_data_by_id(&self.data, &connection_id).is_some()
    }

    /// Forgets the data socket of a connection that ended. Its streams are the
    /// caller's to close.
    pub fn close_connection(&mut self, connection_id: ConnectionId) -> (socket: DataSocket)
        requires
            old(self)@.data.get_alt(connection_id) is Some,
        ensures
            Some(socket) == old(self)@.data.get_alt(connection_id),
            final(self)@ == old(self)@.connection_closed(connection_id),
    {
        let socket = remove_data_by_id(&mut self.data, &connection_id).unwrap();
        assert(self@ =~= old(self)@.connection_closed(connection_id));
        socket
    }
}

} // verus!
