//! What each operation of the socket registry does to the sockets, ports and
//! connections that it is about, and that it leaves all others as they are.

use vstd::prelude::*;

use crate::sockets::address::{os_form, port_number, Port, SocketAddr};
use crate::sockets::model::SocketsView;
use crate::sockets::types::{
    write_view, ConnectionId, ConnectionState, DataSocket, SockFd, Socket, SocketPair, StreamWrite,
    StreamWriteView,
};

verus! {

/// A fresh registry holds nothing, whatever it is asked for.
pub proof fn fresh_registry_holds_nothing(fd: SockFd, id: ConnectionId, port: Port, data: Seq<u8>)
    ensures
        ({
            let s = SocketsView::empty();
            &&& s.new_sockets == Map::<SockFd, Socket>::empty()
            &&& !s.connections.entries.contains_key(fd) && !s.connections.index.contains_key(port)
            &&& !s.data.entries.contains_key(fd) && !s.data.index.contains_key(id)
            &&& !s.queues.contains_key(fd) && !s.pending.contains_key(id)
            &&& s.connection_address(fd) is None && s.data_address(fd) is None
            &&& s.wakeup(port) is None && s.delivery(id, data) is None
            &&& s.waiting(fd).len() == 0 && s.kept(id).len() == 0
        }),
{
}

/// What waits on a socket is its queue, and what is kept for a connection is its
/// early data; a socket without a queue and a connection without early data have
/// nothing.
pub proof fn absent_queues_and_data_are_empty(s: SocketsView, fd: SockFd, id: ConnectionId)
    ensures
        s.queues.contains_key(fd) ==> s.waiting(fd) == s.queues[fd],
        s.waiting(fd).len() > 0 ==> s.queues.contains_key(fd),
        s.pending.contains_key(id) ==> s.kept(id) == s.pending[id],
        s.kept(id).len() > 0 ==> s.pending.contains_key(id),
{
}

/// A descriptor has the address of the bound socket that is filed under it as a
/// bound socket, and that of the data socket that is filed under it as a data
/// socket. A connection has the data socket that it leads to.
pub proof fn addresses_are_those_of_the_filed_sockets(
    s: SocketsView,
    fd: SockFd,
    a: SocketAddr,
    id: ConnectionId,
    socket: DataSocket,
)
    ensures
        s.connection_address(fd) == Some(a) <==> s.connections.entries.contains_key(fd)
            && s.connections.entries[fd].1.address == a,
        s.data_address(fd) == Some(a) <==> s.data.entries.contains_key(fd)
            && s.data.entries[fd].1.address == a,
        s.connections.get(fd) is Some <==> s.connections.entries.contains_key(fd),
        s.connections.get(fd) matches Some(filed) ==> filed == s.connections.entries[fd].1,
        s.data.get_alt(id) == Some(socket) <==> s.data.index.contains_key(id)
            && s.data.entries.contains_key(s.data.index[id])
            && s.data.entries[s.data.index[id]].1 == socket,
{
}

/// A socket made of a pair is new, reads from the pair's read end, and is fed
/// through its write end. Making it touches nothing else.
pub proof fn creating_adds_one_new_socket(s: SocketsView, pair: SocketPair)
    ensures
        ({
            let fd = pair.read_socket.raw_fd;
            let after = s.created(pair);
            &&& after.new_sockets.contains_key(fd)
            &&& after.new_sockets[fd].read_fd == fd
            &&& after.new_sockets[fd].read_socket == pair.read_socket
            &&& after.new_sockets[fd].write_socket == pair.write_socket
            &&& after.new_sockets.remove(fd) == s.new_sockets.remove(fd)
            &&& after.connections == s.connections
            &&& after.data == s.data
            &&& after.queues == s.queues
            &&& after.pending == s.pending
        }),
{
    let fd = pair.read_socket.raw_fd;
    assert(s.created(pair).new_sockets.remove(fd) =~= s.new_sockets.remove(fd));
}

/// Binding turns one new socket into a bound one: it keeps its streams and gets
/// the address, and the address's port leads to it. Every other socket and every
/// other port stays as it was.
pub proof fn binding_moves_one_socket(s: SocketsView, fd: SockFd, address: SocketAddr)
    ensures
        ({
            let after = s.bound(fd, address);
            let port = address.port();
            &&& !s.new_sockets.contains_key(fd) ==> after == s
            &&& s.new_sockets.contains_key(fd) ==> {
                let socket = after.connections.entries[fd].1;
                &&& after.connections.entries.contains_key(fd)
                &&& after.connections.entries[fd].0 == port
                &&& socket.read_fd == s.new_sockets[fd].read_fd
                &&& socket.read_socket == s.new_sockets[fd].read_socket
                &&& socket.write_socket == s.new_sockets[fd].write_socket
                &&& socket.address == address
                &&& socket.state == ConnectionState::Bound
                &&& after.connections.index.contains_pair(port, fd)
                &&& after.connections.entries.remove(fd) == s.connections.entries.remove(fd)
                &&& after.connections.index.remove(port) == s.connections.index.remove(port)
                &&& after.new_sockets == s.new_sockets.remove(fd)
                &&& after.data == s.data
                &&& after.queues == s.queues
                &&& after.pending == s.pending
            }
        }),
{
    let after = s.bound(fd, address);
    let port = address.port();
    if s.new_sockets.contains_key(fd) {
        assert(after.connections.entries.remove(fd) =~= s.connections.entries.remove(fd));
        assert(after.connections.index.remove(port) =~= s.connections.index.remove(port));
    }
}

/// Going over to a state changes the state of one bound socket, and nothing
/// else. It is possible exactly for a bound socket that is in another state, and
/// otherwise changes nothing.
pub proof fn entering_changes_one_state(s: SocketsView, fd: SockFd, state: ConnectionState)
    ensures
        s.can_enter(fd, state) <==> s.connections.entries.contains_key(fd)
            && s.connections.entries[fd].1.state != state,
        !s.can_enter(fd, state) ==> s.entered(fd, state) == s,
        s.can_enter(fd, state) ==> {
            let after = s.entered(fd, state);
            let was = s.connections.entries[fd];
            let is = after.connections.entries[fd];
            &&& after.connections.entries.contains_key(fd)
            &&& is.0 == was.0
            &&& is.1.state == state
            &&& is.1.read_fd == was.1.read_fd
            &&& is.1.read_socket == was.1.read_socket
            &&& is.1.write_socket == was.1.write_socket
            &&& is.1.address == was.1.address
            &&& after.connections.entries.remove(fd) == s.connections.entries.remove(fd)
            &&& after.connections.index == s.connections.index
            &&& after.new_sockets == s.new_sockets
            &&& after.data == s.data
            &&& after.queues == s.queues
            &&& after.pending == s.pending
        },
{
    if s.can_enter(fd, state) {
        assert(s.entered(fd, state).connections.entries.remove(fd)
            =~= s.connections.entries.remove(fd));
    }
}

/// Taking a connection from a bound socket gives the one at the front of its
/// queue, and the rest go on waiting in their order. No other queue and no
/// socket changes; the socket is filed under the port of its address. A
/// descriptor that is not bound gives 0, and nothing changes.
pub proof fn taking_takes_the_front_of_one_queue(s: SocketsView, fd: SockFd)
    ensures
        !s.connections.entries.contains_key(fd) ==> s.next_connection(fd) == 0
            && s.connection_taken(fd) == s,
        s.connections.entries.contains_key(fd) && s.waiting(fd).len() > 0 ==> {
            let after = s.connection_taken(fd);
            let (filed_port, socket) = s.connections.entries[fd];
            let port = socket.address.port();
            &&& s.waiting(fd) == seq![s.next_connection(fd)] + after.waiting(fd)
            &&& after.queues.remove(fd) == s.queues.remove(fd)
            &&& after.connections.entries == s.connections.entries.insert(fd, (port, socket))
            &&& after.connections.index == s.connections.index.remove(filed_port).insert(port, fd)
            &&& s.well_filed() ==> after.connections.entries == s.connections.entries
            &&& after.new_sockets == s.new_sockets
            &&& after.data == s.data
            &&& after.pending == s.pending
        },
{
    if s.connections.entries.contains_key(fd) && s.waiting(fd).len() > 0 {
        let after = s.connection_taken(fd);
        let (filed_port, socket) = s.connections.entries[fd];
        let port = socket.address.port();
        assert(s.waiting(fd) =~= seq![s.next_connection(fd)] + after.waiting(fd));
        assert(after.queues.remove(fd) =~= s.queues.remove(fd));
        assert(after.connections.entries =~= s.connections.entries.insert(fd, (port, socket)));
        if s.well_filed() {
            assert(after.connections.entries =~= s.connections.entries);
        }
    }
}

/// A connection to a port that leads to a bound socket waits at the end of that
/// socket's queue, and one byte is written to that socket. No other queue and no
/// socket changes.
pub proof fn announcing_adds_to_the_end_of_one_queue(s: SocketsView, id: ConnectionId, port: Port)
    requires
        s.well_filed(),
        s.connections.index.contains_key(port),
        s.connections.entries.contains_key(s.connections.index[port]),
    ensures
        ({
            let fd = s.connections.index[port];
            let own_port = s.connections.entries[fd].1.address.port();
            let after = s.connection_opened(id, port);
            &&& after.waiting(fd) == s.waiting(fd).push(id)
            &&& after.queues.remove(fd) == s.queues.remove(fd)
            &&& s.wakeup(port) == Some(
                StreamWriteView {
                    stream: s.connections.entries[fd].1.write_socket,
                    bytes: seq![97u8],
                    clear: false,
                },
            )
            &&& after.connections.entries == s.connections.entries
            &&& after.connections.index == s.connections.index.remove(port).insert(own_port, fd)
            &&& after.new_sockets == s.new_sockets
            &&& after.data == s.data
            &&& after.pending == s.pending
        }),
{
    let fd = s.connections.index[port];
    let own_port = s.connections.entries[fd].1.address.port();
    let after = s.connection_opened(id, port);
    assert(after.queues.remove(fd) =~= s.queues.remove(fd));
    assert(after.connections.entries =~= s.connections.entries);
    assert(after.connections.index =~= s.connections.index.remove(port).insert(own_port, fd));
}

/// A connection to a port that leads to no bound socket waits nowhere and is
/// written nowhere; at most the port itself is forgotten.
pub proof fn announcing_without_a_socket_does_nothing(
    s: SocketsView,
    id: ConnectionId,
    port: Port,
)
    requires
        !(s.connections.index.contains_key(port) && s.connections.entries.contains_key(
            s.connections.index[port],
        )),
    ensures
        ({
            let after = s.connection_opened(id, port);
            &&& s.wakeup(port) is None
            &&& after.queues == s.queues
            &&& after.connections.entries == s.connections.entries
            &&& after.connections.index == s.connections.index.remove(port)
            &&& after.new_sockets == s.new_sockets
            &&& after.data == s.data
            &&& after.pending == s.pending
        }),
{
    let after = s.connection_opened(id, port);
    assert(after.connections.entries =~= s.connections.entries);
    assert(after.connections.index =~= s.connections.index.remove(port));
}

/// A data socket made of a pair belongs to one connection, reads from the pair's
/// read end, is fed through its write end, and has the address that it was given.
/// What was kept for the connection is written to it first, and is kept no more.
/// Every other data socket, and what is kept for every other connection, stays.
pub proof fn serving_adds_one_data_socket(
    s: SocketsView,
    pair: SocketPair,
    id: ConnectionId,
    address: SocketAddr,
)
    ensures
        ({
            let fd = pair.read_socket.raw_fd;
            let after = s.data_created(pair, id, address);
            let socket = after.data.entries[fd].1;
            &&& after.data.entries.contains_key(fd)
            &&& after.data.entries[fd].0 == id
            &&& socket.connection_id == id
            &&& socket.read_socket == pair.read_socket
            &&& socket.write_socket == pair.write_socket
            &&& socket.address == address
            &&& after.data.index.contains_pair(id, fd)
            &&& after.data.entries.remove(fd) == s.data.entries.remove(fd)
            &&& after.data.index.remove(id) == s.data.index.remove(id)
            &&& after.pending == s.pending.remove(id)
            &&& after.new_sockets == s.new_sockets
            &&& after.connections == s.connections
            &&& after.queues == s.queues
        }),
        s.pending.contains_key(id) ==> s.backlog(pair, id) == Some(
            StreamWriteView {
                stream: pair.write_socket,
                bytes: s.pending[id],
                clear: false,
            },
        ),
        !s.pending.contains_key(id) ==> s.backlog(pair, id) is None,
{
    let fd = pair.read_socket.raw_fd;
    let after = s.data_created(pair, id, address);
    assert(after.data.entries.remove(fd) =~= s.data.entries.remove(fd));
    assert(after.data.index.remove(id) =~= s.data.index.remove(id));
}

/// Data on a connection with a data socket is written to that socket whole, with
/// what came back on it thrown away, and the registry stays as it is but for the
/// filing of that socket. Data on any other connection is written nowhere, and
/// goes behind what is kept for it; nothing else changes, but that a connection
/// that led nowhere is forgotten.
pub proof fn data_is_delivered_or_kept(s: SocketsView, id: ConnectionId, data: Seq<u8>)
    requires
        s.well_filed(),
    ensures
        ({
            let after = s.data_received(id, data);
            let served = s.data.index.contains_key(id) && s.data.entries.contains_key(
                s.data.index[id],
            );
            &&& served ==> {
                let fd = s.data.index[id];
                let own_id = s.data.entries[fd].1.connection_id;
                &&& s.delivery(id, data) == Some(
                    StreamWriteView {
                        stream: s.data.entries[fd].1.write_socket,
                        bytes: data,
                        clear: true,
                    },
                )
                &&& after.data.entries == s.data.entries
                &&& after.data.index == s.data.index.remove(id).insert(own_id, fd)
                &&& after.pending == s.pending
            }
            &&& !served ==> {
                &&& s.delivery(id, data) is None
                &&& after.pending.contains_key(id)
                &&& s.pending.contains_key(id) ==> after.pending[id] == s.pending[id] + data
                &&& !s.pending.contains_key(id) ==> after.pending[id] == data
                &&& after.pending.remove(id) == s.pending.remove(id)
                &&& after.data.entries == s.data.entries
                &&& after.data.index == s.data.index.remove(id)
            }
            &&& after.new_sockets == s.new_sockets
            &&& after.connections == s.connections
            &&& after.queues == s.queues
        }),
{
    let after = s.data_received(id, data);
    if s.data.index.contains_key(id) && s.data.entries.contains_key(s.data.index[id]) {
        let fd = s.data.index[id];
        let own_id = s.data.entries[fd].1.connection_id;
        assert(after.data.entries =~= s.data.entries);
        assert(after.data.index =~= s.data.index.remove(id).insert(own_id, fd));
    } else {
        assert(s.kept(id) + data =~= if s.pending.contains_key(id) {
            s.pending[id] + data
        } else {
            data
        });
        assert(after.pending.remove(id) =~= s.pending.remove(id));
        assert(after.data.entries =~= s.data.entries);
        assert(after.data.index =~= s.data.index.remove(id));
    }
}

/// The end of a connection forgets its data socket, and nothing else.
pub proof fn closing_forgets_one_data_socket(s: SocketsView, id: ConnectionId)
    requires
        s.data.index.contains_key(id),
    ensures
        ({
            let after = s.connection_closed(id);
            &&& after.data.entries == s.data.entries.remove(s.data.index[id])
            &&& after.data.index == s.data.index.remove(id)
            &&& after.new_sockets == s.new_sockets
            &&& after.connections == s.connections
            &&& after.queues == s.queues
            &&& after.pending == s.pending
        }),
{
}

/// Accepting a connection leaves those that were accepted before in place: each
/// still gets its data on its own stream, and its descriptor has its address. What
/// is kept for the others, what waits on other sockets, and the sockets that are
/// new or bound stay too.
pub proof fn accepting_leaves_other_connections_in_place(
    s: SocketsView,
    fd: SockFd,
    pair: SocketPair,
    other_id: ConnectionId,
    other_fd: SockFd,
    data: Seq<u8>,
)
    requires
        s.connections.entries.contains_key(fd),
        s.waiting(fd).len() > 0,
        other_id != s.waiting(fd)[0],
        s.data.index.contains_key(other_id) ==> s.data.index[other_id]
            != pair.read_socket.raw_fd,
    ensures
        ({
            let after = s.accepted(fd, pair);
            let new_fd = pair.read_socket.raw_fd;
            let id = s.waiting(fd)[0];
            &&& after.delivery(other_id, data) == s.delivery(other_id, data)
            &&& after.data.get_alt(other_id) == s.data.get_alt(other_id)
            &&& other_fd != new_fd ==> after.data_address(other_fd) == s.data_address(other_fd)
            &&& after.data.entries.remove(new_fd) == s.data.entries.remove(new_fd)
            &&& after.data.index.remove(id) == s.data.index.remove(id)
            &&& after.kept(other_id) == s.kept(other_id)
            &&& after.pending.remove(id) == s.pending.remove(id)
            &&& after.queues.remove(fd) == s.queues.remove(fd)
            &&& other_fd != fd ==> after.waiting(other_fd) == s.waiting(other_fd)
            &&& after.new_sockets == s.new_sockets
            &&& s.well_filed() ==> after.connections.entries == s.connections.entries
            &&& after.connection_address(other_fd) == s.connection_address(other_fd)
        }),
{
    let after = s.accepted(fd, pair);
    let id = s.waiting(fd)[0];
    let address = s.connections.entries[fd].1.address;
    taking_takes_the_front_of_one_queue(s, fd);
    serving_adds_one_data_socket(s.connection_taken(fd), pair, id, address);
    assert(after.queues.remove(fd) =~= s.queues.remove(fd));
    assert(after.pending.remove(id) =~= s.pending.remove(id));
}

/// Accepting is taking the connection that waits longest, and serving it with the
/// address of the bound socket: nothing happens besides.
pub proof fn accepting_is_taking_and_serving(s: SocketsView, fd: SockFd, pair: SocketPair)
    requires
        s.connections.entries.contains_key(fd),
        s.waiting(fd).len() > 0,
    ensures
        s.next_connection(fd) == s.waiting(fd)[0],
        s.accepted(fd, pair) == s.connection_taken(fd).data_created(
            pair,
            s.waiting(fd)[0],
            s.connections.entries[fd].1.address,
        ),
{
}

/// Two connections that were accepted one after the other, on descriptors of
/// their own, are served side by side: data for the first goes to the first
/// stream and data for the second to the second, and both descriptors have the
/// address of the bound socket.
pub proof fn accepted_connections_are_served_side_by_side(
    s: SocketsView,
    fd: SockFd,
    first: SocketPair,
    second: SocketPair,
    data: Seq<u8>,
)
    requires
        s.connections.entries.contains_key(fd),
        s.waiting(fd).len() > 1,
        s.waiting(fd)[0] != s.waiting(fd)[1],
        first.read_socket.raw_fd != second.read_socket.raw_fd,
    ensures
        ({
            let after = s.accepted(fd, first).accepted(fd, second);
            let address = s.connections.entries[fd].1.address;
            &&& after.delivery(s.waiting(fd)[0], data) == Some(
                StreamWriteView { stream: first.write_socket, bytes: data, clear: true },
            )
            &&& after.delivery(s.waiting(fd)[1], data) == Some(
                StreamWriteView { stream: second.write_socket, bytes: data, clear: true },
            )
            &&& after.data_address(first.read_socket.raw_fd) == Some(address)
            &&& after.data_address(second.read_socket.raw_fd) == Some(address)
            &&& after.waiting(fd) == s.waiting(fd).skip(2)
        }),
{
    let mid = s.accepted(fd, first);
    taking_takes_the_front_of_one_queue(s, fd);
    assert(mid.waiting(fd) =~= s.waiting(fd).skip(1));
    assert(mid.accepted(fd, second).waiting(fd) =~= s.waiting(fd).skip(2));
}

/// Data sockets stand side by side however they were made: one that is made, fed
/// or closed does not disturb the data of another connection.
pub proof fn connections_do_not_disturb_each_other(
    s: SocketsView,
    id: ConnectionId,
    other: ConnectionId,
    pair: SocketPair,
    address: SocketAddr,
    data: Seq<u8>,
    other_data: Seq<u8>,
)
    requires
        s.well_filed(),
        s.data.leads_home(id),
        s.data.leads_home(other),
        id != other,
    ensures
        s.data_received(id, data).delivery(other, other_data) == s.delivery(other, other_data),
        s.data_received(id, data).kept(other) == s.kept(other),
        s.connection_closed(id).delivery(other, other_data) == s.delivery(other, other_data),
        s.connection_closed(id).kept(other) == s.kept(other),
        s.data_created(pair, id, address).kept(other) == s.kept(other),
        !(s.data.index.contains_key(other) && s.data.index[other] == pair.read_socket.raw_fd)
            ==> s.data_created(pair, id, address).delivery(other, other_data) == s.delivery(
            other,
            other_data,
        ),
{
}

/// A write says which stream it is for, which bytes it writes, and whether what came
/// back is thrown away.
pub proof fn writes_say_what_they_hold(write: StreamWrite)
    ensures
        write_view(Some(write)) == Some(
            StreamWriteView {
                stream: write.stream,
                bytes: write.bytes@,
                clear: write.clear,
            },
        ),
        write_view(None) is None,
{
}

/// Bytes hold an internet address exactly if their first two say so, and its
/// system's form keeps every byte that says something of it: of an IPv4 address
/// the first eight of sixteen, of an IPv6 address all twenty-eight. Bytes that are
/// missing are zeros. The port is in the third and the fourth.
pub proof fn system_form_keeps_what_is_said(os_address: Seq<u8>, at: int)
    requires
        0 <= at < 28,
    ensures
        ({
            let byte = |i: int|
                if i < os_address.len() {
                    os_address[i]
                } else {
                    0u8
                };
            let v4 = byte(0) == 2 && byte(1) == 0;
            let v6 = byte(0) == 10 && byte(1) == 0;
            let form = os_form(os_address);
            &&& form is Some <==> v4 || v6
            &&& v4 ==> form->0.len() == 16
            &&& v6 ==> form->0.len() == 28
            &&& v4 && at < 8 ==> form->0[at] == byte(at)
            &&& v4 && 8 <= at < 16 ==> form->0[at] == 0
            &&& v6 ==> form->0[at] == byte(at)
            &&& port_number(os_address) == byte(2) * 256 + byte(3)
        }),
{
}

} // verus!
