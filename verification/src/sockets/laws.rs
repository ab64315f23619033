//! What holds of the socket registry whatever happens to it.

use vstd::prelude::*;

use crate::sockets::address::{os_form, port_number, Port, SocketAddr};
use crate::sockets::model::{wakeup_bytes, SocketsView};
use crate::sockets::types::{
    ConnectionId, ConnectionState, SockFd, SocketPair, StreamWriteView,
};

verus! {

/// A registry starts with every socket filed where it belongs, and every
/// operation keeps it so.
pub proof fn sockets_stay_well_filed(
    s: SocketsView,
    pair: SocketPair,
    fd: SockFd,
    address: SocketAddr,
    state: ConnectionState,
    id: ConnectionId,
    port: Port,
    data: Seq<u8>,
)
    requires
        s.well_filed(),
    ensures
        SocketsView::empty().well_filed(),
        s.created(pair).well_filed(),
        s.bound(fd, address).well_filed(),
        s.entered(fd, state).well_filed(),
        s.connection_taken(fd).well_filed(),
        s.connection_opened(id, port).well_filed(),
        s.data_created(pair, id, address).well_filed(),
        s.accepted(fd, pair).well_filed(),
        s.data_received(id, data).well_filed(),
        s.connection_closed(id).well_filed(),
{
}

/// A registry starts with ports and connections that lead to the sockets filed
/// under them, and every operation keeps it so, as long as no descriptor is
/// given out again while another port or connection leads to it.
pub proof fn indexes_stay_in_step(
    s: SocketsView,
    pair: SocketPair,
    fd: SockFd,
    address: SocketAddr,
    state: ConnectionState,
    id: ConnectionId,
    port: Port,
    data: Seq<u8>,
)
    requires
        s.well_filed(),
        s.in_step(),
    ensures
        SocketsView::empty().in_step(),
        s.created(pair).in_step(),
        s.new_sockets.contains_key(fd) ==> s.connections.reached_only_by(fd, address.port())
            ==> s.bound(fd, address).in_step(),
        !s.new_sockets.contains_key(fd) ==> s.bound(fd, address).in_step(),
        s.entered(fd, state).in_step(),
        s.connection_taken(fd).in_step(),
        s.connection_opened(id, port).in_step(),
        s.data.reached_only_by(pair.read_socket.raw_fd, id) ==> s.data_created(
            pair,
            id,
            address,
        ).in_step(),
        s.data.reached_only_by(pair.read_socket.raw_fd, s.next_connection(fd)) ==> s.accepted(
            fd,
            pair,
        ).in_step(),
        s.data_received(id, data).in_step(),
        s.connection_closed(id).in_step(),
{
    assert(s.connections.leads_home(port));
    assert(s.data.leads_home(id));
    assert forall|alt: u16| s.connection_taken(fd).connections.leads_home(alt) by {
        assert(s.connections.leads_home(alt));
    }
    assert forall|alt: u16| s.connection_opened(id, port).connections.leads_home(alt) by {
        assert(s.connections.leads_home(alt));
    }
    assert forall|alt: u16| s.entered(fd, state).connections.leads_home(alt) by {
        assert(s.connections.leads_home(alt));
    }
    assert forall|alt: u16|
        s.connections.reached_only_by(fd, address.port()) implies s.bound(
        fd,
        address,
    ).connections.leads_home(alt) by {
        assert(s.connections.leads_home(alt));
    }
    assert forall|alt: u16| s.data_received(id, data).data.leads_home(alt) by {
        assert(s.data.leads_home(alt));
    }
    assert forall|alt: u16| s.connection_closed(id).data.leads_home(alt) by {
        assert(s.data.leads_home(alt));
        assert(alt != id && s.data.index.contains_key(alt) && s.data.index.contains_key(id)
            ==> s.data.index[alt] != s.data.index[id]);
    }
    let read_fd = pair.read_socket.raw_fd;
    assert forall|alt: u16| s.data.reached_only_by(read_fd, id) implies s.data_created(
        pair,
        id,
        address,
    ).data.leads_home(alt) by {
        assert(s.data.leads_home(alt));
    }
    assert forall|alt: u16|
        s.data.reached_only_by(read_fd, s.next_connection(fd)) implies s.accepted(
        fd,
        pair,
    ).data.leads_home(alt) by {
        assert(s.data.leads_home(alt));
    }
}

/// A socket that was just bound is the one that connections to its port are
/// announced on, and it is not listening yet.
pub proof fn bound_socket_serves_its_port(s: SocketsView, fd: SockFd, address: SocketAddr)
    requires
        s.new_sockets.contains_key(fd),
    ensures
        s.bound(fd, address).wakeup(address.port()) == Some(
            StreamWriteView {
                stream: s.new_sockets[fd].write_socket,
                bytes: wakeup_bytes(),
                clear: false,
            },
        ),
        s.bound(fd, address).connection_address(fd) == Some(address),
        s.bound(fd, address).can_enter(fd, ConnectionState::Listening),
        !s.bound(fd, address).new_sockets.contains_key(fd),
{
}

/// A socket can be bound once: a second attempt changes nothing.
pub proof fn bound_socket_is_not_bound_again(
    s: SocketsView,
    fd: SockFd,
    first: SocketAddr,
    second: SocketAddr,
)
    ensures
        s.bound(fd, first).bound(fd, second) == s.bound(fd, first),
{
}

/// A socket that went over to a state cannot do so again, and keeps its
/// address and its port.
pub proof fn state_is_entered_once(s: SocketsView, fd: SockFd, state: ConnectionState, port: Port)
    requires
        s.can_enter(fd, state),
    ensures
        !s.entered(fd, state).can_enter(fd, state),
        s.entered(fd, state).entered(fd, state) == s.entered(fd, state),
        s.entered(fd, state).connection_address(fd) == s.connection_address(fd),
        s.entered(fd, state).wakeup(port) == s.wakeup(port),
{
}

/// The registry after connections to a port arrived one after the other.
pub open spec fn all_opened(s: SocketsView, ids: Seq<ConnectionId>, port: Port) -> SocketsView
    decreases ids.len(),
{
    if ids.len() == 0 {
        s
    } else {
        all_opened(s, ids.drop_last(), port).connection_opened(ids.last(), port)
    }
}

/// The registry after a number of connections were taken from a socket.
pub open spec fn all_taken(s: SocketsView, fd: SockFd, count: nat) -> SocketsView
    decreases count,
{
    if count == 0 {
        s
    } else {
        all_taken(s, fd, (count - 1) as nat).connection_taken(fd)
    }
}

proof fn arrivals_queue_up(s: SocketsView, fd: SockFd, port: Port, ids: Seq<ConnectionId>)
    requires
        s.well_filed(),
        s.connections.index.contains_key(port),
        s.connections.index[port] == fd,
        s.connections.leads_home(port),
    ensures
        all_opened(s, ids, port).connections == s.connections,
        all_opened(s, ids, port).waiting(fd) == s.waiting(fd) + ids,
    decreases ids.len(),
{
    if ids.len() > 0 {
        let before = all_opened(s, ids.drop_last(), port);
        arrivals_queue_up(s, fd, port, ids.drop_last());
        assert(before.connection_opened(ids.last(), port).connections =~= s.connections);
        assert(ids =~= ids.drop_last().push(ids.last()));
        assert(s.waiting(fd) + ids =~= (s.waiting(fd) + ids.drop_last()).push(ids.last()));
    } else {
        assert(s.waiting(fd) + ids =~= s.waiting(fd));
    }
}

proof fn taking_drops_the_oldest(s: SocketsView, fd: SockFd, count: nat)
    requires
        s.connections.get(fd) is Some,
        count <= s.waiting(fd).len(),
    ensures
        all_taken(s, fd, count).connections.get(fd) == s.connections.get(fd),
        all_taken(s, fd, count).waiting(fd) == s.waiting(fd).skip(count as int),
    decreases count,
{
    if count > 0 {
        taking_drops_the_oldest(s, fd, (count - 1) as nat);
        assert(s.waiting(fd).skip(count - 1).drop_first() =~= s.waiting(fd).skip(count as int));
    } else {
        assert(s.waiting(fd).skip(0) =~= s.waiting(fd));
    }
}

/// Connections are accepted in the order of their arrival: however many arrive
/// on a port, behind those that wait already, the one that is taken after
/// `count` others is the one that arrived after `count` others.
pub proof fn connections_are_taken_in_order(
    s: SocketsView,
    fd: SockFd,
    port: Port,
    ids: Seq<ConnectionId>,
    count: nat,
)
    requires
        s.well_filed(),
        s.connections.index.contains_key(port),
        s.connections.index[port] == fd,
        s.connections.leads_home(port),
        count < s.waiting(fd).len() + ids.len(),
    ensures
        all_opened(s, ids, port).waiting(fd) == s.waiting(fd) + ids,
        all_taken(all_opened(s, ids, port), fd, count).next_connection(fd) == (s.waiting(fd)
            + ids)[count as int],
{
    arrivals_queue_up(s, fd, port, ids);
    taking_drops_the_oldest(all_opened(s, ids, port), fd, count);
}

/// Each connection to a bound port adds one to the connections that wait, and
/// asks for one byte on the socket's stream. Other sockets see nothing of it.
pub proof fn one_byte_per_connection(
    s: SocketsView,
    fd: SockFd,
    other: SockFd,
    port: Port,
    id: ConnectionId,
)
    requires
        s.well_filed(),
        s.connections.get_alt(port) is Some,
        s.connections.index[port] == fd,
        other != fd,
    ensures
        s.connection_opened(id, port).waiting(fd).len() == s.waiting(fd).len() + 1,
        s.wakeup(port) matches Some(write) && write.bytes.len() == 1,
        s.connection_opened(id, port).waiting(other) == s.waiting(other),
{
}

/// A connection to a port that no socket is bound to is dropped: nothing is
/// written and nothing waits for it.
pub proof fn unbound_port_refuses(s: SocketsView, port: Port, id: ConnectionId)
    requires
        !s.connections.index.contains_key(port),
    ensures
        s.wakeup(port) is None,
        s.connection_opened(id, port) == s,
{
}

/// Neither an arriving connection nor arriving data moves a socket.
pub proof fn arrivals_leave_sockets_in_place(
    s: SocketsView,
    id: ConnectionId,
    port: Port,
    data: Seq<u8>,
)
    requires
        s.well_filed(),
    ensures
        s.connections.leads_home(port) ==> s.connection_opened(id, port).connections
            == s.connections,
        s.data.leads_home(id) ==> s.data_received(id, data).data == s.data,
        s.data.leads_home(id) && s.data.get_alt(id) is Some ==> s.data_received(id, data) == s,
{
    if s.connections.leads_home(port) {
        assert(s.connection_opened(id, port).connections =~= s.connections);
    }
    if s.data.leads_home(id) {
        assert(s.data_received(id, data).data =~= s.data);
    }
}

/// Data that comes before its connection is accepted is not lost: the data
/// socket gets all of it first, once and in the order of its arrival, and what
/// comes later goes to the same socket. In how many pieces it comes makes no
/// difference.
pub proof fn early_data_reaches_the_data_socket(
    s: SocketsView,
    id: ConnectionId,
    early: Seq<u8>,
    later: Seq<u8>,
    pair: SocketPair,
    address: SocketAddr,
)
    requires
        s.data.get_alt(id) is None,
    ensures
        s.delivery(id, early) is None,
        ({
            let held = s.data_received(id, early);
            let served = held.data_created(pair, id, address);
            &&& held.backlog(pair, id) == Some(
                StreamWriteView {
                    stream: pair.write_socket,
                    bytes: s.kept(id) + early,
                    clear: false,
                },
            )
            &&& !served.pending.contains_key(id)
            &&& served.delivery(id, later) == Some(
                StreamWriteView { stream: pair.write_socket, bytes: later, clear: true },
            )
            &&& held.data_received(id, later) == s.data_received(id, early + later)
        }),
{
    let held = s.data_received(id, early);
    assert(s.kept(id) + early + later =~= s.kept(id) + (early + later));
    assert(held.data_received(id, later) =~= s.data_received(id, early + later));
}

/// What is kept for a connection is touched by data and by the data socket of
/// that connection alone.
pub proof fn kept_data_waits_for_its_connection(
    s: SocketsView,
    id: ConnectionId,
    other: ConnectionId,
    any: ConnectionId,
    pair: SocketPair,
    fd: SockFd,
    address: SocketAddr,
    state: ConnectionState,
    port: Port,
    data: Seq<u8>,
)
    requires
        s.pending.contains_key(id),
        other != id,
    ensures
        s.created(pair).pending == s.pending,
        s.bound(fd, address).pending == s.pending,
        s.entered(fd, state).pending == s.pending,
        s.connection_taken(fd).pending == s.pending,
        s.connection_opened(any, port).pending == s.pending,
        s.connection_closed(any).pending == s.pending,
        s.data_created(pair, other, address).pending.contains_pair(id, s.pending[id]),
        s.data_received(other, data).pending.contains_pair(id, s.pending[id]),
{
}

/// A connection that ended has no socket any more: its descriptor has no
/// address, and data that still comes is kept for a data socket to come.
pub proof fn closed_connection_is_gone(s: SocketsView, id: ConnectionId, data: Seq<u8>)
    requires
        s.data.get_alt(id) is Some,
    ensures
        s.connection_closed(id).data.get_alt(id) is None,
        s.connection_closed(id).data_address(s.data.index[id]) is None,
        s.connection_closed(id).delivery(id, data) is None,
        s.connection_closed(id).data_received(id, data).kept(id) == s.kept(id) + data,
{
}

/// Accepting takes the connection that waits longest, hands it what was kept
/// for it, and gives its data socket the address of the bound socket.
pub proof fn accepting_serves_the_oldest_connection(
    s: SocketsView,
    fd: SockFd,
    pair: SocketPair,
    data: Seq<u8>,
)
    requires
        s.connections.get(fd) is Some,
        s.waiting(fd).len() > 0,
    ensures
        s.accepted(fd, pair).waiting(fd) == s.waiting(fd).drop_first(),
        s.accepted(fd, pair).data_address(pair.read_socket.raw_fd) == s.connection_address(fd),
        s.accepted(fd, pair).delivery(s.waiting(fd)[0], data) == Some(
            StreamWriteView { stream: pair.write_socket, bytes: data, clear: true },
        ),
        !s.accepted(fd, pair).pending.contains_key(s.waiting(fd)[0]),
{
}

/// The system's form of an address, read again, gives the same address with the
/// same port, and bytes behind it do not matter.
pub proof fn system_form_is_read_back(os_address: Seq<u8>, behind: Seq<u8>)
    requires
        os_form(os_address) is Some,
    ensures
        os_form(os_form(os_address)->0 + behind) == os_form(os_address),
        port_number(os_form(os_address)->0 + behind) == port_number(os_address),
{
    let form = os_form(os_address)->0;
    assert(os_form(form + behind)->0 =~= form);
}

} // verus!
