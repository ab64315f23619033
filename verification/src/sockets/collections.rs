//! The maps with two keys and the queues that the socket registry is made of.
//! They come from the crates `multi_map` and `queues`; what is assumed of them
//! stands here.

use multi_map::MultiMap;
use queues::{IsQueue, Queue};
use std::hash::Hash;
use vstd::prelude::*;

use crate::sockets::types::{ConnectionSocket, DataSocket};

verus! {

/// What a `MultiMap` with descriptors as primary and 16-bit numbers as
/// secondary keys holds: its values with both their keys, and the secondary
/// keys that lead to a primary key. Nothing keeps the two maps in step when a
/// primary key is inserted again under another secondary key.
#[verifier::ext_equal]
pub struct Indexed<V> {
    pub entries: Map<i32, (u16, V)>,
    pub index: Map<u16, i32>,
}

impl<V> Indexed<V> {
    /// The map without values.
    pub open spec fn empty() -> Self {
        Indexed { entries: Map::empty(), index: Map::empty() }
    }

    /// The value under a primary key.
    pub open spec fn get(self, key: i32) -> Option<V> {
        if self.entries.contains_key(key) {
            Some(self.entries[key].1)
        } else {
            None
        }
    }

    /// The value that a secondary key leads to.
    pub open spec fn get_alt(self, alt: u16) -> Option<V> {
        if self.index.contains_key(alt) {
            self.get(self.index[alt])
        } else {
            None
        }
    }

    /// The map after `value` was put in under both keys.
    pub open spec fn insert(self, key: i32, alt: u16, value: V) -> Self {
        Indexed {
            entries: self.entries.insert(key, (alt, value)),
            index: self.index.insert(alt, key),
        }
    }

    /// The map after the removal of a primary key, and of the secondary key
    /// that was stored with it.
    pub open spec fn remove(self, key: i32) -> Self {
        if self.entries.contains_key(key) {
            Indexed {
                entries: self.entries.remove(key),
                index: self.index.remove(self.entries[key].0),
            }
        } else {
            self
        }
    }

    /// The map after the removal of a secondary key, and of the primary key
    /// that it led to.
    pub open spec fn remove_alt(self, alt: u16) -> Self {
        if self.index.contains_key(alt) {
            Indexed {
                entries: self.entries.remove(self.index[alt]),
                index: self.index.remove(alt),
            }
        } else {
            self
        }
    }

    /// The map after the value under a primary key was overwritten in place.
    pub open spec fn replace(self, key: i32, value: V) -> Self {
        Indexed {
            entries: self.entries.insert(key, (self.entries[key].0, value)),
            index: self.index,
        }
    }

    /// A secondary key leads nowhere, or to a value that is stored with it.
    pub open spec fn leads_home(self, alt: u16) -> bool {
        self.index.contains_key(alt) ==> {
            &&& self.entries.contains_key(self.index[alt])
            &&& self.entries[self.index[alt]].0 == alt
        }
    }

    /// Every secondary key that leads anywhere leads to a value that is stored
    /// with it.
    pub open spec fn in_step(self) -> bool {
        forall|alt: u16| #[trigger] self.leads_home(alt)
    }

    /// No secondary key but one leads to a primary key.
    pub open spec fn reached_only_by(self, key: i32, alt: u16) -> bool {
        forall|other: u16| #[trigger]
            self.index.contains_key(other) && self.index[other] == key ==> other == alt
    }
}

#[verifier::external_type_specification]
#[verifier::external_body]
#[verifier::reject_recursive_types(K1)]
#[verifier::reject_recursive_types(K2)]
#[verifier::reject_recursive_types(V)]
pub struct ExMultiMap<K1: Eq + Hash, K2: Eq + Hash, V>(MultiMap<K1, K2, V>);

/// The bound sockets of a `MultiMap`, each with its two keys.
pub uninterp spec fn connection_entries(
    map: MultiMap<i32, u16, ConnectionSocket>,
) -> Map<i32, (u16, ConnectionSocket)>;

/// The secondary keys of a `MultiMap` of bound sockets, with the primary keys
/// that they lead to.
pub uninterp spec fn connection_index(
    map: MultiMap<i32, u16, ConnectionSocket>,
) -> Map<u16, i32>;

/// What a `MultiMap` of bound sockets holds.
pub open spec fn connections_view(
    map: MultiMap<i32, u16, ConnectionSocket>,
) -> Indexed<ConnectionSocket> {
    Indexed { entries: connection_entries(map), index: connection_index(map) }
}

/// `MultiMap::new`: a map without values and without keys.
#[verifier::external_body]
pub(crate) fn new_connections() -> (map: MultiMap<i32, u16, ConnectionSocket>)
    ensures
        connection_entries(map) == Indexed::<ConnectionSocket>::empty().entries,
        connection_index(map) == Indexed::<ConnectionSocket>::empty().index,
{
    MultiMap::new()
}

/// `MultiMap::insert`: stores the socket and the port under the descriptor,
/// and makes the port lead to the descriptor. A port that the descriptor had
/// before still leads to it.
#[verifier::external_body]
pub(crate) fn insert_connection(
    map: &mut MultiMap<i32, u16, ConnectionSocket>,
    fd: i32,
    port: u16,
    socket: ConnectionSocket,
)
    ensures
        connection_entries(*final(map)) == connection_entries(*old(map)).insert(
            fd,
            (port, socket),
        ),
        connection_index(*final(map)) == connection_index(*old(map)).insert(port, fd),
{
    map.insert(fd, port, socket);
}

/// `MultiMap::get`: the socket that is stored under the descriptor.
#[verifier::external_body]
pub(crate) fn get_connection<'a>(
    map: &'a MultiMap<i32, u16, ConnectionSocket>,
    fd: &i32,
) -> (socket: Option<&'a ConnectionSocket>)
    ensures
        match socket {
            Some(s) => connection_entries(*map).contains_key(*fd) && connection_entries(
                *map,
            )[*fd].1 == *s,
            None => !connection_entries(*map).contains_key(*fd),
        },
{
    map.get(fd)
}

/// `MultiMap::get_mut`: the socket that is stored under the descriptor, to be
/// changed in place. Keys and other sockets stay as they are.
#[verifier::external_body]
pub(crate) fn get_connection_mut<'a>(
    map: &'a mut MultiMap<i32, u16, ConnectionSocket>,
    fd: &i32,
) -> (socket: Option<&'a mut ConnectionSocket>)
    ensures
        connection_index(*final(map)) == connection_index(*old(map)),
        match socket {
            Some(s) => {
                &&& connection_entries(*old(map)).contains_key(*fd)
                &&& *s == connection_entries(*old(map))[*fd].1
                &&& connection_entries(*final(map)) == connection_entries(*old(map)).insert(
                    *fd,
                    (connection_entries(*old(map))[*fd].0, *final(s)),
                )
            },
            None => {
                &&& !connection_entries(*old(map)).contains_key(*fd)
                &&& connection_entries(*final(map)) == connection_entries(*old(map))
            },
        },
{
    map.get_mut(fd)
}

/// `MultiMap::remove`: takes out the socket under the descriptor, and the port
/// that was stored with it no longer leads anywhere.
#[verifier::external_body]
pub(crate) fn remove_connection(
    map: &mut MultiMap<i32, u16, ConnectionSocket>,
    fd: &i32,
) -> (socket: Option<ConnectionSocket>)
    ensures
        match socket {
            Some(s) => {
                &&& connection_entries(*old(map)).contains_key(*fd)
                &&& s == connection_entries(*old(map))[*fd].1
                &&& connection_entries(*final(map)) == connection_entries(*old(map)).remove(*fd)
                &&& connection_index(*final(map)) == connection_index(*old(map)).remove(
                    connection_entries(*old(map))[*fd].0,
                )
            },
            None => {
                &&& !connection_entries(*old(map)).contains_key(*fd)
                &&& connection_entries(*final(map)) == connection_entries(*old(map))
                &&& connection_index(*final(map)) == connection_index(*old(map))
            },
        },
{
    map.remove(fd)
}

/// `MultiMap::remove_alt`: takes out the port, and the socket under the
/// descriptor that it leads to, if there is one.
#[verifier::external_body]
pub(crate) fn remove_connection_by_port(
    map: &mut MultiMap<i32, u16, ConnectionSocket>,
    port: &u16,
) -> (socket: Option<ConnectionSocket>)
    ensures
        socket == connections_view(*old(map)).get_alt(*port),
        connection_entries(*final(map)) == connections_view(*old(map)).remove_alt(*port).entries,
        connection_index(*final(map)) == connections_view(*old(map)).remove_alt(*port).index,
{
    map.remove_alt(port)
}

/// The data sockets of a `MultiMap`, each with its two keys.
pub uninterp spec fn data_entries(
    map: MultiMap<i32, u16, DataSocket>,
) -> Map<i32, (u16, DataSocket)>;

/// The secondary keys of a `MultiMap` of data sockets, with the primary keys
/// that they lead to.
pub uninterp spec fn data_index(map: MultiMap<i32, u16, DataSocket>) -> Map<u16, i32>;

/// What a `MultiMap` of data sockets holds.
pub open spec fn data_view(map: MultiMap<i32, u16, DataSocket>) -> Indexed<DataSocket> {
    Indexed { entries: data_entries(map), index: data_index(map) }
}

/// `MultiMap::new`: a map without values and without keys.
#[verifier::external_body]
pub(crate) fn new_data() -> (map: MultiMap<i32, u16, DataSocket>)
    ensures
        data_entries(map) == Indexed::<DataSocket>::empty().entries,
        data_index(map) == Indexed::<DataSocket>::empty().index,
{
    MultiMap::new()
}

/// `MultiMap::insert`: stores the socket and the connection's number under the
/// descriptor, and makes the number lead to the descriptor. A number that the
/// descriptor had before still leads to it.
#[verifier::external_body]
pub(crate) fn insert_data(
    map: &mut MultiMap<i32, u16, DataSocket>,
    fd: i32,
    connection_id: u16,
    socket: DataSocket,
)
    ensures
        data_entries(*final(map)) == data_entries(*old(map)).insert(fd, (connection_id, socket)),
        data_index(*final(map)) == data_index(*old(map)).insert(connection_id, fd),
{
    map.insert(fd, connection_id, socket);
}

/// `MultiMap::get`: the socket that is stored under the descriptor.
#[verifier::external_body]
pub(crate) fn get_data<'a>(
    map: &'a MultiMap<i32, u16, DataSocket>,
    fd: &i32,
) -> (socket: Option<&'a DataSocket>)
    ensures
        match socket {
            Some(s) => data_entries(*map).contains_key(*fd) && data_entries(*map)[*fd].1 == *s,
            None => !data_entries(*map).contains_key(*fd),
        },
{
    map.get(fd)
}

/// `MultiMap::get_alt`: the socket under the descriptor that the connection's
/// number leads to.
#[verifier::external_body]
pub(crate) fn get_data_by_id<'a>(
    map: &'a MultiMap<i32, u16, DataSocket>,
    connection_id: &u16,
) -> (socket: Option<&'a DataSocket>)
    ensures
        match socket {
            Some(s) => data_view(*map).get_alt(*connection_id) == Some(*s),
            None => data_view(*map).get_alt(*connection_id) is None,
        },
{
    map.get_alt(connection_id)
}

/// `MultiMap::remove_alt`: takes out the connection's number, and the socket
/// under the descriptor that it leads to, if there is one.
#[verifier::external_body]
pub(crate) fn remove_data_by_id(
    map: &mut MultiMap<i32, u16, DataSocket>,
    connection_id: &u16,
) -> (socket: Option<DataSocket>)
    ensures
        socket == data_view(*old(map)).get_alt(*connection_id),
        data_entries(*final(map)) == data_view(*old(map)).remove_alt(*connection_id).entries,
        data_index(*final(map)) == data_view(*old(map)).remove_alt(*connection_id).index,
{
    map.remove_alt(connection_id)
}

#[verifier::external_type_specification]
#[verifier::external_body]
#[verifier::reject_recursive_types(T)]
pub struct ExQueue<T: Clone>(Queue<T>);

/// The numbers in a `Queue`, oldest first.
pub uninterp spec fn queue_contents(queue: Queue<u16>) -> Seq<u16>;

/// `Queue::new`: a queue without elements.
#[verifier::external_body]
pub(crate) fn new_queue() -> (queue: Queue<u16>)
    ensures
        queue_contents(queue) == Seq::<u16>::empty(),
{
    Queue::new()
}

/// `Queue::add`: appends the number. It reports success on every queue.
#[verifier::external_body]
pub(crate) fn add_to_queue(queue: &mut Queue<u16>, connection_id: u16)
    ensures
        queue_contents(*final(queue)) == queue_contents(*old(queue)).push(connection_id),
{
    let _ = queue.add(connection_id);
}

/// `Queue::remove`: takes out the oldest number; an empty queue has none and
/// stays empty.
#[verifier::external_body]
pub(crate) fn remove_from_queue(queue: &mut Queue<u16>) -> (oldest: Option<u16>)
    ensures
        queue_contents(*old(queue)).len() == 0 ==> oldest is None && queue_contents(*final(queue))
            == queue_contents(*old(queue)),
        queue_contents(*old(queue)).len() > 0 ==> oldest == Some(queue_contents(*old(queue))[0])
            && queue_contents(*final(queue)) == queue_contents(*old(queue)).drop_first(),
{
    queue.remove().ok()
}

/// `Queue::size`: the number of elements.
#[verifier::external_body]
pub(crate) fn queue_size(queue: &Queue<u16>) -> (size: usize)
    ensures
        size == queue_contents(*queue).len(),
{
    queue.size()
}

} // verus!
