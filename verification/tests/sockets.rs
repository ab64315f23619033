use mirrord_layer::sockets::address::SocketAddr;
use mirrord_layer::sockets::registry::Sockets;
use mirrord_layer::sockets::types::{
    ConnectionState, DataSocket, SocketPair, StreamHandle, StreamWrite,
};
use os_socketaddr::OsSocketAddr;

fn pair(read: i32, write: i32) -> SocketPair {
    SocketPair {
        read_socket: StreamHandle { raw_fd: read },
        write_socket: StreamHandle { raw_fd: write },
    }
}

/// An address as the system writes it.
fn os_bytes(text: &str) -> Vec<u8> {
    let address: OsSocketAddr = text.parse().unwrap();
    address.as_ref().to_vec()
}

fn address(port: u16) -> SocketAddr {
    SocketAddr::from_os(&os_bytes(&format!("127.0.0.1:{}", port))).unwrap()
}

fn bound(fd: i32, port: u16) -> Sockets {
    let mut sockets = Sockets::default();
    sockets.create_socket(pair(fd, fd + 1));
    sockets.convert_to_connection_socket(fd, address(port));
    sockets
}

fn assert_write(write: Option<StreamWrite>, stream: i32, bytes: &[u8], clear: bool) {
    let write = match write {
        Some(write) => write,
        None => panic!("nothing to write"),
    };
    assert_eq!(write.stream.raw_fd, stream);
    assert_eq!(write.bytes, bytes.to_vec());
    assert_eq!(write.clear, clear);
}

#[test]
fn empty_registry_knows_nothing() {
    let mut sockets = Sockets::default();
    assert_eq!(sockets.get_connection_socket_address(3), None);
    assert_eq!(sockets.get_data_socket_address(3), None);
    assert_eq!(sockets.wakeup_stream(3), None);
    assert!(!sockets.has_waiting_connection(3));
    assert!(!sockets.has_data_socket(1));
    assert_eq!(sockets.read_single_connection(3), 0);
    assert!(sockets.open_connection(1, 80).is_none());
}

#[test]
fn created_socket_has_the_descriptor_of_its_read_end() {
    let mut sockets = Sockets::default();
    assert!(!sockets.has_new_socket(5));
    assert_eq!(sockets.create_socket(pair(5, 9)), 5);
    assert!(sockets.has_new_socket(5));
    assert_eq!(sockets.get_connection_socket_address(5), None);
}

#[test]
fn binding_gives_an_address() {
    let sockets = bound(5, 80);
    assert!(!sockets.has_new_socket(5));
    assert_eq!(sockets.get_connection_socket_address(5), Some(address(80)));
    assert_eq!(
        sockets.wakeup_stream(5),
        Some(StreamHandle { raw_fd: 5 })
    );
    assert_eq!(sockets.get_data_socket_address(5), None);
}

#[test]
fn only_new_sockets_are_bound() {
    let mut sockets = bound(5, 80);
    sockets.convert_to_connection_socket(5, address(81));
    assert_eq!(sockets.get_connection_socket_address(5), Some(address(80)));
    sockets.convert_to_connection_socket(6, address(81));
    assert_eq!(sockets.get_connection_socket_address(6), None);
}

#[test]
fn state_changes_once() {
    let mut sockets = bound(5, 80);
    assert_eq!(
        sockets.set_connection_state(5, ConnectionState::Bound),
        Err(())
    );
    assert_eq!(
        sockets.set_connection_state(5, ConnectionState::Listening),
        Ok(())
    );
    assert_eq!(
        sockets.set_connection_state(5, ConnectionState::Listening),
        Err(())
    );
    assert_eq!(
        sockets.set_connection_state(5, ConnectionState::Bound),
        Ok(())
    );
    assert_eq!(
        sockets.set_connection_state(6, ConnectionState::Listening),
        Err(())
    );
}

#[test]
fn listening_subscribes_once() {
    let mut sockets = bound(5, 80);
    assert_eq!(sockets.listen(5), (0, Some(5)));
    assert_eq!(sockets.listen(5), (-1, None));
    assert_eq!(sockets.listen(6), (-1, None));
    assert_eq!(sockets.get_connection_socket_address(5), Some(address(80)));
}

#[test]
fn connection_wakes_the_bound_socket_up() {
    let mut sockets = bound(5, 80);
    assert_write(sockets.open_connection(7, 80), 6, b"a", false);
    assert!(sockets.has_waiting_connection(5));
    assert_eq!(sockets.read_single_connection(5), 7);
    assert!(!sockets.has_waiting_connection(5));
}

#[test]
fn connections_are_taken_in_order_of_arrival() {
    let mut sockets = bound(5, 80);
    for id in [11, 3, 7] {
        assert_write(sockets.open_connection(id, 80), 6, b"a", false);
    }
    assert_eq!(sockets.read_single_connection(5), 11);
    assert_write(sockets.open_connection(20, 80), 6, b"a", false);
    assert_eq!(sockets.read_single_connection(5), 3);
    assert_eq!(sockets.read_single_connection(5), 7);
    assert_eq!(sockets.read_single_connection(5), 20);
    assert!(!sockets.has_waiting_connection(5));
}

#[test]
fn ports_lead_to_their_own_sockets() {
    let mut sockets = bound(5, 80);
    sockets.create_socket(pair(10, 11));
    sockets.convert_to_connection_socket(10, address(443));
    assert_write(sockets.open_connection(1, 443), 11, b"a", false);
    assert!(!sockets.has_waiting_connection(5));
    assert!(sockets.has_waiting_connection(10));
    assert_write(sockets.open_connection(2, 80), 6, b"a", false);
    assert_eq!(sockets.read_single_connection(10), 1);
    assert_eq!(sockets.read_single_connection(5), 2);
}

#[test]
fn newest_socket_on_a_port_gets_its_connections() {
    let mut sockets = bound(5, 80);
    sockets.create_socket(pair(10, 11));
    sockets.convert_to_connection_socket(10, address(80));
    assert_write(sockets.open_connection(1, 80), 11, b"a", false);
    assert_eq!(sockets.get_connection_socket_address(5), Some(address(80)));
}

#[test]
fn taking_a_connection_files_the_socket_anew() {
    let mut sockets = bound(5, 80);
    assert_write(sockets.open_connection(1, 80), 6, b"a", false);
    sockets.create_socket(pair(10, 11));
    sockets.convert_to_connection_socket(10, address(80));
    assert_eq!(sockets.read_single_connection(5), 1);
    assert_write(sockets.open_connection(2, 80), 6, b"a", false);
}

#[test]
fn stale_port_still_leads_to_its_descriptor() {
    let mut sockets = bound(5, 80);
    sockets.create_socket(pair(5, 8));
    sockets.convert_to_connection_socket(5, address(81));
    assert_write(sockets.open_connection(1, 80), 8, b"a", false);
    assert_eq!(sockets.get_connection_socket_address(5), Some(address(81)));
    assert!(sockets.open_connection(2, 80).is_none());
    assert_write(sockets.open_connection(3, 81), 8, b"a", false);
}

#[test]
fn data_goes_to_the_data_socket() {
    let mut sockets = Sockets::default();
    let (fd, backlog) = sockets.create_data_socket(pair(20, 21), 4, address(80));
    assert_eq!(fd, 20);
    assert!(backlog.is_none());
    assert_eq!(sockets.get_data_socket_address(20), Some(address(80)));
    assert!(sockets.has_data_socket(4));
    assert_write(sockets.write_data(4, b"hello".to_vec()), 21, b"hello", true);
    assert_write(sockets.write_data(4, b"again".to_vec()), 21, b"again", true);
    assert_eq!(sockets.get_data_socket_address(20), Some(address(80)));
}

#[test]
fn early_data_waits_for_the_data_socket() {
    let mut sockets = Sockets::default();
    assert!(sockets.write_data(4, b"early".to_vec()).is_none());
    assert!(sockets.write_data(9, b"other".to_vec()).is_none());
    let (fd, backlog) = sockets.create_data_socket(pair(20, 21), 4, address(80));
    assert_eq!(fd, 20);
    assert_write(backlog, 21, b"early", false);
    let (_, backlog) = sockets.create_data_socket(pair(22, 23), 4, address(80));
    assert!(backlog.is_none());
    let (_, backlog) = sockets.create_data_socket(pair(24, 25), 9, address(80));
    assert_write(backlog, 25, b"other", false);
}

#[test]
fn all_early_data_is_kept_in_order() {
    let mut sockets = Sockets::default();
    assert!(sockets.write_data(4, b"first".to_vec()).is_none());
    assert!(sockets.write_data(9, b"other".to_vec()).is_none());
    assert!(sockets.write_data(4, b"".to_vec()).is_none());
    assert!(sockets.write_data(4, b"second".to_vec()).is_none());
    let (_, backlog) = sockets.create_data_socket(pair(20, 21), 4, address(80));
    assert_write(backlog, 21, b"firstsecond", false);
    let (_, backlog) = sockets.create_data_socket(pair(22, 23), 9, address(80));
    assert_write(backlog, 23, b"other", false);
    assert_write(sockets.write_data(4, b"x".to_vec()), 21, b"x", true);
}

#[test]
fn closed_connection_is_gone() {
    let mut sockets = Sockets::default();
    sockets.create_data_socket(pair(20, 21), 4, address(80));
    assert_eq!(
        sockets.close_connection(4),
        DataSocket {
            connection_id: 4,
            read_socket: StreamHandle { raw_fd: 20 },
            write_socket: StreamHandle { raw_fd: 21 },
            address: address(80),
        }
    );
    assert!(!sockets.has_data_socket(4));
    assert_eq!(sockets.get_data_socket_address(20), None);
    assert!(sockets.write_data(4, b"late".to_vec()).is_none());
}

#[test]
fn accepting_takes_the_oldest_connection() {
    let mut sockets = bound(5, 80);
    assert!(sockets.open_connection(7, 80).is_some());
    assert!(sockets.open_connection(8, 80).is_some());
    assert!(sockets.write_data(7, b"GET".to_vec()).is_none());
    let (fd, backlog) = sockets.accept(5, pair(20, 21));
    assert_eq!(fd, 20);
    assert_write(backlog, 21, b"GET", false);
    assert_eq!(sockets.get_data_socket_address(20), Some(address(80)));
    let (fd, backlog) = sockets.accept(5, pair(22, 23));
    assert_eq!(fd, 22);
    assert!(backlog.is_none());
    assert_write(sockets.write_data(8, b"x".to_vec()), 23, b"x", true);
}

#[test]
fn v4_address_is_read_and_written() {
    let bytes = os_bytes("127.0.0.1:8080");
    assert_eq!(
        bytes,
        vec![2, 0, 0x1f, 0x90, 127, 0, 0, 1, 0, 0, 0, 0, 0, 0, 0, 0]
    );
    let address = SocketAddr::from_os(&bytes).unwrap();
    assert_eq!(address.port(), 8080);
    assert_eq!(address.to_os(16), (bytes.clone(), 16));
    assert_eq!(address.to_os(100), (bytes, 16));
}

#[test]
fn v6_address_is_read_and_written() {
    let bytes = os_bytes("[::1]:443");
    assert_eq!(bytes.len(), 28);
    let address = SocketAddr::from_os(&bytes).unwrap();
    assert_eq!(address.port(), 443);
    assert_eq!(address.to_os(28), (bytes.clone(), 28));
    let mut sockets = Sockets::default();
    sockets.create_socket(pair(5, 6));
    sockets.convert_to_connection_socket(5, address);
    assert_write(sockets.open_connection(1, 443), 6, b"a", false);
    let mut scoped = bytes;
    scoped[4] = 9;
    scoped[27] = 3;
    assert_eq!(
        SocketAddr::from_os(&scoped).unwrap().to_os(28),
        (scoped, 28)
    );
}

#[test]
fn bytes_without_a_meaning_are_zeroed() {
    let mut bytes = os_bytes("127.0.0.1:80");
    let plain = SocketAddr::from_os(&bytes).unwrap();
    bytes[12] = 77;
    assert_eq!(SocketAddr::from_os(&bytes), Some(plain));
    bytes.extend_from_slice(&[5; 40]);
    assert_eq!(SocketAddr::from_os(&bytes), Some(plain));
    assert_eq!(SocketAddr::from_os(&bytes[..8]), Some(plain));
    let cut = SocketAddr::from_os(&bytes[..4]).unwrap();
    assert_eq!(cut.to_os(16).0, os_bytes("0.0.0.0:80"));
}

#[test]
fn other_families_are_no_internet_address() {
    assert_eq!(SocketAddr::from_os(&[]), None);
    assert_eq!(SocketAddr::from_os(&[1, 0, 47, 97]), None);
    assert_eq!(SocketAddr::from_os(&[2, 1, 0, 80]), None);
}

#[test]
fn address_is_cut_to_the_buffer() {
    assert_eq!(address(80).to_os(3), (vec![2, 0, 0], 16));
    assert_eq!(address(80).to_os(0), (vec![], 16));
}
