//! Socket addresses, in the form that the system gives them.

use os_socketaddr::OsSocketAddr;
use vstd::prelude::*;

#[allow(unused_imports)]
use crate::sockets::laws::system_form_is_read_back;

verus! {

/// The port number of an internet address.
pub type Port = u16;

/// How many bytes the longest address has.
pub const MAX_LENGTH: usize = 28;

/// How many bytes an IPv4 address has.
pub const V4_LENGTH: usize = 16;

/// How many bytes of an IPv4 address say something.
pub const V4_USED: usize = 8;

/// The system's number for IPv4.
pub const FAMILY_V4: u16 = 2;

/// The system's number for IPv6.
pub const FAMILY_V6: u16 = 10;

/// An address with the room of the longest one: cut off behind it, or filled up
/// with zeros.
pub open spec fn roomy(os_address: Seq<u8>) -> Seq<u8> {
    Seq::new(
        MAX_LENGTH as nat,
        |i: int|
            if i < os_address.len() {
                os_address[i]
            } else {
                0u8
            },
    )
}

/// The family of an address: its first two bytes, the low one first.
pub open spec fn family(os_address: Seq<u8>) -> int {
    roomy(os_address)[0] + 256 * roomy(os_address)[1]
}

/// The port of an internet address: the two bytes behind the family, the high
/// one first.
pub open spec fn port_number(os_address: Seq<u8>) -> int {
    256 * roomy(os_address)[2] + roomy(os_address)[3]
}

/// The system's form of the internet address that bytes hold: what they say of
/// it, and zeros where its family has nothing to say. Bytes of another family
/// have none.
pub open spec fn os_form(os_address: Seq<u8>) -> Option<Seq<u8>> {
    if family(os_address) == FAMILY_V4 {
        Some(
            roomy(os_address).take(V4_USED as int) + Seq::new(
                (V4_LENGTH - V4_USED) as nat,
                |i: int| 0u8,
            ),
        )
    } else if family(os_address) == FAMILY_V6 {
        Some(roomy(os_address))
    } else {
        None
    }
}

/// `OsSocketAddr::into_addr` on the bytes, as `OsSocketAddr::as_mut` takes them
/// in; then the port of the address, and the bytes that `OsSocketAddr::from`
/// and `as_ref` make of it. The layout of the bytes is that of Linux on
/// machines that put the low byte of a number first.
#[verifier::external_body]
fn read_address(os_address: &[u8]) -> (address: Option<(u16, Vec<u8>)>)
    ensures
        match address {
            Some((port, bytes)) => port == port_number(os_address@) && os_form(os_address@) == Some(
                bytes@,
            ),
            None => os_form(os_address@) is None,
        },
{
    let mut raw = OsSocketAddr::new();
    for (to, from) in raw.as_mut().iter_mut().zip(os_address) {
        *to = *from;
    }
    let address = raw.into_addr()?;
    Some((address.port(), OsSocketAddr::from(address).as_ref().to_vec()))
}

/// An internet socket address.
#[derive(Clone, Copy, Debug, PartialEq, Eq)]
pub struct SocketAddr {
    port: Port,
    bytes: [u8; 28],
    length: usize,
}

impl View for SocketAddr {
    type V = Seq<u8>;

    /// The system's form of the address.
    closed spec fn view(&self) -> Seq<u8> {
        self.bytes@.take(self.length as int)
    }
}

impl SocketAddr {
    #[verifier::type_invariant]
    spec fn well_formed(self) -> bool {
        &&& self.length <= MAX_LENGTH
        &&& self.port == port_number(self@)
    }

    pub open spec fn spec_port(self) -> Port {
        port_number(self@) as u16
    }

    /// Reads an address in the system's form. Only internet addresses are.
    pub fn from_os(os_address: &[u8]) -> (address: Option<SocketAddr>)
        ensures
            match address {
                Some(a) => os_form(os_address@) == Some(a@) && a.port() == port_number(os_address@),
                None => os_form(os_address@) is None,
            },
    {
        match read_address(os_address) {
            Some((port, form)) => {
                let mut bytes: [u8; 28] = [0; 28];
                let length: usize = form.len();
                for i in 0..length
                    invariant
                        length == form@.len(),
                        length <= MAX_LENGTH,
                        bytes@.take(i as int) == form@.take(i as int),
                {
                    bytes[i] = form[i];
                    assert(bytes@.take(i + 1) =~= form@.take(i + 1)) by {
                        assert forall|j: int| 0 <= j < i implies bytes@[j] == form@[j] by {
                            assert(bytes@.take(i as int)[j] == form@.take(i as int)[j]);
                        }
                    }
                }
                assert(form@.take(length as int) =~= form@);
                proof {
                    system_form_is_read_back(os_address@, Seq::empty());
                    assert(form@ + Seq::empty() =~= form@);
                }
                Some(SocketAddr { port, bytes, length })
            },
            None => None,
        }
    }

    /// The port of the address.
    #[verifier::when_used_as_spec(spec_port)]
    pub fn port(self) -> (port: Port)
        ensures
            port == self.spec_port(),
            port == port_number(self@),
    {
        proof {
            use_type_invariant(&self);
        }
        self.port
    }

    /// Answers a request for the address: what of its system's form fits into
    /// a buffer of `capacity` bytes, and the length of the whole.
    pub fn to_os(self, capacity: u32) -> (answer: (Vec<u8>, u32))
        ensures
            answer.0@ == self@.take(
                if capacity < self@.len() {
                    capacity as int
                } else {
                    self@.len() as int
                },
            ),
            answer.1 == self@.len(),
    {
        proof {
            use_type_invariant(&self);
        }
        let length: u32 = self.length as u32;
        let fitting: u32 = if capacity < length {
            capacity
        } else {
            length
        };
        let mut copied: Vec<u8> = Vec::new();
        for i in 0..fitting
            invariant
                fitting <= length == self@.len(),
                length == self.length <= MAX_LENGTH,
                copied@ == self@.take(i as int),
        {
            copied.push(self.bytes[i as usize]);
            assert(self@.take(i + 1) =~= self@.take(i as int).push(self@[i as int]));
        }
        (copied, length)
    }
}

} // verus!
