//! The plain-value side of packet and local sockets: their error types, what
//! the results of the system calls mean, and the socket addresses they take.
use vstd::prelude::*;

verus! {

/// An error that the operating system reported.
#[verifier::external_type_specification]
#[verifier::external_body]
pub struct ExIoError(std::io::Error);

/// A general error type for sockets.
#[derive(Debug)]
pub enum SocketError {
    /// Failed creating a socket.
    Creation(SocketCreationError),
    /// Failed to send data using a socket.
    Send(SocketSendError),
    /// Failed to receive data using a socket.
    Receive(SocketReceiveError),
}

/// Error type for sending data using a socket.
#[derive(Debug)]
pub enum SocketSendError {
    /// The error that the operating system reported.
    General(std::io::Error),
}

/// Error type for receiving data using a socket.
#[derive(Debug)]
pub enum SocketReceiveError {
    /// The error that the operating system reported.
    General(std::io::Error),
}

/// Error type for connecting a socket.
#[derive(Debug)]
pub enum SocketConnectError {
    /// The error that the operating system reported.
    General(std::io::Error),
    /// The socket's address is not valid Unicode.
    NotUnicode,
    /// The socket's address is too long.
    TooLong,
}

/// Error type for creating a socket.
#[derive(Debug)]
pub enum SocketCreationError {
    /// The error that the operating system reported.
    General(std::io::Error),
    /// Not enough permissions (usually when creating an ARP socket).
    NoPermission,
}

impl SocketCreationError {
    /// The creation error for an error that the operating system reported:
    /// `NoPermission` when it is a permission error, else the error itself.
    pub fn from_os_error(error: std::io::Error, permission_denied: bool) -> (r: Self)
        ensures
            permission_denied ==> r is NoPermission,
            !permission_denied ==> r == SocketCreationError::General(error),
    {
        if permission_denied {
            SocketCreationError::NoPermission
        } else {
            SocketCreationError::General(error)
        }
    }
}

impl From<SocketCreationError> for SocketError {
    fn from(e: SocketCreationError) -> (r: Self) {
        SocketError::Creation(e)
    }
}

impl vstd::std_specs::convert::FromSpecImpl<SocketCreationError> for SocketError {
    open spec fn obeys_from_spec() -> bool {
        true
    }

    open spec fn from_spec(e: SocketCreationError) -> SocketError {
        SocketError::Creation(e)
    }
}

impl From<SocketSendError> for SocketError {
    fn from(e: SocketSendError) -> (r: Self) {
        SocketError::Send(e)
    }
}

impl vstd::std_specs::convert::FromSpecImpl<SocketSendError> for SocketError {
    open spec fn obeys_from_spec() -> bool {
        true
    }

    open spec fn from_spec(e: SocketSendError) -> SocketError {
        SocketError::Send(e)
    }
}

impl From<SocketReceiveError> for SocketError {
    fn from(e: SocketReceiveError) -> (r: Self) {
        SocketError::Receive(e)
    }
}

impl vstd::std_specs::convert::FromSpecImpl<SocketReceiveError> for SocketError {
    open spec fn obeys_from_spec() -> bool {
        true
    }

    open spec fn from_spec(e: SocketReceiveError) -> SocketError {
        SocketError::Receive(e)
    }
}

impl From<std::io::Error> for SocketSendError {
    fn from(e: std::io::Error) -> (r: Self) {
        SocketSendError::General(e)
    }
}

impl vstd::std_specs::convert::FromSpecImpl<std::io::Error> for SocketSendError {
    open spec fn obeys_from_spec() -> bool {
        true
    }

    open spec fn from_spec(e: std::io::Error) -> SocketSendError {
        SocketSendError::General(e)
    }
}

impl From<std::io::Error> for SocketReceiveError {
    fn from(e: std::io::Error) -> (r: Self) {
        SocketReceiveError::General(e)
    }
}

impl vstd::std_specs::convert::FromSpecImpl<std::io::Error> for SocketReceiveError {
    open spec fn obeys_from_spec() -> bool {
        true
    }

    open spec fn from_spec(e: std::io::Error) -> SocketReceiveError {
        SocketReceiveError::General(e)
    }
}

impl From<std::io::Error> for SocketConnectError {
    fn from(e: std::io::Error) -> (r: Self) {
        SocketConnectError::General(e)
    }
}

impl vstd::std_specs::convert::FromSpecImpl<std::io::Error> for SocketConnectError {
    open spec fn obeys_from_spec() -> bool {
        true
    }

    open spec fn from_spec(e: std::io::Error) -> SocketConnectError {
        SocketConnectError::General(e)
    }
}

impl From<std::io::Error> for SocketCreationError {
    fn from(e: std::io::Error) -> (r: Self) {
        SocketCreationError::General(e)
    }
}

impl vstd::std_specs::convert::FromSpecImpl<std::io::Error> for SocketCreationError {
    open spec fn obeys_from_spec() -> bool {
        true
    }

    open spec fn from_spec(e: std::io::Error) -> SocketCreationError {
        SocketCreationError::General(e)
    }
}

/// The descriptor that `socket(2)` returned, if the call succeeded (a
/// negative result signals failure).
pub fn created_descriptor(fd: i32) -> (r: Option<i32>)
    ensures
        fd >= 0 ==> r == Some(fd),
        fd < 0 ==> r is None,
{
    if fd < 0 {
        None
    } else {
        Some(fd)
    }
}

/// The number of bytes that `send(2)` or `recv(2)` reported, if the call
/// succeeded (a negative result signals failure).
pub fn transferred_bytes(res: isize) -> (r: Option<usize>)
    ensures
        res >= 0 ==> r == Some(res as usize),
        res < 0 ==> r is None,
{
    if res < 0 {
        None
    } else {
        Some(res as usize)
    }
}

/// Whether `connect(2)` succeeded (a negative result signals failure).
pub fn connected(res: i32) -> (b: bool)
    ensures
        b == (res >= 0),
{
    res >= 0
}

/// The length of the `sun_path` field of a Unix socket address.
pub const UNIX_PATH_CAPACITY: usize = 108;

/// The path's bytes followed by zeros up to 108 bytes.
pub open spec fn unix_path_bytes(path: Seq<u8>) -> Seq<u8> {
    path + Seq::new((UNIX_PATH_CAPACITY - path.len()) as nat, |i: int| 0u8)
}

/// The `sun_path` of a Unix socket address for a path: the path's bytes,
/// then zeros up to 108 bytes, so that at least one terminating zero follows.
pub fn unix_socket_path(path: &[u8]) -> (sun_path: Vec<u8>)
    requires
        path@.len() < UNIX_PATH_CAPACITY,
    ensures
        sun_path@ == unix_path_bytes(path@),
        sun_path@.len() == UNIX_PATH_CAPACITY,
        sun_path@.subrange(0, path@.len() as int) == path@,
        forall|i: int| path@.len() <= i < UNIX_PATH_CAPACITY ==> sun_path@[i] == 0,
{
    let mut sun_path: Vec<u8> = Vec::new();
    let n = path.len();
    let mut i: usize = 0;
    while i < UNIX_PATH_CAPACITY
        invariant
            i <= UNIX_PATH_CAPACITY,
            n == path@.len(),
            n < UNIX_PATH_CAPACITY,
            sun_path@.len() == i,
            forall|j: int| 0 <= j < i && j < n ==> sun_path@[j] == path@[j],
            forall|j: int| n <= j < i ==> sun_path@[j] == 0,
        decreases UNIX_PATH_CAPACITY - i,
    {
        if i < n {
            sun_path.push(path[i]);
        } else {
            sun_path.push(0);
        }
        i = i + 1;
    }
    assert(sun_path@.subrange(0, n as int) =~= path@);
    assert(sun_path@ =~= unix_path_bytes(path@));
    sun_path
}

/// The `sun_path` of the Unix socket address for a socket path given as text,
/// `None` standing for a path that is not valid Unicode: `NotUnicode` then,
/// `TooLong` for a path of 108 bytes or more (no room for the terminating
/// zero), and otherwise the path's bytes followed by zeros up to 108 bytes.
pub fn unix_socket_address(path: Option<&str>) -> (r: Result<Vec<u8>, SocketConnectError>)
    ensures
        path is None ==> r matches Err(SocketConnectError::NotUnicode),
        path is Some && vstd::utf8::encode_utf8(path.unwrap()@).len() >= UNIX_PATH_CAPACITY ==> r matches Err(
            SocketConnectError::TooLong,
        ),
        path is Some && vstd::utf8::encode_utf8(path.unwrap()@).len() < UNIX_PATH_CAPACITY ==> (r matches Ok(a)
            && a@ == unix_path_bytes(vstd::utf8::encode_utf8(path.unwrap()@))),
{
    match path {
        None => Err(SocketConnectError::NotUnicode),
        Some(p) => {
            let bytes = p.as_bytes();
            if bytes.len() >= UNIX_PATH_CAPACITY {
                Err(SocketConnectError::TooLong)
            } else {
                Ok(unix_socket_path(bytes))
            }
        },
    }
}

/// The `sll_addr` of a link-layer socket address that an ARP socket connects
/// to: the four octets of the IPv4 address, then four zeros.
pub fn link_layer_address(ip: [u8; 4]) -> (sll_addr: [u8; 8])
    ensures
        sll_addr@ == ip@ + seq![0u8, 0, 0, 0],
{
    let a = [ip[0], ip[1], ip[2], ip[3], 0, 0, 0, 0];
    assert(a@ =~= ip@ + seq![0u8, 0, 0, 0]);
    a
}

} // verus!
