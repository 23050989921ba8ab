use rawnet::socket::{
    connected, created_descriptor, link_layer_address, transferred_bytes, unix_socket_address, unix_socket_path,
    SocketConnectError,
    SocketCreationError, SocketError, SocketSendError,
};

#[test]
fn syscall_results() {
    assert_eq!(created_descriptor(3), Some(3));
    assert_eq!(created_descriptor(0), Some(0));
    assert_eq!(created_descriptor(-1), None);
    assert_eq!(transferred_bytes(28), Some(28));
    assert_eq!(transferred_bytes(0), Some(0));
    assert_eq!(transferred_bytes(-1), None);
    assert!(connected(0));
    assert!(!connected(-1));
}

#[test]
fn unix_path_is_zero_terminated() {
    let p = unix_socket_path(b"/tmp/sock");
    assert_eq!(p.len(), 108);
    assert_eq!(&p[..9], b"/tmp/sock");
    assert!(p[9..].iter().all(|&b| b == 0));
    let long = [b'a'; 107];
    let q = unix_socket_path(&long);
    assert_eq!(&q[..107], &long[..]);
    assert_eq!(q[107], 0);
}

#[test]
fn link_layer_address_holds_ip() {
    assert_eq!(link_layer_address([192, 168, 0, 1]), [192, 168, 0, 1, 0, 0, 0, 0]);
}

#[test]
fn creation_errors() {
    let e = std::io::Error::from(std::io::ErrorKind::PermissionDenied);
    assert!(matches!(
        SocketCreationError::from_os_error(e, true),
        SocketCreationError::NoPermission
    ));
    let e = std::io::Error::from(std::io::ErrorKind::Other);
    assert!(matches!(
        SocketCreationError::from_os_error(e, false),
        SocketCreationError::General(_)
    ));
    let s: SocketError = SocketCreationError::NoPermission.into();
    assert!(matches!(s, SocketError::Creation(SocketCreationError::NoPermission)));
    let send: SocketSendError = std::io::Error::from(std::io::ErrorKind::Other).into();
    let s: SocketError = send.into();
    assert!(matches!(s, SocketError::Send(SocketSendError::General(_))));
}

#[test]
fn unix_socket_address_errors_and_path() {
    assert!(matches!(unix_socket_address(None), Err(SocketConnectError::NotUnicode)));
    let long = "a".repeat(108);
    assert!(matches!(
        unix_socket_address(Some(long.as_str())),
        Err(SocketConnectError::TooLong)
    ));
    // the length is counted in bytes: 54 two-byte characters fill 108 bytes
    let wide = "é".repeat(54);
    assert!(matches!(
        unix_socket_address(Some(wide.as_str())),
        Err(SocketConnectError::TooLong)
    ));
    let fits = "b".repeat(107);
    let a = unix_socket_address(Some(fits.as_str())).unwrap();
    assert_eq!(a.len(), 108);
    assert_eq!(&a[..107], fits.as_bytes());
    assert_eq!(a[107], 0);
    let p = unix_socket_address(Some("/run/x.sock")).unwrap();
    assert_eq!(p, unix_socket_path(b"/run/x.sock"));
}
