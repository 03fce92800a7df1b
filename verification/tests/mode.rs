use async_wsocket::{ConnectionMode, SocketAddress};

#[test]
fn direct_is_direct() {
    assert_eq!(ConnectionMode::direct(), ConnectionMode::Direct);
}

#[test]
fn default_mode_is_direct() {
    assert_eq!(ConnectionMode::default(), ConnectionMode::Direct);
}

#[test]
fn proxy_keeps_the_address() {
    let addr = SocketAddress::V4 { ip: 0x7f00_0001, port: 9050 };
    assert_eq!(ConnectionMode::proxy(addr), ConnectionMode::Proxy(addr));
    let addr = SocketAddress::V6 { ip: 1, port: 1080, flowinfo: 0, scope_id: 0 };
    assert_eq!(ConnectionMode::proxy(addr), ConnectionMode::Proxy(addr));
}

#[test]
fn tor_has_no_path() {
    assert_eq!(ConnectionMode::tor(), ConnectionMode::Tor { custom_path: None });
}

#[test]
fn tor_with_path_keeps_the_path() {
    assert_eq!(
        ConnectionMode::tor_with_path("/data/tor"),
        ConnectionMode::Tor { custom_path: Some(String::from("/data/tor")) }
    );
}

#[test]
fn modes_compare_by_content() {
    let a = SocketAddress::V4 { ip: 1, port: 1 };
    let b = SocketAddress::V4 { ip: 1, port: 2 };
    assert_ne!(ConnectionMode::proxy(a), ConnectionMode::proxy(b));
    assert_ne!(ConnectionMode::tor(), ConnectionMode::tor_with_path("x"));
    assert_ne!(ConnectionMode::direct(), ConnectionMode::tor());
    assert!(ConnectionMode::direct() < ConnectionMode::proxy(a));
    assert!(ConnectionMode::proxy(a) < ConnectionMode::proxy(b));
    assert!(ConnectionMode::proxy(b) < ConnectionMode::tor());
    assert_eq!(ConnectionMode::tor_with_path("x").clone(), ConnectionMode::tor_with_path("x"));
}
