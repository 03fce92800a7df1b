use async_wsocket::{ConnectionMode, Error, Route, SocketAddress, Target};
use url::Url;

fn proxy_addr() -> SocketAddress {
    SocketAddress::V4 { ip: 0x7f00_0001, port: 9050 }
}

fn target(host: &str, port: u16) -> Target {
    Target { host: String::from(host), port }
}

#[test]
fn target_takes_the_port_that_is_given() {
    let url = Url::parse("ws://example.com:8080/path").unwrap();
    assert_eq!(Target::of(&url), Ok(target("example.com", 8080)));
}

#[test]
fn target_takes_the_port_of_the_scheme() {
    let url = Url::parse("ws://example.com").unwrap();
    assert_eq!(Target::of(&url), Ok(target("example.com", 80)));
    let url = Url::parse("wss://relay.example.com/").unwrap();
    assert_eq!(Target::of(&url), Ok(target("relay.example.com", 443)));
    let url = Url::parse("http://example.com").unwrap();
    assert_eq!(Target::of(&url), Ok(target("example.com", 80)));
    let url = Url::parse("https://example.com").unwrap();
    assert_eq!(Target::of(&url), Ok(target("example.com", 443)));
    let url = Url::parse("ftp://example.com").unwrap();
    assert_eq!(Target::of(&url), Ok(target("example.com", 21)));
}

#[test]
fn target_needs_a_port() {
    let url = Url::parse("foo://example.com").unwrap();
    assert_eq!(Target::of(&url), Err(Error::InvalidPort));
    let url = Url::parse("foo://example.com:1456").unwrap();
    assert_eq!(Target::of(&url), Ok(target("example.com", 1456)));
}

#[test]
fn target_needs_a_host() {
    let url = Url::parse("unix:/run/foo.socket").unwrap();
    assert_eq!(Target::of(&url), Err(Error::EmptyHost));
    let url = Url::parse("data:text/plain,Stuff").unwrap();
    assert_eq!(Target::of(&url), Err(Error::EmptyHost));
}

#[test]
fn target_keeps_an_onion_name() {
    let url = Url::parse("ws://oxtrdevav64z64yb7x6rjg4ntzqjhedm5b5zjqulugknhzr46ny2qbad.onion").unwrap();
    assert_eq!(
        Target::of(&url),
        Ok(target("oxtrdevav64z64yb7x6rjg4ntzqjhedm5b5zjqulugknhzr46ny2qbad.onion", 80))
    );
}

#[test]
fn direct_route_asks_nothing_of_the_url() {
    let url = Url::parse("wss://example.com").unwrap();
    assert_eq!(Route::plan(&url, &ConnectionMode::direct()), Ok(Route::Direct));
    let url = Url::parse("foo://example.com").unwrap();
    assert_eq!(Route::plan(&url, &ConnectionMode::direct()), Ok(Route::Direct));
    let url = Url::parse("unix:/run/foo.socket").unwrap();
    assert_eq!(Route::plan(&url, &ConnectionMode::direct()), Ok(Route::Direct));
}

#[test]
fn proxy_route_names_proxy_and_target() {
    let url = Url::parse("wss://example.com/ws").unwrap();
    assert_eq!(
        Route::plan(&url, &ConnectionMode::proxy(proxy_addr())),
        Ok(Route::Proxy { proxy: proxy_addr(), target: target("example.com", 443) })
    );
}

#[test]
fn tor_route_names_path_and_target() {
    let url = Url::parse("ws://example.onion:81").unwrap();
    assert_eq!(
        Route::plan(&url, &ConnectionMode::tor()),
        Ok(Route::Tor { custom_path: None, target: target("example.onion", 81) })
    );
    assert_eq!(
        Route::plan(&url, &ConnectionMode::tor_with_path("/data")),
        Ok(Route::Tor {
            custom_path: Some(String::from("/data")),
            target: target("example.onion", 81)
        })
    );
}

#[test]
fn proxy_and_tor_routes_need_a_port() {
    let url = Url::parse("foo://example.com").unwrap();
    assert_eq!(Route::plan(&url, &ConnectionMode::proxy(proxy_addr())), Err(Error::InvalidPort));
    assert_eq!(Route::plan(&url, &ConnectionMode::tor()), Err(Error::InvalidPort));
    assert_eq!(Route::plan(&url, &ConnectionMode::tor_with_path("p")), Err(Error::InvalidPort));
}

#[test]
fn proxy_and_tor_routes_need_a_host() {
    let url = Url::parse("unix:/run/foo.socket").unwrap();
    assert_eq!(Route::plan(&url, &ConnectionMode::proxy(proxy_addr())), Err(Error::EmptyHost));
    assert_eq!(Route::plan(&url, &ConnectionMode::tor()), Err(Error::EmptyHost));
}

#[test]
fn direct_target_is_the_urls_own() {
    let url = Url::parse("wss://example.com/ws").unwrap();
    assert_eq!(Target::direct(&url), Ok(target("example.com", 443)));
    let url = Url::parse("ws://example.com:8080").unwrap();
    assert_eq!(Target::direct(&url), Ok(target("example.com", 8080)));
}

#[test]
fn direct_target_fails_as_the_engine_does() {
    let url = Url::parse("foo://example.com").unwrap();
    assert_eq!(Target::direct(&url), Err(Error::Upgrade));
    let url = Url::parse("unix:/run/foo.socket").unwrap();
    assert_eq!(Target::direct(&url), Err(Error::Upgrade));
}
