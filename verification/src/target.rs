//! Where a connection goes: the host and port that a URL names, and the
//! route to them that a connection mode asks for.

use url::Url;
use vstd::prelude::*;

use crate::engine::{spec_error_of_kind, EngineErrorKind};
use crate::error::Error;
use crate::mode::{ConnectionMode, ConnectionModeView, SocketAddress};

verus! {

/// The parsed URL of the url crate, carried through as it is.
#[verifier::external_type_specification]
#[verifier::external_body]
pub struct ExUrl(url::Url);

/// The host of a parsed URL as it stands in the URL's text, if it has one.
pub uninterp spec fn url_host(url: Url) -> Option<Seq<char>>;

/// The port that a parsed URL keeps, if it keeps one: the port that its
/// text gives, unless that is the default port of its scheme, which the
/// parser drops.
pub uninterp spec fn url_port(url: Url) -> Option<u16>;

/// The scheme of a parsed URL, in lower case and without the colon.
pub uninterp spec fn url_scheme(url: Url) -> Seq<char>;

/// The port that goes with a scheme where a URL names none.
pub open spec fn default_port(scheme: Seq<char>) -> Option<u16> {
    if scheme == "http"@ || scheme == "ws"@ {
        Some(80u16)
    } else if scheme == "https"@ || scheme == "wss"@ {
        Some(443u16)
    } else if scheme == "ftp"@ {
        Some(21u16)
    } else {
        None
    }
}

/// The port to reach a URL at: the one it gives, else its scheme's.
pub open spec fn known_port(url: Url) -> Option<u16> {
    match url_port(url) {
        Some(port) => Some(port),
        None => default_port(url_scheme(url)),
    }
}

/// Trusted: `Url::host_str` of the url crate returns the host part of the
/// URL's text where the URL has a host, and nothing where it has none.
pub assume_specification<'a>[ Url::host_str ](url: &'a Url) -> (host: Option<&'a str>)
    ensures
        match host {
            Some(h) => url_host(*url) == Some(h@),
            None => url_host(*url) is None,
        },
;

/// Trusted: `Url::port_or_known_default` of the url crate returns the port
/// that the URL gives; where it gives none, 80 for `http` and `ws`, 443 for
/// `https` and `wss`, 21 for `ftp`, and nothing for any other scheme.
pub assume_specification[ Url::port_or_known_default ](url: &Url) -> (port: Option<u16>)
    ensures
        port == match url_port(*url) {
            Some(p) => Some(p),
            None => default_port(url_scheme(*url)),
        },
;

/// A host and a port.
#[derive(Debug, Clone, PartialEq, Eq, Hash)]
pub struct Target {
    pub host: String,
    pub port: u16,
}

/// The mathematical value of a [`Target`].
pub struct TargetView {
    pub host: Seq<char>,
    pub port: u16,
}

impl View for Target {
    type V = TargetView;

    open spec fn view(&self) -> TargetView {
        TargetView { host: self.host@, port: self.port }
    }
}

/// The target that a URL names. A URL without a host names none, and
/// neither does one whose port is not given and not known from its scheme;
/// the missing host is reported first.
pub open spec fn spec_target(url: Url) -> Result<TargetView, Error> {
    match (url_host(url), known_port(url)) {
        (None, _) => Err(Error::EmptyHost),
        (Some(_), None) => Err(Error::InvalidPort),
        (Some(host), Some(port)) => Ok(TargetView { host, port }),
    }
}

/// The target of a direct connection. The URL's own host and port are
/// where the connection goes; a URL that names none is one that the engine
/// cannot use, and fails as the engine's URL error does.
pub open spec fn spec_direct_target(url: Url) -> Result<TargetView, Error> {
    match spec_target(url) {
        Ok(target) => Ok(target),
        Err(_) => Err(spec_error_of_kind(EngineErrorKind::InvalidUrl)),
    }
}

impl Target {
    /// The host and port to open a direct connection to `url` at.
    pub fn direct(url: &Url) -> (target: Result<Target, Error>)
        ensures
            match target {
                Ok(t) => spec_direct_target(*url) == Ok::<TargetView, Error>(t@),
                Err(e) => spec_direct_target(*url) == Err::<TargetView, Error>(e),
            },
    {
        match Target::of(url) {
            Ok(target) => Ok(target),
            Err(_) => Err(Error::Upgrade),
        }
    }

    /// The host and port that `url` names.
    pub fn of(url: &Url) -> (target: Result<Target, Error>)
        ensures
            match target {
                Ok(t) => spec_target(*url) == Ok::<TargetView, Error>(t@),
                Err(e) => spec_target(*url) == Err::<TargetView, Error>(e),
            },
    {
        let host: &str = match url.host_str() {
            Some(host) => host,
            None => return Err(Error::EmptyHost),
        };
        let port: u16 = match url.port_or_known_default() {
            Some(port) => port,
            None => return Err(Error::InvalidPort),
        };
        Ok(Target { host: host.to_owned(), port })
    }
}

/// The way to the byte stream under a connection.
#[derive(Debug, Clone, PartialEq, Eq, Hash)]
pub enum Route {
    /// Straight to the URL's own host and port.
    Direct,
    /// To `target` through the SOCKS5 proxy at `proxy`.
    Proxy { proxy: SocketAddress, target: Target },
    /// To `target` through the anonymity network, whose client keeps its
    /// data under `custom_path`.
    Tor { custom_path: Option<String>, target: Target },
}

/// The mathematical value of a [`Route`].
pub enum RouteView {
    Direct,
    Proxy { proxy: SocketAddress, target: TargetView },
    Tor { custom_path: Option<Seq<char>>, target: TargetView },
}

impl View for Route {
    type V = RouteView;

    open spec fn view(&self) -> RouteView {
        match self {
            Route::Direct => RouteView::Direct,
            Route::Proxy { proxy, target } => RouteView::Proxy { proxy: *proxy, target: target@ },
            Route::Tor { custom_path: Some(path), target } => RouteView::Tor {
                custom_path: Some(path@),
                target: target@,
            },
            Route::Tor { custom_path: None, target } => RouteView::Tor {
                custom_path: None,
                target: target@,
            },
        }
    }
}

/// The route that a mode asks for to a URL. A direct connection needs
/// nothing of the URL here; a proxy and the anonymity network are told the
/// target by name, so the URL must name one.
pub open spec fn spec_route(url: Url, mode: ConnectionModeView) -> Result<RouteView, Error> {
    match mode {
        ConnectionModeView::Direct => Ok(RouteView::Direct),
        ConnectionModeView::Proxy(proxy) => match spec_target(url) {
            Ok(target) => Ok(RouteView::Proxy { proxy, target }),
            Err(e) => Err(e),
        },
        ConnectionModeView::Tor { custom_path } => match spec_target(url) {
            Ok(target) => Ok(RouteView::Tor { custom_path, target }),
            Err(e) => Err(e),
        },
    }
}

impl Route {
    /// The route to `url` under `mode`, found without any I/O.
    pub fn plan(url: &Url, mode: &ConnectionMode) -> (route: Result<Route, Error>)
        ensures
            match route {
                Ok(r) => spec_route(*url, mode@) == Ok::<RouteView, Error>(r@),
                Err(e) => spec_route(*url, mode@) == Err::<RouteView, Error>(e),
            },
    {
        match mode {
            ConnectionMode::Direct => Ok(Route::Direct),
            ConnectionMode::Proxy(proxy) => {
                match Target::of(url) {
                    Ok(target) => Ok(Route::Proxy { proxy: *proxy, target }),
                    Err(e) => Err(e),
                }
            },
            ConnectionMode::Tor { custom_path } => {
                match Target::of(url) {
                    Ok(target) => Ok(Route::Tor { custom_path: custom_path.clone(), target }),
                    Err(e) => Err(e),
                }
            },
        }
    }
}

/// A URL that names a host, gives no port and has a scheme without a known
/// default port has no route through a proxy or the anonymity network: the
/// plan fails with `InvalidPort`.
pub proof fn lemma_unknown_port_is_refused(url: Url, mode: ConnectionModeView)
    requires
        mode != ConnectionModeView::Direct,
        url_host(url) is Some,
        url_port(url) is None,
        default_port(url_scheme(url)) is None,
    ensures
        spec_route(url, mode) == Err::<RouteView, Error>(Error::InvalidPort),
{
}

/// A URL without a host has no route through a proxy or the anonymity
/// network: the plan fails with `EmptyHost`, whatever its port.
pub proof fn lemma_missing_host_is_refused(url: Url, mode: ConnectionModeView)
    requires
        mode != ConnectionModeView::Direct,
        url_host(url) is None,
    ensures
        spec_route(url, mode) == Err::<RouteView, Error>(Error::EmptyHost),
{
}

/// A plan fails only for want of a host or a port in the URL: no other
/// error comes before something is opened.
pub proof fn lemma_plan_fails_on_addressing_only(url: Url, mode: ConnectionModeView)
    ensures
        match spec_route(url, mode) {
            Ok(_) => true,
            Err(e) => e.is_addressing(),
        },
{
}

/// A direct connection is planned for every URL.
pub proof fn lemma_direct_always_routes(url: Url)
    ensures
        spec_route(url, ConnectionModeView::Direct) == Ok::<RouteView, Error>(RouteView::Direct),
{
}

} // verus!
