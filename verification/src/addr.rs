//! Resolution of the address the bridge listens on.

use crate::text::{
    contains_char, lemma_len_before, segment_before, strip_prefix, take_before, trim,
    trim_end_matches, trimmed, without_trailing,
};
use vstd::prelude::*;
use vstd::string::*;

verus! {

/// The characters of `http://`.
pub open spec fn http_scheme() -> Seq<char> {
    seq!['h', 't', 't', 'p', ':', '/', '/']
}

/// The characters of `https://`.
pub open spec fn https_scheme() -> Seq<char> {
    seq!['h', 't', 't', 'p', 's', ':', '/', '/']
}

/// The characters of `:80`, appended to a host of an `http` URL that names no port.
pub open spec fn http_port_suffix() -> Seq<char> {
    seq![':', '8', '0']
}

/// The characters of `:443`, appended to a host of an `https` URL that names no port.
pub open spec fn https_port_suffix() -> Seq<char> {
    seq![':', '4', '4', '3']
}

/// The characters of `127.0.0.1:`, the loopback host every port-based address has.
pub open spec fn loopback_prefix() -> Seq<char> {
    seq!['1', '2', '7', '.', '0', '.', '0', '.', '1', ':']
}

/// The characters of `43124`, the port used where none is configured.
pub open spec fn default_port() -> Seq<char> {
    seq!['4', '3', '1', '2', '4']
}

/// The address named by what follows the scheme of a URL: its first path
/// segment, with `suffix` appended where the segment holds no colon. An empty
/// segment names no address.
pub open spec fn host_port_addr(rest: Seq<char>, suffix: Seq<char>) -> Option<Seq<char>> {
    let host_port = segment_before(rest, '/');
    if host_port.len() == 0 {
        None
    } else if host_port.contains(':') {
        Some(host_port)
    } else {
        Some(host_port + suffix)
    }
}

/// The `host:port` that a base URL names, if it names one.
///
/// White space around the URL and slashes at its end are ignored. Only the
/// schemes `http://` and `https://` are recognised.
pub open spec fn addr_of_base_url(s: Seq<char>) -> Option<Seq<char>> {
    let t = without_trailing(trimmed(s), '/');
    if http_scheme().is_prefix_of(t) {
        host_port_addr(t.skip(7), http_port_suffix())
    } else if https_scheme().is_prefix_of(t) {
        host_port_addr(t.skip(8), https_port_suffix())
    } else {
        None
    }
}

/// The port of a port-based address: the first configured one, else the default.
pub open spec fn chosen_port(port: Option<Seq<char>>, desktop_port: Option<Seq<char>>) -> Seq<
    char,
> {
    match port {
        Some(p) => p,
        None => match desktop_port {
            Some(p) => p,
            None => default_port(),
        },
    }
}

/// The loopback address with the chosen port.
pub open spec fn port_based_addr(port: Option<Seq<char>>, desktop_port: Option<Seq<char>>) -> Seq<
    char,
> {
    loopback_prefix() + chosen_port(port, desktop_port)
}

/// The address the bridge binds to: what the base URL names, else the port-based one.
pub open spec fn resolved_addr(
    base_url: Option<Seq<char>>,
    port: Option<Seq<char>>,
    desktop_port: Option<Seq<char>>,
) -> Seq<char> {
    match base_url {
        Some(b) => match addr_of_base_url(b) {
            Some(a) => a,
            None => port_based_addr(port, desktop_port),
        },
        None => port_based_addr(port, desktop_port),
    }
}

/// The diagnostic reported for a base URL that names no address.
pub open spec fn invalid_base_url_text(base_url: Seq<char>) -> Seq<char> {
    "bridge: invalid ASTRA_BRIDGE_BASE_URL='"@ + base_url
        + "', fallback to ASTRA_BRIDGE_PORT/ASTRA_DESKTOP_BRIDGE_PORT"@
}

/// The diagnostic owed for a configuration: one for a base URL that is set and names no address.
pub open spec fn diagnostic_of(base_url: Option<Seq<char>>) -> Option<Seq<char>> {
    match base_url {
        Some(b) => if addr_of_base_url(b) is None {
            Some(invalid_base_url_text(b))
        } else {
            None
        },
        None => None,
    }
}

/// The view of an optional string.
pub open spec fn opt_view(s: Option<String>) -> Option<Seq<char>> {
    match s {
        Some(t) => Some(t@),
        None => None,
    }
}

/// The view of an optional string slice.
pub open spec fn opt_str_view(s: Option<&str>) -> Option<Seq<char>> {
    match s {
        Some(t) => Some(t@),
        None => None,
    }
}

/// The resolved address of the bridge, with the diagnostic its resolution gave rise to.
pub struct BridgeAddress {
    /// `host:port` to listen on.
    pub addr: String,
    /// Set where a base URL was configured and had to be passed over.
    pub diagnostic: Option<String>,
}

fn host_port(rest: &str, suffix: &str) -> (r: Option<String>)
    ensures
        opt_view(r) == host_port_addr(rest@, suffix@),
{
    let segment = take_before(rest, '/');
    if segment.is_empty() {
        return None;
    }
    let owned = String::from_str(segment);
    if contains_char(segment, ':') {
        return Some(owned);
    }
    Some(owned.concat(suffix))
}

/// Derives `host:port` from a base URL such as `http://host:9000/x`.
///
/// Returns `None` where the URL has neither of the two recognised schemes or
/// names no host.
pub fn bridge_addr_from_base_url(base_url: &str) -> (r: Option<String>)
    ensures
        opt_view(r) == addr_of_base_url(base_url@),
{
    let t = trim_end_matches(trim(base_url), '/');
    proof {
        reveal_strlit("http://");
        reveal_strlit("https://");
        reveal_strlit(":80");
        reveal_strlit(":443");
        assert("http://"@ =~= http_scheme());
        assert("https://"@ =~= https_scheme());
        assert(":80"@ =~= http_port_suffix());
        assert(":443"@ =~= https_port_suffix());
    }
    match strip_prefix(t, "http://") {
        Some(rest) => host_port(rest, ":80"),
        None => match strip_prefix(t, "https://") {
            Some(rest) => host_port(rest, ":443"),
            None => None,
        },
    }
}

fn port_based(port: Option<&str>, desktop_port: Option<&str>) -> (r: String)
    ensures
        r@ == port_based_addr(opt_str_view(port), opt_str_view(desktop_port)),
{
    proof {
        reveal_strlit("127.0.0.1:");
        reveal_strlit("43124");
        assert("127.0.0.1:"@ =~= loopback_prefix());
        assert("43124"@ =~= default_port());
    }
    let chosen: &str = match port {
        Some(p) => p,
        None => match desktop_port {
            Some(p) => p,
            None => "43124",
        },
    };
    String::from_str("127.0.0.1:").concat(chosen)
}

/// Resolves the address to listen on from the three configuration values.
///
/// A base URL that names an address wins. Otherwise the address is loopback
/// with the first configured port, or the default port; a base URL that was
/// set and names no address is reported in the diagnostic.
pub fn resolve_bridge_addr(
    base_url: Option<&str>,
    port: Option<&str>,
    desktop_port: Option<&str>,
) -> (r: BridgeAddress)
    ensures
        r.addr@ == resolved_addr(
            opt_str_view(base_url),
            opt_str_view(port),
            opt_str_view(desktop_port),
        ),
        opt_view(r.diagnostic) == diagnostic_of(opt_str_view(base_url)),
{
    match base_url {
        Some(b) => match bridge_addr_from_base_url(b) {
            Some(addr) => BridgeAddress { addr, diagnostic: None },
            None => {
                let text = String::from_str("bridge: invalid ASTRA_BRIDGE_BASE_URL='").concat(
                    b,
                ).concat("', fallback to ASTRA_BRIDGE_PORT/ASTRA_DESKTOP_BRIDGE_PORT");
                BridgeAddress { addr: port_based(port, desktop_port), diagnostic: Some(text) }
            },
        },
        None => BridgeAddress { addr: port_based(port, desktop_port), diagnostic: None },
    }
}

/// A base URL whose trimmed text begins with neither recognised scheme names no
/// address, and resolution then falls back to the port-based address.
pub proof fn lemma_unrecognised_scheme_falls_back(
    base_url: Seq<char>,
    port: Option<Seq<char>>,
    desktop_port: Option<Seq<char>>,
)
    requires
        !http_scheme().is_prefix_of(without_trailing(trimmed(base_url), '/')),
        !https_scheme().is_prefix_of(without_trailing(trimmed(base_url), '/')),
    ensures
        addr_of_base_url(base_url) is None,
        resolved_addr(Some(base_url), port, desktop_port) == port_based_addr(port, desktop_port),
        diagnostic_of(Some(base_url)) == Some(invalid_base_url_text(base_url)),
{
}

/// Every address that a base URL names is non-empty, holds a colon and holds
/// no slash.
pub proof fn lemma_addr_shape(base_url: Seq<char>)
    requires
        addr_of_base_url(base_url) is Some,
    ensures
        addr_of_base_url(base_url)->Some_0.len() > 0,
        addr_of_base_url(base_url)->Some_0.contains(':'),
        !addr_of_base_url(base_url)->Some_0.contains('/'),
{
    let t = without_trailing(trimmed(base_url), '/');
    let (rest, suffix) = if http_scheme().is_prefix_of(t) {
        (t.skip(7), http_port_suffix())
    } else {
        (t.skip(8), https_port_suffix())
    };
    let seg = segment_before(rest, '/');
    let a = addr_of_base_url(base_url)->Some_0;
    lemma_len_before(rest, '/');
    assert(!seg.contains('/')) by {
        if seg.contains('/') {
            let k = choose|k: int| 0 <= k < seg.len() && seg[k] == '/';
            assert(seg[k] == rest[k]);
        }
    }
    if seg.contains(':') {
        assert(a == seg);
    } else {
        assert(a == seg + suffix);
        assert(a[seg.len() as int] == ':');
        if a.contains('/') {
            let k = choose|k: int| 0 <= k < a.len() && a[k] == '/';
            if k < seg.len() {
                assert(seg[k] == '/');
                assert(seg.contains('/'));
            } else {
                assert(a[k] == suffix[k - seg.len()]);
            }
        }
    }
}

/// A base URL that names an address decides, whatever ports are configured,
/// and no diagnostic is owed.
pub proof fn lemma_named_addr_wins(
    base_url: Seq<char>,
    port: Option<Seq<char>>,
    desktop_port: Option<Seq<char>>,
)
    requires
        addr_of_base_url(base_url) is Some,
    ensures
        resolved_addr(Some(base_url), port, desktop_port) == addr_of_base_url(base_url)->Some_0,
        diagnostic_of(Some(base_url)) is None,
{
}

/// Without a base URL that names an address the bridge listens on loopback,
/// whatever ports are configured.
pub proof fn lemma_port_based_is_loopback(
    base_url: Option<Seq<char>>,
    port: Option<Seq<char>>,
    desktop_port: Option<Seq<char>>,
)
    requires
        base_url matches Some(b) ==> addr_of_base_url(b) is None,
    ensures
        loopback_prefix().is_prefix_of(resolved_addr(base_url, port, desktop_port)),
        resolved_addr(base_url, port, desktop_port).skip(loopback_prefix().len() as int)
            == chosen_port(port, desktop_port),
{
    let a = port_based_addr(port, desktop_port);
    assert(a.subrange(0, loopback_prefix().len() as int) =~= loopback_prefix());
    assert(a.skip(loopback_prefix().len() as int) =~= chosen_port(port, desktop_port));
}

/// With no base URL and no port configured the bridge listens on `127.0.0.1:43124`.
pub proof fn lemma_default_addr()
    ensures
        resolved_addr(None, None, None) == loopback_prefix() + default_port(),
{
}

/// The port named first wins over the second.
pub proof fn lemma_first_port_wins(p: Seq<char>, q: Option<Seq<char>>)
    ensures
        resolved_addr(None, Some(p), q) == loopback_prefix() + p,
{
}

} // verus!
