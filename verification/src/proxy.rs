//! Per-item network-proxy configuration: validation, bypass decisions,
//! and construction of the transport-level proxy handle.

use vstd::prelude::*;

use crate::errors::DownloadError;
use crate::opt_str_view;

verus! {

/// A caller-supplied proxy configuration for one item.  Username and
/// password must both be present or both absent; `no_proxy` holds host
/// patterns ("*" bypasses everything, "*.suffix" matches by suffix,
/// anything else matches the host exactly).
pub struct ProxyConfig {
    pub url: String,
    pub username: Option<String>,
    pub password: Option<String>,
    pub no_proxy: Option<Vec<String>>,
    pub ignore_ssl: Option<bool>,
    pub verify_proxy_ssl: Option<bool>,
    pub verify_proxy_host_ssl: Option<bool>,
    pub verify_peer_ssl: Option<bool>,
    pub verify_host_ssl: Option<bool>,
}

/// What `url::Url::parse` extracts from a string: nothing when the
/// string is not a valid URL, else the scheme and, if any, the host.
/// The parse depends on the string alone.
pub uninterp spec fn url_parse_of(s: Seq<char>) -> Option<(Seq<char>, Option<Seq<char>>)>;

/// The scheme and host of a parsed URL.
pub struct UrlParts {
    pub scheme: String,
    pub host: Option<String>,
}

/// Relies on url::Url::parse, reading the parsed URL's scheme through
/// Url::scheme and its host through Url::host_str.
#[verifier::external_body]
fn parse_url_parts(s: &str) -> (r: Option<UrlParts>)
    ensures
        r is Some <==> url_parse_of(s@) is Some,
        (r matches Some(p) ==> url_parse_of(s@) == Some((p.scheme@, opt_str_view(p.host)))),
{
    match url::Url::parse(s) {
        Ok(u) => Some(
            UrlParts { scheme: u.scheme().to_string(), host: u.host_str().map(|h| h.to_string()) },
        ),
        Err(_) => None,
    }
}

/// Is this a proxy scheme the engine supports?
pub open spec fn scheme_supported(s: Seq<char>) -> bool {
    s == "http"@ || s == "https"@ || s == "socks4"@ || s == "socks5"@
}

/// Is this `no_proxy` entry well-formed?  It must be non-empty, and a
/// wildcard must name a suffix ("*." alone is rejected).
pub open spec fn no_proxy_entry_ok(e: Seq<char>) -> bool {
    e.len() > 0 && e != "*."@
}

/// The no-proxy patterns of a configuration; none means no patterns.
pub open spec fn spec_no_proxy_views(c: ProxyConfig) -> Seq<Seq<char>> {
    match c.no_proxy {
        Some(v) => v.deep_view(),
        None => Seq::empty(),
    }
}

/// The configuration's URL parses and names a supported scheme.
pub open spec fn spec_url_scheme_ok(c: ProxyConfig) -> bool {
    url_parse_of(c.url@) matches Some(p) && scheme_supported(p.0)
}

/// The configuration's credentials come in a pair or not at all.
pub open spec fn spec_credentials_ok(c: ProxyConfig) -> bool {
    &&& (c.username is Some ==> c.password is Some)
    &&& (c.password is Some ==> c.username is Some)
}

/// A configuration is valid when its URL parses to a supported scheme,
/// credentials come in pairs, and every no-proxy entry is well-formed.
pub open spec fn spec_proxy_valid(c: ProxyConfig) -> bool {
    &&& spec_url_scheme_ok(c)
    &&& spec_credentials_ok(c)
    &&& (forall|i: int|
        0 <= i < spec_no_proxy_views(c).len() ==> no_proxy_entry_ok(spec_no_proxy_views(c)[i]))
}

/// Entry `i` is the first ill-formed no-proxy entry, and `msg` is the
/// message reported for it.
pub open spec fn first_bad_entry_message(entries: Seq<Seq<char>>, i: int, msg: Seq<char>) -> bool {
    &&& 0 <= i < entries.len()
    &&& !no_proxy_entry_ok(entries[i])
    &&& (forall|j: int| 0 <= j < i ==> no_proxy_entry_ok(#[trigger] entries[j]))
    &&& msg == if entries[i].len() == 0 {
        "Empty no_proxy entry"@
    } else {
        "Invalid wildcard pattern: "@ + entries[i]
    }
}

/// The message a rejected configuration carries, per the first check
/// that fails.
pub open spec fn spec_validate_error_message(c: ProxyConfig, msg: Seq<char>) -> bool {
    if url_parse_of(c.url@) is None {
        msg == "Invalid proxy URL: "@ + c.url@
    } else if !(url_parse_of(c.url@) matches Some(p) && scheme_supported(p.0)) {
        url_parse_of(c.url@) matches Some(p) && msg == "Unsupported proxy scheme: "@ + p.0
    } else if c.username is Some && c.password is None {
        msg == "Username provided without password"@
    } else if c.password is Some && c.username is None {
        msg == "Password provided without username"@
    } else {
        // every earlier check passed: one of the entries is to blame
        exists|i: int| #[trigger] first_bad_entry_message(spec_no_proxy_views(c), i, msg)
    }
}

/// Checks a proxy configuration: URL parses, scheme is supported,
/// credentials are paired, and every no-proxy entry is well-formed.
/// Succeeds exactly on valid configurations; a rejection names the
/// first failing check.
pub fn validate_proxy_config(config: &ProxyConfig) -> (r: Result<(), DownloadError>)
    ensures
        r is Ok <==> spec_proxy_valid(*config),
        (r matches Err(e) ==> e matches DownloadError::Configuration { message }
            && spec_validate_error_message(*config, message@)),
{
    let parts = match parse_url_parts(config.url.as_str()) {
        Some(p) => p,
        None => {
            let mut message: String = "Invalid proxy URL: ".to_owned();
            message.append(config.url.as_str());
            return Err(DownloadError::Configuration { message });
        },
    };
    let supported = parts.scheme == "http".to_owned() || parts.scheme == "https".to_owned()
        || parts.scheme == "socks4".to_owned() || parts.scheme == "socks5".to_owned();
    if !supported {
        let mut message: String = "Unsupported proxy scheme: ".to_owned();
        message.append(parts.scheme.as_str());
        return Err(DownloadError::Configuration { message });
    }
    if config.username.is_some() && config.password.is_none() {
        return Err(
            DownloadError::Configuration {
                message: "Username provided without password".to_owned(),
            },
        );
    }
    if config.password.is_some() && config.username.is_none() {
        return Err(
            DownloadError::Configuration {
                message: "Password provided without username".to_owned(),
            },
        );
    }
    if let Some(no_proxy) = &config.no_proxy {
        let star_dot: String = "*.".to_owned();
        let mut i: usize = 0;
        while i < no_proxy.len()
            invariant
                0 <= i <= no_proxy@.len(),
                star_dot@ == "*."@,
                spec_url_scheme_ok(*config),
                spec_credentials_ok(*config),
                spec_no_proxy_views(*config) == no_proxy.deep_view(),
                forall|j: int| 0 <= j < i ==> no_proxy_entry_ok(no_proxy.deep_view()[j]),
            decreases no_proxy@.len() - i,
        {
            let entry = &no_proxy[i];
            proof {
                assert(no_proxy.deep_view()[i as int] == entry@);
            }
            if entry.as_str().unicode_len() == 0 {
                proof {
                    assert(first_bad_entry_message(
                        spec_no_proxy_views(*config),
                        i as int,
                        "Empty no_proxy entry"@,
                    ));
                }
                return Err(
                    DownloadError::Configuration { message: "Empty no_proxy entry".to_owned() },
                );
            }
            if *entry == star_dot {
                let mut message: String = "Invalid wildcard pattern: ".to_owned();
                message.append(entry.as_str());
                proof {
                    reveal_strlit("*.");
                    assert(first_bad_entry_message(
                        spec_no_proxy_views(*config),
                        i as int,
                        message@,
                    ));
                }
                return Err(DownloadError::Configuration { message });
            }
            i = i + 1;
        }
    }
    Ok(())
}

/// Does `host` match this no-proxy entry?  "*" matches everything; a
/// "*.suffix" pattern matches hosts that end in the suffix; any other
/// entry must equal the host exactly.
pub open spec fn spec_entry_matches(host: Seq<char>, entry: Seq<char>) -> bool {
    if entry == "*"@ {
        true
    } else if entry.len() >= 2 && entry.take(2) == "*."@ {
        host.len() >= entry.len() - 2 && host.skip(host.len() - (entry.len() - 2)) == entry.skip(2)
    } else {
        entry == host
    }
}

/// Does `host` match any of the no-proxy entries?
pub open spec fn spec_host_bypasses(host: Seq<char>, entries: Seq<Seq<char>>) -> bool {
    exists|i: int| 0 <= i < entries.len() && #[trigger] spec_entry_matches(host, entries[i])
}

/// Does the host end with the suffix of the wildcard `entry` (its
/// characters after the leading "*.")?
fn host_ends_with_suffix(host: &str, entry: &str) -> (r: bool)
    requires
        entry@.len() >= 2,
    ensures
        r == (host@.len() >= entry@.len() - 2 && host@.skip(
            host@.len() - (entry@.len() - 2),
        ) == entry@.skip(2)),
{
    let hlen = host.unicode_len();
    let elen = entry.unicode_len();
    let dlen = elen - 2;
    if hlen < dlen {
        return false;
    }
    let start = hlen - dlen;
    let mut k: usize = 0;
    while k < dlen
        invariant
            0 <= k <= dlen,
            elen == entry@.len(),
            dlen == elen - 2,
            hlen == host@.len(),
            hlen >= dlen,
            start == hlen - dlen,
            forall|j: int| 0 <= j < k ==> #[trigger] host@[start + j] == entry@[2 + j],
        decreases dlen - k,
    {
        let hc = host.get_char(start + k);
        let ec = entry.get_char(2 + k);
        if hc != ec {
            proof {
                assert(host@.skip(start as int)[k as int] == host@[start + k]);
                assert(entry@.skip(2)[k as int] == entry@[2 + k]);
            }
            return false;
        }
        k = k + 1;
    }
    proof {
        assert forall|j: int| 0 <= j < dlen implies host@.skip(start as int)[j] == entry@.skip(2)[j] by {
            assert(host@.skip(start as int)[j] == host@[start + j]);
            assert(entry@.skip(2)[j] == entry@[2 + j]);
        }
        assert(host@.skip(start as int) =~= entry@.skip(2));
    }
    true
}

/// Does `host` match one entry, by the wildcard rules above?
fn host_matches_entry(host: &str, entry: &str) -> (r: bool)
    ensures
        r == spec_entry_matches(host@, entry@),
{
    let entry_owned = entry.to_owned();
    if entry_owned == "*".to_owned() {
        return true;
    }
    let elen = entry.unicode_len();
    if elen >= 2 {
        let head = entry.substring_char(0, 2);
        if head.to_owned() == "*.".to_owned() {
            proof {
                assert(entry@.subrange(0, 2) =~= entry@.take(2));
            }
            return host_ends_with_suffix(host, entry);
        }
    }
    entry_owned == host.to_owned()
}

/// Does `host` match any entry of the no-proxy list?
pub fn host_bypasses(host: &str, no_proxy: &Vec<String>) -> (r: bool)
    ensures
        r == spec_host_bypasses(host@, no_proxy.deep_view()),
{
    let mut i: usize = 0;
    while i < no_proxy.len()
        invariant
            0 <= i <= no_proxy@.len(),
            forall|j: int|
                0 <= j < i ==> !#[trigger] spec_entry_matches(host@, no_proxy.deep_view()[j]),
        decreases no_proxy@.len() - i,
    {
        if host_matches_entry(host, no_proxy[i].as_str()) {
            proof {
                assert(spec_entry_matches(host@, no_proxy.deep_view()[i as int]));
            }
            return true;
        }
        proof {
            assert(no_proxy.deep_view()[i as int] == no_proxy@[i as int]@);
        }
        i = i + 1;
    }
    false
}

/// Should a request for `url` bypass the proxy?  True exactly when the
/// URL parses, has a host, and some no-proxy entry matches that host;
/// false otherwise, including when the URL does not parse.
pub open spec fn spec_should_bypass(url: Seq<char>, entries: Seq<Seq<char>>) -> bool {
    url_parse_of(url) matches Some(p) && p.1 matches Some(host) && spec_host_bypasses(host, entries)
}

/// Decides proxy bypass for one URL against the no-proxy patterns.
pub fn should_bypass_proxy(url: &str, no_proxy: &Vec<String>) -> (r: bool)
    ensures
        r == spec_should_bypass(url@, no_proxy.deep_view()),
{
    if no_proxy.len() == 0 {
        return false;
    }
    let parts = match parse_url_parts(url) {
        Some(p) => p,
        None => {
            return false;
        },
    };
    match &parts.host {
        Some(h) => host_bypasses(h.as_str(), no_proxy),
        None => false,
    }
}

/// Whether reqwest can build a proxy handle from this URL string: a
/// function of the string alone.
pub uninterp spec fn proxy_builds(s: Seq<char>) -> bool;

/// `reqwest::Proxy` passes through the engine opaquely.
#[verifier::external_type_specification]
#[verifier::external_body]
pub struct ExProxy(reqwest::Proxy);

/// Relies on reqwest::Proxy::all: builds a proxy handle routing all
/// traffic through the given URL; success depends on the URL alone.
#[verifier::external_body]
fn proxy_all(url: &str) -> (r: Result<reqwest::Proxy, String>)
    ensures
        r is Ok <==> proxy_builds(url@),
{
    reqwest::Proxy::all(url).map_err(|e| e.to_string())
}

/// Relies on reqwest::Proxy::all followed by Proxy::basic_auth.
/// Attaching credentials writes them into the proxy URL and panics on a
/// URL that cannot carry them (a `file` scheme, or no host), so this
/// wrapper demands a parsed URL of a supported scheme — on every such
/// URL the credentials are accepted.  Success of the build itself
/// depends on the URL alone.
#[verifier::external_body]
fn proxy_all_basic_auth(url: &str, username: &str, password: &str) -> (r: Result<
    reqwest::Proxy,
    String,
>)
    requires
        url_parse_of(url@) matches Some(p) && scheme_supported(p.0),
    ensures
        r is Ok <==> proxy_builds(url@),
{
    reqwest::Proxy::all(url).map(|p| p.basic_auth(username, password)).map_err(|e| e.to_string())
}

/// Validates the configuration, then builds the transport-level proxy,
/// with basic credentials when both are provided.  Succeeds exactly on
/// valid configurations whose URL the transport accepts.
pub fn create_proxy_from_config(config: &ProxyConfig) -> (r: Result<reqwest::Proxy, DownloadError>)
    ensures
        r is Ok <==> spec_proxy_valid(*config) && proxy_builds(config.url@),
        (r matches Err(e) ==> e matches DownloadError::Configuration { .. }),
{
    validate_proxy_config(config)?;
    let built = match (&config.username, &config.password) {
        (Some(u), Some(p)) => proxy_all_basic_auth(config.url.as_str(), u.as_str(), p.as_str()),
        _ => proxy_all(config.url.as_str()),
    };
    match built {
        Ok(p) => Ok(p),
        Err(message) => Err(DownloadError::Configuration { message }),
    }
}

/// Does this item's request want the proxy attached?  It does unless
/// its URL bypasses by the configuration's no-proxy patterns.
pub open spec fn spec_wants_proxy(url: Seq<char>, c: ProxyConfig) -> bool {
    !spec_should_bypass(url, spec_no_proxy_views(c))
}

/// The transport settings for one item, from which the host builds its
/// HTTP client: whether to accept invalid TLS certificates, and the
/// proxy handle to attach, if any.
pub struct ClientPlan {
    pub accept_invalid_certs: bool,
    pub proxy: Option<reqwest::Proxy>,
}

/// A plan exists for this item: either it has no proxy configuration,
/// or its URL bypasses the proxy, or the configuration is valid and the
/// transport accepts its URL.
pub open spec fn spec_plan_ok(url: Seq<char>, proxy_config: Option<ProxyConfig>) -> bool {
    match proxy_config {
        Some(c) => spec_wants_proxy(url, c) ==> (spec_proxy_valid(c) && proxy_builds(c.url@)),
        None => true,
    }
}

/// The item's request wants the proxy attached.
pub open spec fn spec_plan_wants(url: Seq<char>, proxy_config: Option<ProxyConfig>) -> bool {
    match proxy_config {
        Some(c) => spec_wants_proxy(url, c),
        None => false,
    }
}

/// The configuration asks to accept invalid TLS certificates.
pub open spec fn spec_plan_ignore_ssl(proxy_config: Option<ProxyConfig>) -> bool {
    match proxy_config {
        Some(c) => c.ignore_ssl == Some(true),
        None => false,
    }
}

/// Decides the transport settings for one item: invalid certificates
/// are accepted only when the configuration asks to ignore SSL, and the
/// proxy is attached unless the item's URL bypasses it.
pub fn client_plan_for_item(url: &str, proxy_config: &Option<ProxyConfig>) -> (r: Result<
    ClientPlan,
    DownloadError,
>)
    ensures
        r is Ok <==> spec_plan_ok(url@, *proxy_config),
        (r matches Ok(plan) ==> {
            &&& plan.accept_invalid_certs == spec_plan_ignore_ssl(*proxy_config)
            &&& (plan.proxy is Some <==> spec_plan_wants(url@, *proxy_config))
        }),
        (r matches Err(e) ==> e matches DownloadError::Configuration { .. }),
{
    match proxy_config {
        None => Ok(ClientPlan { accept_invalid_certs: false, proxy: None }),
        Some(c) => {
            let accept_invalid_certs = match c.ignore_ssl {
                Some(b) => b,
                None => false,
            };
            let empty: Vec<String> = Vec::new();
            let entries: &Vec<String> = match &c.no_proxy {
                Some(v) => v,
                None => &empty,
            };
            proof {
                assert(empty.deep_view() =~= Seq::<Seq<char>>::empty());
            }
            if should_bypass_proxy(url, entries) {
                Ok(ClientPlan { accept_invalid_certs, proxy: None })
            } else {
                let proxy = create_proxy_from_config(c)?;
                Ok(ClientPlan { accept_invalid_certs, proxy: Some(proxy) })
            }
        },
    }
}

} // verus!
