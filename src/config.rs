use vstd::prelude::*;
use vstd::string::StringExecFns;
use crate::status::copy_opt_string;

verus! {

/// Port that the VPN portal's WireGuard listener takes when none is given.
pub const DEFAULT_WIREGUARD_PORT: u32 = 22022;

/// Largest TCP/UDP port number.
pub const MAX_PORT: u32 = 65535;

/// Settings for one network instance as a user entered them.
#[derive(Debug)]
pub struct NetworkConfig {
    pub id: String,
    pub dhcp: bool,
    pub ipv4: Option<String>,
    pub device_name: Option<String>,
    pub token: Option<String>,
    pub network_name: Option<String>,
    pub network_secret: Option<String>,
    pub peer_urls: Vec<String>,
    pub proxy_cidrs: Option<Vec<String>>,
    pub vpn_portal_port: Option<u32>,
    pub vpn_portal_addr: Option<String>,
    pub listener_urls: Vec<String>,
    pub rpc_port: Option<u32>,
}

/// The VPN portal: the client network and the WireGuard listen port.
pub struct VpnPortalConfig {
    pub client_cidr: String,
    pub wireguard_port: u16,
}

/// A validated engine configuration.
pub struct EngineConfig {
    pub id: u128,
    pub hostname: Option<String>,
    pub inst_name: String,
    pub network_name: String,
    pub network_secret: String,
    pub dhcp: bool,
    pub ipv4: Option<u32>,
    pub peers: Vec<String>,
    pub listeners: Vec<String>,
    pub proxy_cidrs: Vec<String>,
    pub rpc_port: u16,
    pub vpn_portal: Option<VpnPortalConfig>,
}

/// Why a `NetworkConfig` was rejected. The strings hold the offending text.
#[derive(Debug)]
pub enum ConfigError {
    InvalidId(String),
    NoNetworkIdentity,
    InvalidIpv4(String),
    InvalidPeerUrl(String),
    NoPeerUrls,
    InvalidListenerUrl(String),
    InvalidProxyCidr(String),
    InvalidRpcPort(u32),
    InvalidVpnPortalCidr(String),
    InvalidVpnPortalPort(u32),
}

pub uninterp spec fn uuid_of(s: Seq<char>) -> Option<u128>;

pub uninterp spec fn url_of(s: Seq<char>) -> Option<Seq<char>>;

pub uninterp spec fn ip_cidr_of(s: Seq<char>) -> Option<Seq<char>>;

pub uninterp spec fn ipv4_cidr_of(s: Seq<char>) -> Option<Seq<char>>;

pub uninterp spec fn ipv4_of(s: Seq<char>) -> Option<u32>;

pub uninterp spec fn md5_of(s: Seq<char>) -> Seq<u8>;

/// Relies on `uuid::Uuid::parse_str`: the UUID that the text denotes, as its
/// 128-bit value, or `None` where it is no UUID.
#[verifier::external_body]
fn parse_uuid(s: &String) -> (r: Option<u128>)
    ensures
        r == uuid_of(s@),
{
    uuid::Uuid::parse_str(s).ok().map(|u| u.as_u128())
}

/// Relies on `url::Url::parse`: the URL's serialization, or `None` where the
/// text is no absolute URL.
#[verifier::external_body]
fn parse_url(s: &String) -> (r: Option<String>)
    ensures
        match r {
            Some(u) => url_of(s@) == Some(u@),
            None => url_of(s@) is None,
        },
{
    url::Url::parse(s).ok().map(|u| String::from(u))
}

/// Relies on `cidr::IpCidr`'s `FromStr`: the network written back in its
/// canonical form, or `None` where the text is no IPv4 or IPv6 network.
#[verifier::external_body]
fn parse_ip_cidr(s: &String) -> (r: Option<String>)
    ensures
        match r {
            Some(c) => ip_cidr_of(s@) == Some(c@),
            None => ip_cidr_of(s@) is None,
        },
{
    s.parse::<cidr::IpCidr>().ok().map(|c| c.to_string())
}

/// Relies on `cidr::Ipv4Cidr`'s `FromStr`: the network written back in its
/// canonical form, or `None` where the text is no IPv4 network.
#[verifier::external_body]
fn parse_ipv4_cidr(s: &String) -> (r: Option<String>)
    ensures
        match r {
            Some(c) => ipv4_cidr_of(s@) == Some(c@),
            None => ipv4_cidr_of(s@) is None,
        },
{
    s.parse::<cidr::Ipv4Cidr>().ok().map(|c| c.to_string())
}

/// Relies on `core::net::Ipv4Addr`'s `FromStr`: the address as a big-endian
/// integer, or `None` where the text is no dotted-quad address.
#[verifier::external_body]
fn parse_ipv4(s: &String) -> (r: Option<u32>)
    ensures
        r == ipv4_of(s@),
{
    s.parse::<core::net::Ipv4Addr>().ok().map(|a| u32::from(a))
}

/// Relies on `md5::compute`: the 16-byte MD5 digest of the text's UTF-8 bytes.
#[verifier::external_body]
fn md5_digest(s: &String) -> (r: Vec<u8>)
    ensures
        r@ == md5_of(s@),
        r@.len() == 16,
{
    md5::compute(s.as_bytes()).0.to_vec()
}

/// Relies on `FromIterator<char>` for `String`: the characters in order.
#[verifier::external_body]
fn string_from_chars(v: &Vec<char>) -> (r: String)
    ensures
        r@ == v@,
{
    v.iter().collect()
}

pub open spec fn hex_digit(n: u8) -> char {
    if n < 10 {
        ('0' as u8 + n) as char
    } else {
        ('a' as u8 + (n - 10)) as char
    }
}

/// Lower-case hexadecimal text of `b`, two digits per byte.
pub open spec fn hex_of(b: Seq<u8>) -> Seq<char> {
    Seq::new(
        2 * b.len(),
        |i: int|
            if i % 2 == 0 {
                hex_digit(b[i / 2] / 16)
            } else {
                hex_digit(b[i / 2] % 16)
            },
    )
}

fn hex_char(n: u8) -> (c: char)
    requires
        n < 16,
    ensures
        c == hex_digit(n),
{
    if n < 10 {
        (48u8 + n) as char
    } else {
        (97u8 + (n - 10)) as char
    }
}

fn to_hex(b: &Vec<u8>) -> (r: Vec<char>)
    requires
        b@.len() <= 1024,
    ensures
        r@ == hex_of(b@),
{
    let mut out: Vec<char> = Vec::new();
    let mut i: usize = 0;
    while i < b.len()
        invariant
            i <= b@.len(),
            b@.len() <= 1024,
            out@.len() == 2 * i,
            forall|k: int| 0 <= k < 2 * i ==> out@[k] == hex_of(b@)[k],
        decreases b@.len() - i,
    {
        let x = b[i];
        out.push(hex_char(x / 16));
        out.push(hex_char(x % 16));
        proof {
            assert forall|k: int| 0 <= k < 2 * (i + 1) implies out@[k] == hex_of(b@)[k] by {
                if k >= 2 * i {
                    assert(k / 2 == i);
                }
            }
        }
        i = i + 1;
    }
    assert(out@ =~= hex_of(b@));
    out
}

fn sub_chars(v: &Vec<char>, lo: usize, hi: usize) -> (r: Vec<char>)
    requires
        lo <= hi <= v@.len(),
    ensures
        r@ == v@.subrange(lo as int, hi as int),
{
    let mut out: Vec<char> = Vec::new();
    let mut i: usize = lo;
    while i < hi
        invariant
            lo <= i <= hi <= v@.len(),
            out@ == v@.subrange(lo as int, i as int),
        decreases hi - i,
    {
        out.push(v[i]);
        i = i + 1;
        assert(out@ =~= v@.subrange(lo as int, i as int));
    }
    out
}

/// Network name and secret: the given name with its secret (empty when
/// none), or else the hex MD5 digest of the token, split after eight digits.
pub open spec fn identity_of(c: NetworkConfig) -> (Seq<char>, Seq<char>) {
    match c.network_name {
        Some(n) => (
            n@,
            match c.network_secret {
                Some(s) => s@,
                None => Seq::empty(),
            },
        ),
        None => {
            let h = hex_of(md5_of(c.token.unwrap()@));
            (h.take(8), h.skip(8))
        },
    }
}

/// Which parser a list of texts goes through.
pub enum TextKind {
    Url,
    IpCidr,
}

pub open spec fn parse_text(kind: TextKind, s: Seq<char>) -> Option<Seq<char>> {
    match kind {
        TextKind::Url => url_of(s),
        TextKind::IpCidr => ip_cidr_of(s),
    }
}

/// Parses each element of `s` with `parse`, in order, skipping empty ones when
/// `skip_empty`; the first element that does not parse is the error.
pub open spec fn parse_each(s: Seq<String>, kind: TextKind, skip_empty: bool) -> Result<
    Seq<Seq<char>>,
    String,
>
    decreases s.len(),
{
    if s.len() == 0 {
        Ok(Seq::empty())
    } else {
        match parse_each(s.drop_last(), kind, skip_empty) {
            Err(e) => Err(e),
            Ok(prev) => {
                let x = s.last();
                if skip_empty && x@.len() == 0 {
                    Ok(prev)
                } else {
                    match parse_text(kind, x@) {
                        None => Err(x),
                        Some(p) => Ok(prev.push(p)),
                    }
                }
            },
        }
    }
}

pub open spec fn peers_of(c: NetworkConfig) -> Result<Seq<Seq<char>>, String> {
    parse_each(c.peer_urls@, TextKind::Url, true)
}

pub open spec fn listeners_of(c: NetworkConfig) -> Result<Seq<Seq<char>>, String> {
    parse_each(c.listener_urls@, TextKind::Url, true)
}

pub open spec fn proxies_of(c: NetworkConfig) -> Result<Seq<Seq<char>>, String> {
    match c.proxy_cidrs {
        Some(v) => parse_each(v@, TextKind::IpCidr, false),
        None => Ok(Seq::empty()),
    }
}

/// Whether a static address is to be parsed: no DHCP and a non-empty one.
pub open spec fn wants_ipv4(c: NetworkConfig) -> bool {
    !c.dhcp && c.ipv4 is Some && c.ipv4.unwrap()@.len() > 0
}

pub open spec fn rpc_port_of(c: NetworkConfig) -> u32 {
    match c.rpc_port {
        Some(p) => p,
        None => 0,
    }
}

pub open spec fn wireguard_port_of(c: NetworkConfig) -> u32 {
    match c.vpn_portal_port {
        Some(p) => p,
        None => DEFAULT_WIREGUARD_PORT,
    }
}

pub open spec fn vpn_cidr_text(c: NetworkConfig) -> Seq<char> {
    c.vpn_portal_addr.unwrap()@ + "/24"@
}

/// The first check that `c` fails, in the order they are made, or `None`.
pub open spec fn config_error(c: NetworkConfig) -> Option<ConfigError> {
    if uuid_of(c.id@) is None {
        Some(ConfigError::InvalidId(c.id))
    } else if c.network_name is None && c.token is None {
        Some(ConfigError::NoNetworkIdentity)
    } else if wants_ipv4(c) && ipv4_of(c.ipv4.unwrap()@) is None {
        Some(ConfigError::InvalidIpv4(c.ipv4.unwrap()))
    } else if peers_of(c) is Err {
        Some(ConfigError::InvalidPeerUrl(peers_of(c)->Err_0))
    } else if peers_of(c)->Ok_0.len() == 0 {
        Some(ConfigError::NoPeerUrls)
    } else if listeners_of(c) is Err {
        Some(ConfigError::InvalidListenerUrl(listeners_of(c)->Err_0))
    } else if proxies_of(c) is Err {
        Some(ConfigError::InvalidProxyCidr(proxies_of(c)->Err_0))
    } else if rpc_port_of(c) > MAX_PORT {
        Some(ConfigError::InvalidRpcPort(rpc_port_of(c)))
    } else if c.vpn_portal_addr is Some && ipv4_cidr_of(vpn_cidr_text(c)) is None {
        Some(ConfigError::InvalidVpnPortalCidr(c.vpn_portal_addr.unwrap()))
    } else if c.vpn_portal_addr is Some && wireguard_port_of(c) > MAX_PORT {
        Some(ConfigError::InvalidVpnPortalPort(wireguard_port_of(c)))
    } else {
        None
    }
}

pub open spec fn views_of(v: Seq<String>) -> Seq<Seq<char>> {
    v.map_values(|s: String| s@)
}

/// `e` is the engine configuration that a valid `c` describes.
pub open spec fn built_from(c: NetworkConfig, e: EngineConfig) -> bool {
    &&& Some(e.id) == uuid_of(c.id@)
    &&& e.hostname == c.device_name
    &&& e.network_name@ == identity_of(c).0
    &&& e.network_secret@ == identity_of(c).1
    &&& e.inst_name@ == identity_of(c).0
    &&& e.dhcp == c.dhcp
    &&& e.ipv4 == if wants_ipv4(c) {
        ipv4_of(c.ipv4.unwrap()@)
    } else {
        None
    }
    &&& peers_of(c) == Ok::<Seq<Seq<char>>, String>(views_of(e.peers@))
    &&& listeners_of(c) == Ok::<Seq<Seq<char>>, String>(views_of(e.listeners@))
    &&& proxies_of(c) == Ok::<Seq<Seq<char>>, String>(views_of(e.proxy_cidrs@))
    &&& e.rpc_port as u32 == rpc_port_of(c)
    &&& match c.vpn_portal_addr {
        None => e.vpn_portal is None,
        Some(_) => e.vpn_portal matches Some(p) && Some(p.client_cidr@) == ipv4_cidr_of(
            vpn_cidr_text(c),
        ) && p.wireguard_port as u32 == wireguard_port_of(c),
    }
}

/// An element that does not parse decides the outcome for every longer list.
proof fn lemma_parse_each_prefix_err(s: Seq<String>, k: int, kind: TextKind, skip_empty: bool)
    requires
        0 <= k <= s.len(),
        parse_each(s.take(k), kind, skip_empty) is Err,
    ensures
        parse_each(s, kind, skip_empty) == parse_each(s.take(k), kind, skip_empty),
    decreases s.len(),
{
    if s.len() == k {
        assert(s.take(k) =~= s);
    } else {
        assert(s.drop_last().take(k) =~= s.take(k));
        lemma_parse_each_prefix_err(s.drop_last(), k, kind, skip_empty);
    }
}

fn parse_list(v: &Vec<String>, kind: TextKind, skip_empty: bool) -> (r: Result<Vec<String>, String>)
    ensures
        match r {
            Ok(out) => parse_each(v@, kind, skip_empty) == Ok::<Seq<Seq<char>>, String>(views_of(out@)),
            Err(e) => parse_each(v@, kind, skip_empty) == Err::<Seq<Seq<char>>, String>(e),
        },
{
    let mut out: Vec<String> = Vec::new();
    let mut i: usize = 0;
    assert(v@.take(0) =~= Seq::<String>::empty());
    assert(views_of(out@) =~= Seq::<Seq<char>>::empty());
    while i < v.len()
        invariant
            i <= v@.len(),
            parse_each(v@.take(i as int), kind, skip_empty) == Ok::<Seq<Seq<char>>, String>(views_of(out@)),
        decreases v@.len() - i,
    {
        let x = &v[i];
        proof {
            assert(v@.take(i + 1).drop_last() =~= v@.take(i as int));
            assert(v@.take(i + 1).last() == v@[i as int]);
        }
        if skip_empty && x.as_str().is_empty() {
        } else {
            let parsed = match kind {
                TextKind::Url => parse_url(x),
                TextKind::IpCidr => parse_ip_cidr(x),
            };
            match parsed {
                None => {
                    proof {
                        lemma_parse_each_prefix_err(v@, i + 1, kind, skip_empty);
                    }
                    return Err(x.clone());
                },
                Some(p) => {
                    let ghost before = out@;
                    out.push(p);
                    assert(views_of(out@) =~= views_of(before).push(out@.last()@));
                },
            }
        }
        i = i + 1;
    }
    assert(v@.take(v@.len() as int) =~= v@);
    Ok(out)
}

impl NetworkConfig {
    /// Validates the settings and builds the engine configuration from them.
    pub fn gen_config(&self) -> (r: Result<EngineConfig, ConfigError>)
        ensures
            r is Err <==> config_error(*self) is Some,
            r matches Err(e) ==> config_error(*self) == Some(e),
            r matches Ok(e) ==> built_from(*self, e),
    {
        let id = match parse_uuid(&self.id) {
            Some(u) => u,
            None => {
                return Err(ConfigError::InvalidId(self.id.clone()));
            },
        };
        let (network_name, network_secret) = match &self.network_name {
            Some(n) => (
                n.clone(),
                match &self.network_secret {
                    Some(s) => s.clone(),
                    None => String::new(),
                },
            ),
            None => match &self.token {
                None => {
                    return Err(ConfigError::NoNetworkIdentity);
                },
                Some(t) => {
                    let digest = md5_digest(t);
                    let hex = to_hex(&digest);
                    let name = string_from_chars(&sub_chars(&hex, 0, 8));
                    let secret = string_from_chars(&sub_chars(&hex, 8, 32));
                    assert(hex@.take(8) =~= hex@.subrange(0, 8));
                    assert(hex@.skip(8) =~= hex@.subrange(8, 32));
                    (name, secret)
                },
            },
        };
        let mut ipv4: Option<u32> = None;
        if !self.dhcp {
            if let Some(a) = &self.ipv4 {
                if !a.as_str().is_empty() {
                    match parse_ipv4(a) {
                        Some(x) => {
                            ipv4 = Some(x);
                        },
                        None => {
                            return Err(ConfigError::InvalidIpv4(a.clone()));
                        },
                    }
                }
            }
        }
        let peers = match parse_list(&self.peer_urls, TextKind::Url, true) {
            Ok(p) => p,
            Err(e) => {
                return Err(ConfigError::InvalidPeerUrl(e));
            },
        };
        if peers.len() == 0 {
            return Err(ConfigError::NoPeerUrls);
        }
        let listeners = match parse_list(&self.listener_urls, TextKind::Url, true) {
            Ok(p) => p,
            Err(e) => {
                return Err(ConfigError::InvalidListenerUrl(e));
            },
        };
        let proxy_cidrs = match &self.proxy_cidrs {
            Some(v) => match parse_list(v, TextKind::IpCidr, false) {
                Ok(p) => p,
                Err(e) => {
                    return Err(ConfigError::InvalidProxyCidr(e));
                },
            },
            None => {
                let none: Vec<String> = Vec::new();
                assert(views_of(none@) =~= Seq::<Seq<char>>::empty());
                none
            },
        };
        let rpc_port: u32 = match self.rpc_port {
            Some(p) => p,
            None => 0,
        };
        if rpc_port > MAX_PORT {
            return Err(ConfigError::InvalidRpcPort(rpc_port));
        }
        let vpn_portal = match &self.vpn_portal_addr {
            None => None,
            Some(addr) => {
                let mut text = addr.clone();
                text.append("/24");
                let client_cidr = match parse_ipv4_cidr(&text) {
                    Some(c) => c,
                    None => {
                        return Err(ConfigError::InvalidVpnPortalCidr(addr.clone()));
                    },
                };
                let port: u32 = match self.vpn_portal_port {
                    Some(p) => p,
                    None => DEFAULT_WIREGUARD_PORT,
                };
                if port > MAX_PORT {
                    return Err(ConfigError::InvalidVpnPortalPort(port));
                }
                Some(VpnPortalConfig { client_cidr, wireguard_port: port as u16 })
            },
        };
        let r = EngineConfig {
                id,
                hostname: copy_opt_string(&self.device_name),
                inst_name: network_name.clone(),
                network_name,
                network_secret,
                dhcp: self.dhcp,
                ipv4,
                peers,
                listeners,
                proxy_cidrs,
                rpc_port: rpc_port as u16,
                vpn_portal,
            };
        Ok(r)
    }
}

/// Validates `cfg` and builds its engine configuration.
pub fn parse_network_config(cfg: &NetworkConfig) -> (r: Result<EngineConfig, ConfigError>)
    ensures
        r is Err <==> config_error(*cfg) is Some,
        r matches Err(e) ==> config_error(*cfg) == Some(e),
        r matches Ok(e) ==> built_from(*cfg, e),
{
    cfg.gen_config()
}

} // verus!
