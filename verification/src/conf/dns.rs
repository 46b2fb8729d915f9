//! DNS resolver options: lookup strategy, cache, transport and servers.
use vstd::prelude::*;
use vstd::string::*;
use trust_dns_resolver::config::ResolverOpts;
use crate::conf::{rst, take, rst_opt, take_opt};
use crate::conf::net::or;
use crate::endpoint::SockAddr;
use crate::text::{
    ascii_lower, lower_eq, decimal, fmt_unsigned, join, join_strings, split_on, split_str,
    spec_parse_unsigned, parse_unsigned,
};

verus! {

/// Which address families a lookup asks for, and in what order.
#[derive(Debug, Clone, Copy, PartialEq, Eq, Structural)]
pub enum DnsMode {
    Ipv4Only,
    Ipv6Only,
    Ipv4AndIpv6,
    Ipv4ThenIpv6,
    Ipv6ThenIpv4,
}

impl Default for DnsMode {
    fn default() -> (r: DnsMode)
        ensures
            r == DnsMode::Ipv4AndIpv6,
    {
        DnsMode::Ipv4AndIpv6
    }
}

/// The name of a mode, as configuration files write it.
pub open spec fn mode_name(m: DnsMode) -> Seq<char> {
    match m {
        DnsMode::Ipv4Only => "ipv4_only"@,
        DnsMode::Ipv6Only => "ipv6_only"@,
        DnsMode::Ipv4AndIpv6 => "ipv4_and_ipv6"@,
        DnsMode::Ipv4ThenIpv6 => "ipv4_then_ipv6"@,
        DnsMode::Ipv6ThenIpv4 => "ipv6_then_ipv4"@,
    }
}

/// The mode a name stands for, ignoring ASCII case; an unknown name stands
/// for the default mode, `ipv4_and_ipv6`.
pub open spec fn mode_from_name(s: Seq<char>) -> DnsMode {
    let l = ascii_lower(s);
    if l == "ipv4_only"@ {
        DnsMode::Ipv4Only
    } else if l == "ipv6_only"@ {
        DnsMode::Ipv6Only
    } else if l == "ipv4_and_ipv6"@ {
        DnsMode::Ipv4AndIpv6
    } else if l == "ipv4_then_ipv6"@ {
        DnsMode::Ipv4ThenIpv6
    } else if l == "ipv6_then_ipv4"@ {
        DnsMode::Ipv6ThenIpv4
    } else {
        DnsMode::Ipv4AndIpv6
    }
}

impl DnsMode {
    /// The mode a name stands for, ignoring ASCII case; the default mode for
    /// an unknown name.
    pub fn from_name(s: &str) -> (r: DnsMode)
        ensures
            r == mode_from_name(s@),
    {
        if lower_eq(s, "ipv4_only") {
            DnsMode::Ipv4Only
        } else if lower_eq(s, "ipv6_only") {
            DnsMode::Ipv6Only
        } else if lower_eq(s, "ipv4_and_ipv6") {
            DnsMode::Ipv4AndIpv6
        } else if lower_eq(s, "ipv4_then_ipv6") {
            DnsMode::Ipv4ThenIpv6
        } else if lower_eq(s, "ipv6_then_ipv4") {
            DnsMode::Ipv6ThenIpv4
        } else {
            DnsMode::Ipv4AndIpv6
        }
    }

    /// The name of the mode.
    pub fn to_string(&self) -> (r: String)
        ensures
            r@ == mode_name(*self),
    {
        let s = match self {
            DnsMode::Ipv4Only => "ipv4_only",
            DnsMode::Ipv6Only => "ipv6_only",
            DnsMode::Ipv4AndIpv6 => "ipv4_and_ipv6",
            DnsMode::Ipv4ThenIpv6 => "ipv4_then_ipv6",
            DnsMode::Ipv6ThenIpv4 => "ipv6_then_ipv4",
        };
        String::from_str(s)
    }
}

impl From<String> for DnsMode {
    fn from(s: String) -> (r: DnsMode) {
        DnsMode::from_name(s.as_str())
    }
}

impl vstd::std_specs::convert::FromSpecImpl<String> for DnsMode {
    open spec fn obeys_from_spec() -> bool {
        true
    }

    open spec fn from_spec(v: String) -> DnsMode {
        mode_from_name(v@)
    }
}

/// The transport the resolver talks to name servers over.
#[derive(Debug, Clone, Copy, PartialEq, Eq, Structural)]
pub enum DnsProtocol {
    Tcp,
    Udp,
    TcpAndUdp,
}

impl Default for DnsProtocol {
    fn default() -> (r: DnsProtocol)
        ensures
            r == DnsProtocol::TcpAndUdp,
    {
        DnsProtocol::TcpAndUdp
    }
}

/// The name of a protocol, as it is displayed.
pub open spec fn protocol_name(p: DnsProtocol) -> Seq<char> {
    match p {
        DnsProtocol::Tcp => "tcp"@,
        DnsProtocol::Udp => "udp"@,
        DnsProtocol::TcpAndUdp => "tcp+udp"@,
    }
}

/// The protocol a name stands for, ignoring ASCII case: `tcp`, `udp`, and
/// both for anything else.
pub open spec fn protocol_from_name(s: Seq<char>) -> DnsProtocol {
    let l = ascii_lower(s);
    if l == "tcp"@ {
        DnsProtocol::Tcp
    } else if l == "udp"@ {
        DnsProtocol::Udp
    } else {
        DnsProtocol::TcpAndUdp
    }
}

impl DnsProtocol {
    /// The protocol a name stands for, ignoring ASCII case.
    pub fn from_name(s: &str) -> (r: DnsProtocol)
        ensures
            r == protocol_from_name(s@),
    {
        if lower_eq(s, "tcp") {
            DnsProtocol::Tcp
        } else if lower_eq(s, "udp") {
            DnsProtocol::Udp
        } else {
            DnsProtocol::TcpAndUdp
        }
    }

    /// The name of the protocol.
    pub fn to_string(&self) -> (r: String)
        ensures
            r@ == protocol_name(*self),
    {
        let s = match self {
            DnsProtocol::Tcp => "tcp",
            DnsProtocol::Udp => "udp",
            DnsProtocol::TcpAndUdp => "tcp+udp",
        };
        String::from_str(s)
    }

    /// The transports a name server is asked over, in that order.
    pub fn transports(self) -> (r: Vec<Transport>)
        ensures
            r@ == transports_of(self),
    {
        let mut r: Vec<Transport> = Vec::new();
        match self {
            DnsProtocol::Tcp => r.push(Transport::Tcp),
            DnsProtocol::Udp => r.push(Transport::Udp),
            DnsProtocol::TcpAndUdp => {
                r.push(Transport::Tcp);
                r.push(Transport::Udp);
            },
        }
        assert(r@ =~= transports_of(self));
        r
    }
}

impl From<String> for DnsProtocol {
    fn from(s: String) -> (r: DnsProtocol) {
        DnsProtocol::from_name(s.as_str())
    }
}

impl vstd::std_specs::convert::FromSpecImpl<String> for DnsProtocol {
    open spec fn obeys_from_spec() -> bool {
        true
    }

    open spec fn from_spec(v: String) -> DnsProtocol {
        protocol_from_name(v@)
    }
}

/// A single transport to a name server.
#[derive(Debug, Clone, Copy, PartialEq, Eq, Structural)]
pub enum Transport {
    Tcp,
    Udp,
}

/// The transports a protocol setting stands for.
pub open spec fn transports_of(p: DnsProtocol) -> Seq<Transport> {
    match p {
        DnsProtocol::Tcp => seq![Transport::Tcp],
        DnsProtocol::Udp => seq![Transport::Udp],
        DnsProtocol::TcpAndUdp => seq![Transport::Tcp, Transport::Udp],
    }
}

/// How the resolver orders lookups of the two address families.
#[derive(Debug, Clone, Copy, PartialEq, Eq, Structural)]
pub enum LookupStrategy {
    Ipv4Only,
    Ipv6Only,
    Ipv4AndIpv6,
    Ipv6ThenIpv4,
    Ipv4ThenIpv6,
}

/// The lookup strategy a mode selects.
pub open spec fn strategy_of(m: DnsMode) -> LookupStrategy {
    match m {
        DnsMode::Ipv4Only => LookupStrategy::Ipv4Only,
        DnsMode::Ipv6Only => LookupStrategy::Ipv6Only,
        DnsMode::Ipv4AndIpv6 => LookupStrategy::Ipv4AndIpv6,
        DnsMode::Ipv4ThenIpv6 => LookupStrategy::Ipv4ThenIpv6,
        DnsMode::Ipv6ThenIpv4 => LookupStrategy::Ipv6ThenIpv4,
    }
}

impl DnsMode {
    /// The lookup strategy this mode selects.
    pub fn strategy(self) -> (r: LookupStrategy)
        ensures
            r == strategy_of(self),
    {
        match self {
            DnsMode::Ipv4Only => LookupStrategy::Ipv4Only,
            DnsMode::Ipv6Only => LookupStrategy::Ipv6Only,
            DnsMode::Ipv4AndIpv6 => LookupStrategy::Ipv4AndIpv6,
            DnsMode::Ipv4ThenIpv6 => LookupStrategy::Ipv4ThenIpv6,
            DnsMode::Ipv6ThenIpv4 => LookupStrategy::Ipv6ThenIpv4,
        }
    }
}

/// The cache size of the resolver when none is configured: the `cache_size`
/// field of trust-dns-resolver's `ResolverOpts::default()`, which that
/// crate's source sets to 32.
#[verifier::external_body]
fn resolver_default_cache_size() -> (r: usize)
    ensures
        r == 32,
{
    ResolverOpts::default().cache_size
}

/// The resolver options a configuration asks for; the TTLs are in seconds.
#[derive(Debug, Clone, Copy, PartialEq, Eq, Structural)]
pub struct ResolverOptsPlan {
    pub ip_strategy: LookupStrategy,
    pub positive_min_ttl: Option<u32>,
    pub positive_max_ttl: Option<u32>,
    pub cache_size: usize,
}

/// Which name servers the resolver asks.
#[derive(Debug, Clone)]
pub enum NameServers {
    /// The configured servers, each as `host:port` text.
    Custom(Vec<String>),
    /// The servers of the system's resolver configuration.
    System,
}

/// The resolver configuration a configuration asks for: every name server
/// is asked over each of the transports, in order.
#[derive(Debug, Clone)]
pub struct ResolverConfPlan {
    pub servers: NameServers,
    pub transports: Vec<Transport>,
}

/// DNS options; an unset field takes the resolver's default.
#[derive(Debug, Clone)]
pub struct DnsConf {
    pub mode: Option<DnsMode>,
    pub min_ttl: Option<u32>,
    pub max_ttl: Option<u32>,
    pub cache_size: Option<usize>,
    pub protocol: Option<DnsProtocol>,
    pub nameservers: Option<Vec<String>>,
}

/// The model of the DNS options.
pub struct DnsConfView {
    pub mode: Option<DnsMode>,
    pub min_ttl: Option<u32>,
    pub max_ttl: Option<u32>,
    pub cache_size: Option<usize>,
    pub protocol: Option<DnsProtocol>,
    pub nameservers: Option<Seq<Seq<char>>>,
}

/// The characters of each string of an optional list.
pub open spec fn opt_strings_view(v: Option<Vec<String>>) -> Option<Seq<Seq<char>>> {
    match v {
        Some(l) => Some(l@.map_values(|x: String| x@)),
        None => None,
    }
}

impl View for DnsConf {
    type V = DnsConfView;

    open spec fn view(&self) -> DnsConfView {
        DnsConfView {
            mode: self.mode,
            min_ttl: self.min_ttl,
            max_ttl: self.max_ttl,
            cache_size: self.cache_size,
            protocol: self.protocol,
            nameservers: opt_strings_view(self.nameservers),
        }
    }
}

/// Every field of `a` that `b` sets is replaced by `b`'s value.
pub open spec fn dns_rst(a: DnsConfView, b: DnsConfView) -> DnsConfView {
    DnsConfView {
        mode: rst(a.mode, b.mode),
        min_ttl: rst(a.min_ttl, b.min_ttl),
        max_ttl: rst(a.max_ttl, b.max_ttl),
        cache_size: rst(a.cache_size, b.cache_size),
        protocol: rst(a.protocol, b.protocol),
        nameservers: rst(a.nameservers, b.nameservers),
    }
}

/// Every field that `a` leaves unset takes `b`'s value.
pub open spec fn dns_take(a: DnsConfView, b: DnsConfView) -> DnsConfView {
    dns_rst(b, a)
}

/// The resolver options a configuration asks for: none when mode, TTLs and
/// cache size are all unset; otherwise an unset mode takes the default mode,
/// `ipv4_and_ipv6`, and an unset cache size the resolver's default.
pub open spec fn spec_resolver_opts(c: DnsConfView) -> Option<ResolverOptsPlan> {
    if c.mode is None && c.min_ttl is None && c.max_ttl is None && c.cache_size is None {
        None
    } else {
        Some(ResolverOptsPlan {
            ip_strategy: match c.mode {
                Some(m) => strategy_of(m),
                None => strategy_of(DnsMode::Ipv4AndIpv6),
            },
            positive_min_ttl: c.min_ttl,
            positive_max_ttl: c.max_ttl,
            cache_size: or(c.cache_size, 32usize),
        })
    }
}

/// A copy of a list of strings.
pub fn clone_strings(v: &Vec<String>) -> (r: Vec<String>)
    ensures
        r@.map_values(|x: String| x@) == v@.map_values(|x: String| x@),
{
    let mut r: Vec<String> = Vec::new();
    let mut i: usize = 0;
    while i < v.len()
        invariant
            i <= v@.len(),
            r@.len() == i,
            forall|j: int| 0 <= j < i ==> r@[j]@ == v@[j]@,
        decreases v@.len() - i,
    {
        r.push(v[i].clone());
        i = i + 1;
    }
    assert(r@.map_values(|x: String| x@) =~= v@.map_values(|x: String| x@));
    r
}

/// A copy of an optional list of strings.
pub fn clone_opt_strings(v: &Option<Vec<String>>) -> (r: Option<Vec<String>>)
    ensures
        opt_strings_view(r) == opt_strings_view(*v),
{
    match v {
        Some(l) => Some(clone_strings(l)),
        None => None,
    }
}

impl Default for DnsConf {
    fn default() -> (r: DnsConf)
        ensures
            r@ == DnsConf::empty_view(),
    {
        DnsConf { mode: None, min_ttl: None, max_ttl: None, cache_size: None, protocol: None, nameservers: None }
    }
}

impl DnsConf {
    /// The model of DNS options with nothing set.
    pub open spec fn empty_view() -> DnsConfView {
        DnsConfView {
            mode: None,
            min_ttl: None,
            max_ttl: None,
            cache_size: None,
            protocol: None,
            nameservers: None,
        }
    }

    /// Whether no field is set.
    pub fn is_empty(&self) -> (r: bool)
        ensures
            r == (self@ == DnsConf::empty_view()),
    {
        self.mode.is_none() && self.min_ttl.is_none() && self.max_ttl.is_none()
            && self.cache_size.is_none() && self.protocol.is_none() && self.nameservers.is_none()
    }

    /// Overrides each field with `other`'s where `other` sets it.
    pub fn rst_field(&mut self, other: &Self) -> (r: &mut Self)
        ensures
            r@ == dns_rst(old(self)@, other@),
            final(self)@ == final(r)@,
    {
        self.mode = rst_opt(self.mode, other.mode);
        self.min_ttl = rst_opt(self.min_ttl, other.min_ttl);
        self.max_ttl = rst_opt(self.max_ttl, other.max_ttl);
        self.cache_size = rst_opt(self.cache_size, other.cache_size);
        self.protocol = rst_opt(self.protocol, other.protocol);
        if other.nameservers.is_some() {
            self.nameservers = clone_opt_strings(&other.nameservers);
        }
        self
    }

    /// Fills each unset field from `other`.
    pub fn take_field(&mut self, other: &Self) -> (r: &mut Self)
        ensures
            r@ == dns_take(old(self)@, other@),
            final(self)@ == final(r)@,
    {
        self.mode = take_opt(self.mode, other.mode);
        self.min_ttl = take_opt(self.min_ttl, other.min_ttl);
        self.max_ttl = take_opt(self.max_ttl, other.max_ttl);
        self.cache_size = take_opt(self.cache_size, other.cache_size);
        self.protocol = take_opt(self.protocol, other.protocol);
        if self.nameservers.is_none() && other.nameservers.is_some() {
            self.nameservers = clone_opt_strings(&other.nameservers);
        }
        self
    }

    /// The resolver configuration and options these DNS options ask for.
    /// The configuration is left to the system (none) when no server is
    /// named and the protocol is the default; the options are left to the
    /// system (none) when mode, TTLs and cache size are all unset.
    pub fn build(self) -> (r: (Option<ResolverConfPlan>, Option<ResolverOptsPlan>))
        ensures
            r.1 == spec_resolver_opts(self@),
            match r.0 {
                None => self.nameservers is None
                    && or(self.protocol, DnsProtocol::TcpAndUdp) == DnsProtocol::TcpAndUdp,
                Some(p) => {
                    &&& (self.nameservers is Some
                        || or(self.protocol, DnsProtocol::TcpAndUdp) != DnsProtocol::TcpAndUdp)
                    &&& p.transports@ == transports_of(or(self.protocol, DnsProtocol::TcpAndUdp))
                    &&& match p.servers {
                        NameServers::Custom(l) => opt_strings_view(self.nameservers)
                            == Some(l@.map_values(|x: String| x@)),
                        NameServers::System => self.nameservers is None,
                    }
                },
            },
    {
        let DnsConf { mode, min_ttl, max_ttl, cache_size, protocol, nameservers } = self;
        let opts = if mode.is_none() && min_ttl.is_none() && max_ttl.is_none() && cache_size.is_none() {
            None
        } else {
            let ip_strategy = match mode {
                Some(m) => m.strategy(),
                None => DnsMode::default().strategy(),
            };
            let cache_size = match cache_size {
                Some(c) => c,
                None => resolver_default_cache_size(),
            };
            Some(ResolverOptsPlan {
                ip_strategy,
                positive_min_ttl: min_ttl,
                positive_max_ttl: max_ttl,
                cache_size,
            })
        };
        let protocol = match protocol {
            Some(p) => p,
            None => DnsProtocol::TcpAndUdp,
        };
        let is_default_protocol = match protocol {
            DnsProtocol::TcpAndUdp => true,
            _ => false,
        };
        if nameservers.is_none() && is_default_protocol {
            return (None, opts);
        }
        let transports = protocol.transports();
        let servers = match nameservers {
            Some(l) => NameServers::Custom(l),
            None => NameServers::System,
        };
        (Some(ResolverConfPlan { servers, transports }), opts)
    }

    /// A one-line description of the options, each unset one shown with its
    /// default: `mode=.., protocol=.., min-ttl=.., max-ttl=.., cache-size=..,
    /// servers=..`, the servers joined by `, ` or `system`.
    pub fn to_string(&self) -> (r: String)
        ensures
            r@ == dns_description(self@),
    {
        let mode = match self.mode {
            Some(m) => m,
            None => DnsMode::Ipv4AndIpv6,
        };
        let protocol = match self.protocol {
            Some(p) => p,
            None => DnsProtocol::TcpAndUdp,
        };
        let min_ttl: u32 = match self.min_ttl {
            Some(t) => t,
            None => 0,
        };
        let max_ttl: u32 = match self.max_ttl {
            Some(t) => t,
            None => 86400,
        };
        let cache_size: usize = match self.cache_size {
            Some(c) => c,
            None => 32,
        };
        let servers = match &self.nameservers {
            Some(l) => join_strings(l, ", "),
            None => String::from_str("system"),
        };
        let mut r = String::from_str("mode=");
        r.append(mode.to_string().as_str());
        r.append(", protocol=");
        r.append(protocol.to_string().as_str());
        r.append(", min-ttl=");
        r.append(fmt_unsigned(min_ttl as u64).as_str());
        r.append(", max-ttl=");
        r.append(fmt_unsigned(max_ttl as u64).as_str());
        r.append(", cache-size=");
        r.append(fmt_unsigned(cache_size as u64).as_str());
        r.append(", servers=");
        r.append(servers.as_str());
        r
    }

    /// DNS options from command-line values: the mode and protocol by name,
    /// the TTLs and cache size as decimal numbers, the servers as a
    /// comma-separated list.
    pub fn from_cmd_values(
        mode: Option<&str>,
        min_ttl: Option<&str>,
        max_ttl: Option<&str>,
        cache_size: Option<&str>,
        protocol: Option<&str>,
        servers: Option<&str>,
    ) -> (r: DnsConf)
        requires
            min_ttl matches Some(t) ==> spec_parse_unsigned(t@, u32::MAX as nat) is Some,
            max_ttl matches Some(t) ==> spec_parse_unsigned(t@, u32::MAX as nat) is Some,
            cache_size matches Some(c) ==> spec_parse_unsigned(c@, usize::MAX as nat) is Some,
        ensures
            r.mode == (match mode { Some(m) => Some(mode_from_name(m@)), None => None }),
            r.min_ttl == (match min_ttl {
                Some(t) => Some(spec_parse_unsigned(t@, u32::MAX as nat).unwrap() as u32),
                None => None,
            }),
            r.max_ttl == (match max_ttl {
                Some(t) => Some(spec_parse_unsigned(t@, u32::MAX as nat).unwrap() as u32),
                None => None,
            }),
            r.cache_size == (match cache_size {
                Some(c) => Some(spec_parse_unsigned(c@, usize::MAX as nat).unwrap() as usize),
                None => None,
            }),
            r.protocol == (match protocol { Some(p) => Some(protocol_from_name(p@)), None => None }),
            opt_strings_view(r.nameservers) == (match servers {
                Some(s) => Some(split_on(s@, ',')),
                None => None,
            }),
    {
        let mode = match mode {
            Some(m) => Some(DnsMode::from_name(m)),
            None => None,
        };
        let min_ttl = match min_ttl {
            Some(t) => Some(parse_unsigned(t, u32::MAX as u64).unwrap() as u32),
            None => None,
        };
        let max_ttl = match max_ttl {
            Some(t) => Some(parse_unsigned(t, u32::MAX as u64).unwrap() as u32),
            None => None,
        };
        let cache_size = match cache_size {
            Some(c) => Some(parse_unsigned(c, usize::MAX as u64).unwrap() as usize),
            None => None,
        };
        let protocol = match protocol {
            Some(p) => Some(DnsProtocol::from_name(p)),
            None => None,
        };
        let nameservers = match servers {
            Some(s) => Some(split_str(s, ',')),
            None => None,
        };
        DnsConf { mode, min_ttl, max_ttl, cache_size, protocol, nameservers }
    }
}

/// The description `DnsConf::to_string` gives.
pub open spec fn dns_description(c: DnsConfView) -> Seq<char> {
    "mode="@ + mode_name(or(c.mode, DnsMode::Ipv4AndIpv6))
        + ", protocol="@ + protocol_name(or(c.protocol, DnsProtocol::TcpAndUdp))
        + ", min-ttl="@ + decimal(or(c.min_ttl, 0u32) as nat)
        + ", max-ttl="@ + decimal(or(c.max_ttl, 86400u32) as nat)
        + ", cache-size="@ + decimal(or(c.cache_size, 32usize) as nat)
        + ", servers="@ + match c.nameservers {
            Some(l) => join(l, ", "@),
            None => "system"@,
        }
}

/// Every name server paired with every transport, server by server:
/// the pair at `i * transports.len() + j` is server `i` over transport `j`.
pub fn pair_name_servers<A: Copy>(servers: &Vec<A>, transports: &Vec<Transport>) -> (r: Vec<(A, Transport)>)
    requires
        servers@.len() * transports@.len() <= usize::MAX,
    ensures
        r@.len() == servers@.len() * transports@.len(),
        forall|i: int, j: int|
            0 <= i < servers@.len() && 0 <= j < transports@.len() ==> #[trigger] r@[i * transports@.len() + j]
                == (servers@[i], transports@[j]),
{
    let m = transports.len();
    let mut r: Vec<(A, Transport)> = Vec::new();
    let mut i: usize = 0;
    while i < servers.len()
        invariant
            i <= servers@.len(),
            m == transports@.len(),
            servers@.len() * m <= usize::MAX,
            r@.len() == i * m,
            forall|a: int, b: int|
                0 <= a < i && 0 <= b < m ==> #[trigger] r@[a * m + b] == (servers@[a], transports@[b]),
        decreases servers@.len() - i,
    {
        let mut j: usize = 0;
        while j < m
            invariant
                i < servers@.len(),
                j <= m,
                m == transports@.len(),
                servers@.len() * m <= usize::MAX,
                r@.len() == i * m + j,
                forall|a: int, b: int|
                    0 <= a < i && 0 <= b < m ==> #[trigger] r@[a * m + b] == (servers@[a], transports@[b]),
                forall|b: int| 0 <= b < j ==> #[trigger] r@[i * m + b] == (servers@[i as int], transports@[b]),
            decreases m - j,
        {
            proof {
                assert((i + 1) * m <= servers@.len() * m) by (nonlinear_arith)
                    requires
                        i + 1 <= servers@.len(),
                ;
                assert(i * m + j < (i + 1) * m) by (nonlinear_arith)
                    requires
                        j < m,
                ;
            }
            r.push((servers[i], transports[j]));
            proof {
                assert forall|a: int, b: int| 0 <= a < i && 0 <= b < m implies #[trigger] r@[a * m + b]
                    == (servers@[a], transports@[b]) by {
                    assert(a * m + b < i * m) by (nonlinear_arith)
                        requires
                            0 <= a < i,
                            0 <= b < m,
                    ;
                }
            }
            j = j + 1;
        }
        proof {
            assert forall|a: int, b: int| 0 <= a < i + 1 && 0 <= b < m implies #[trigger] r@[a * m + b]
                == (servers@[a], transports@[b]) by {
                if a == i {
                } else {
                }
            }
            assert((i + 1) * m == i * m + m) by (nonlinear_arith);
        }
        i = i + 1;
    }
    r
}

/// The addresses with each run of equal neighbours kept once.
pub open spec fn dedup_seq(s: Seq<SockAddr>) -> Seq<SockAddr>
    decreases s.len(),
{
    if s.len() == 0 {
        Seq::empty()
    } else {
        let d = dedup_seq(s.drop_last());
        if s.len() > 1 && s[s.len() - 2] == s.last() {
            d
        } else {
            d.push(s.last())
        }
    }
}

/// Removes consecutive repeated addresses, as `Vec::dedup` does, so that a
/// name server the system lists twice in a row is asked once.
pub fn dedup_addrs(v: &Vec<SockAddr>) -> (r: Vec<SockAddr>)
    ensures
        r@ == dedup_seq(v@),
{
    let mut r: Vec<SockAddr> = Vec::new();
    let mut i: usize = 0;
    while i < v.len()
        invariant
            i <= v@.len(),
            r@ == dedup_seq(v@.take(i as int)),
        decreases v@.len() - i,
    {
        proof {
            assert(v@.take(i + 1).drop_last() =~= v@.take(i as int));
        }
        if i == 0 || v[i - 1] != v[i] {
            r.push(v[i]);
        }
        i = i + 1;
    }
    assert(v@.take(v@.len() as int) =~= v@);
    r
}

} // verus!
