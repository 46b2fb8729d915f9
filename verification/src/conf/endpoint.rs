//! Endpoint options: where to listen, where to forward, and how.
use vstd::prelude::*;
use vstd::string::*;
use crate::conf::net::{NetConf, or, spec_bind_opts, spec_conn_opts};
use crate::conf::log::clone_opt_string;
use crate::conf::dns::clone_strings;
use crate::endpoint::{
    opt_view, BindOpts, BindOptsView, ConnectOptsView, Endpoint, EndpointView, IpAddress, RemoteAddr,
    RemoteAddrView, SockAddr,
};
use crate::text::{find_last, index_of_last, parse_unsigned, spec_parse_unsigned};

verus! {

/// The options of one endpoint as configured.
#[derive(Debug, Clone)]
pub struct EndpointConf {
    pub listen: String,
    pub remote: String,
    pub extra_remotes: Vec<String>,
    pub balance: Option<String>,
    pub through: Option<String>,
    pub interface: Option<String>,
    pub listen_interface: Option<String>,
    pub listen_transport: Option<String>,
    pub remote_transport: Option<String>,
    pub network: NetConf,
}

/// The model of an endpoint's options.
pub struct EndpointConfView {
    pub listen: Seq<char>,
    pub remote: Seq<char>,
    pub extra_remotes: Seq<Seq<char>>,
    pub balance: Option<Seq<char>>,
    pub through: Option<Seq<char>>,
    pub interface: Option<Seq<char>>,
    pub listen_interface: Option<Seq<char>>,
    pub listen_transport: Option<Seq<char>>,
    pub remote_transport: Option<Seq<char>>,
    pub network: NetConf,
}

impl View for EndpointConf {
    type V = EndpointConfView;

    open spec fn view(&self) -> EndpointConfView {
        EndpointConfView {
            listen: self.listen@,
            remote: self.remote@,
            extra_remotes: self.extra_remotes@.map_values(|x: String| x@),
            balance: opt_view(self.balance),
            through: opt_view(self.through),
            interface: opt_view(self.interface),
            listen_interface: opt_view(self.listen_interface),
            listen_transport: opt_view(self.listen_transport),
            remote_transport: opt_view(self.remote_transport),
            network: self.network,
        }
    }
}

/// What an endpoint's options build into.
#[derive(Debug, Clone)]
pub struct EndpointInfo {
    pub no_tcp: bool,
    pub use_udp: bool,
    pub endpoint: Endpoint,
}

/// What the system gave for the addresses of an endpoint's options, looked
/// up outside this library: the listen address; each remote read as a
/// socket address, if it is one; the first address `through` resolves to,
/// if it resolves; and `through`, without brackets, read as an IP address.
#[derive(Debug, Clone)]
pub struct AddrLookups {
    pub local: SockAddr,
    pub remote: Option<SockAddr>,
    pub extra_remotes: Vec<Option<SockAddr>>,
    pub through: Option<SockAddr>,
    pub through_ip: Option<IpAddress>,
}

/// The remote a text stands for: the socket address it reads as, or else a
/// domain name and the port after its last `:`; none when neither fits.
pub open spec fn spec_remote(text: Seq<char>, as_socket: Option<SockAddr>) -> Option<RemoteAddrView> {
    match as_socket {
        Some(a) => Some(RemoteAddrView::SocketAddr(a)),
        None => match find_last(text, ':') {
            Some(k) => match spec_parse_unsigned(text.skip(k + 1), u16::MAX as nat) {
                Some(p) => Some(RemoteAddrView::DomainName(text.take(k), p as u16)),
                None => None,
            },
            None => None,
        },
    }
}

/// The address outbound connections bind to: none without `through`;
/// otherwise the address `through` resolves to, or else its IP with port 0.
pub open spec fn spec_send_through(
    through: Option<Seq<char>>,
    resolved: Option<SockAddr>,
    ip: Option<IpAddress>,
) -> Option<SockAddr> {
    match through {
        None => None,
        Some(_) => match resolved {
            Some(a) => Some(a),
            None => match ip {
                Some(i) => Some(SockAddr { ip: i, port: 0, flowinfo: 0, scope_id: 0 }),
                None => None,
            },
        },
    }
}

/// Whether every remote of the options stands for an address, given what
/// each reads as.
pub open spec fn remotes_resolvable(c: EndpointConfView, l: AddrLookups) -> bool {
    &&& spec_remote(c.remote, l.remote) is Some
    &&& l.extra_remotes@.len() == c.extra_remotes.len()
    &&& forall|i: int| 0 <= i < c.extra_remotes.len()
        ==> #[trigger] spec_remote(c.extra_remotes[i], l.extra_remotes@[i]) is Some
}

/// The endpoint that options build into, given the looked-up addresses.
pub open spec fn spec_endpoint(c: EndpointConfView, l: AddrLookups) -> EndpointView {
    let conn = spec_conn_opts(c.network);
    EndpointView {
        laddr: l.local,
        raddr: spec_remote(c.remote, l.remote).unwrap(),
        bind_opts: BindOptsView { ipv6_only: spec_bind_opts(c.network).ipv6_only, bind_interface: c.listen_interface },
        conn_opts: ConnectOptsView {
            bind_address: spec_send_through(c.through, l.through, l.through_ip),
            bind_interface: c.interface,
            balance: c.balance,
            ..conn
        },
        extra_raddrs: Seq::new(
            c.extra_remotes.len(),
            |i: int| spec_remote(c.extra_remotes[i], l.extra_remotes@[i]).unwrap(),
        ),
    }
}

/// The remote a text stands for, given what it reads as as a socket
/// address: that address, or else the domain name before the last `:` and
/// the port after it; none when the port does not read as one.
pub fn parse_remote(text: &str, as_socket: Option<SockAddr>) -> (r: Option<RemoteAddr>)
    ensures
        match r {
            Some(a) => spec_remote(text@, as_socket) == Some(a@),
            None => spec_remote(text@, as_socket) is None,
        },
{
    match as_socket {
        Some(a) => Some(RemoteAddr::SocketAddr(a)),
        None => {
            let n = text.unicode_len();
            match index_of_last(text, ':') {
                Some(k) => {
                    let port_text = text.substring_char(k + 1, n);
                    assert(port_text@ =~= text@.skip(k + 1));
                    match parse_unsigned(port_text, u16::MAX as u64) {
                        Some(p) => {
                            let host = String::from_str(text.substring_char(0, k));
                            assert(host@ =~= text@.take(k as int));
                            Some(RemoteAddr::DomainName(host, p as u16))
                        },
                        None => None,
                    }
                },
                None => None,
            }
        },
    }
}

/// The address outbound connections bind to: none without `through`;
/// otherwise the address it resolves to, or else its IP with port 0.
pub fn build_send_through(
    through: &Option<String>,
    resolved: Option<SockAddr>,
    ip: Option<IpAddress>,
) -> (r: Option<SockAddr>)
    ensures
        r == spec_send_through(opt_view(*through), resolved, ip),
{
    match through {
        None => None,
        Some(_) => match resolved {
            Some(a) => Some(a),
            None => match ip {
                Some(i) => Some(SockAddr::new(i, 0)),
                None => None,
            },
        },
    }
}

/// `s` without its square brackets, as written around IPv6 addresses.
pub open spec fn without_brackets(s: Seq<char>) -> Seq<char> {
    s.filter(|c: char| c != '[' && c != ']')
}

/// Removes every `[` and `]` from `s`.
pub fn strip_brackets(s: &str) -> (r: String)
    ensures
        r@ == without_brackets(s@),
{
    let n = s.unicode_len();
    let mut r = String::new();
    let mut start: usize = 0;
    let mut i: usize = 0;
    while i < n
        invariant
            start <= i <= n,
            n == s@.len(),
            r@ == without_brackets(s@.take(start as int)),
            forall|k: int| start <= k < i ==> s@[k] != '[' && s@[k] != ']',
        decreases n - i,
    {
        let c = s.get_char(i);
        if c == '[' || c == ']' {
            r.append(s.substring_char(start, i));
            proof {
                lemma_filter_kept(s@, start as int, i as int);
            }
            start = i + 1;
        }
        i = i + 1;
    }
    r.append(s.substring_char(start, n));
    proof {
        lemma_filter_kept(s@, start as int, n as int);
        assert(s@.take(n as int) =~= s@);
    }
    r
}

/// Characters between `start` and `end` that are no brackets pass the
/// filter unchanged, and a bracket at `end` is dropped.
proof fn lemma_filter_kept(s: Seq<char>, start: int, end: int)
    requires
        0 <= start <= end <= s.len(),
        forall|k: int| start <= k < end ==> s[k] != '[' && s[k] != ']',
    ensures
        without_brackets(s.take(end)) == without_brackets(s.take(start)) + s.subrange(start, end),
        end < s.len() && (s[end] == '[' || s[end] == ']') ==> without_brackets(s.take(end + 1))
            == without_brackets(s.take(start)) + s.subrange(start, end),
    decreases end - start,
{
    reveal_with_fuel(Seq::filter, 1);
    if start < end {
        lemma_filter_kept(s, start, end - 1);
        assert(s.take(end).drop_last() =~= s.take(end - 1));
        assert(s.subrange(start, end) =~= s.subrange(start, end - 1).push(s[end - 1]));
    } else {
        assert(s.subrange(start, end) =~= Seq::<char>::empty());
    }
    if end < s.len() && (s[end] == '[' || s[end] == ']') {
        assert(s.take(end + 1).drop_last() =~= s.take(end));
    }
}

impl EndpointConf {
    /// A copy of the options.
    pub fn duplicate(&self) -> (r: EndpointConf)
        ensures
            r@ == self@,
    {
        EndpointConf {
            listen: self.listen.clone(),
            remote: self.remote.clone(),
            extra_remotes: clone_strings(&self.extra_remotes),
            balance: clone_opt_string(&self.balance),
            through: clone_opt_string(&self.through),
            interface: clone_opt_string(&self.interface),
            listen_interface: clone_opt_string(&self.listen_interface),
            listen_transport: clone_opt_string(&self.listen_transport),
            remote_transport: clone_opt_string(&self.remote_transport),
            network: self.network,
        }
    }

    /// An endpoint's options is never empty.
    pub fn is_empty(&self) -> (r: bool)
        ensures
            !r,
    {
        false
    }

    /// The endpoint these options stand for, given the looked-up addresses:
    /// network options with their defaults, the remotes as they read, the
    /// outbound bind address from `through`, and the interfaces and
    /// balancing strategy as configured.
    pub fn build(self, lookups: AddrLookups) -> (r: EndpointInfo)
        requires
            remotes_resolvable(self@, lookups),
        ensures
            r.no_tcp == or(self.network.no_tcp, false),
            r.use_udp == or(self.network.use_udp, false),
            r.endpoint@ == spec_endpoint(self@, lookups),
    {
        let ghost conf = self@;
        let raddr = match parse_remote(self.remote.as_str(), lookups.remote) {
            Some(a) => a,
            None => {
                assert(false);
                RemoteAddr::DomainName(String::new(), 0)
            },
        };
        let mut extra_raddrs: Vec<RemoteAddr> = Vec::new();
        let mut i: usize = 0;
        while i < self.extra_remotes.len()
            invariant
                i <= self.extra_remotes@.len(),
                conf == self@,
                remotes_resolvable(conf, lookups),
                extra_raddrs@.len() == i,
                forall|j: int| 0 <= j < i ==> #[trigger] extra_raddrs@[j]@ == spec_remote(
                    conf.extra_remotes[j],
                    lookups.extra_remotes@[j],
                ).unwrap(),
            decreases self.extra_remotes@.len() - i,
        {
            assert(conf.extra_remotes[i as int] == self.extra_remotes@[i as int]@);
            let a = match parse_remote(self.extra_remotes[i].as_str(), lookups.extra_remotes[i]) {
                Some(a) => a,
                None => {
                    assert(spec_remote(conf.extra_remotes[i as int], lookups.extra_remotes@[i as int]) is Some);
                    assert(false);
                    RemoteAddr::DomainName(String::new(), 0)
                },
            };
            extra_raddrs.push(a);
            i = i + 1;
        }
        let bind_address = build_send_through(&self.through, lookups.through, lookups.through_ip);
        let info = self.network.build();
        let mut conn_opts = info.conn_opts;
        conn_opts.bind_address = bind_address;
        conn_opts.bind_interface = self.interface;
        conn_opts.balance = self.balance;
        let bind_opts = BindOpts { ipv6_only: info.bind_opts.ipv6_only, bind_interface: self.listen_interface };
        let endpoint = Endpoint { laddr: lookups.local, raddr, bind_opts, conn_opts, extra_raddrs };
        assert(endpoint@.extra_raddrs =~= spec_endpoint(conf, lookups).extra_raddrs);
        EndpointInfo { no_tcp: info.no_tcp, use_udp: info.use_udp, endpoint }
    }

    /// Endpoint options from command-line values, with no network options,
    /// no extra remotes and no balancing.
    pub fn from_cmd_values(
        listen: String,
        remote: String,
        through: Option<String>,
        interface: Option<String>,
        listen_interface: Option<String>,
        listen_transport: Option<String>,
        remote_transport: Option<String>,
    ) -> (r: EndpointConf)
        ensures
            r@ == (EndpointConfView {
                listen: listen@,
                remote: remote@,
                extra_remotes: Seq::empty(),
                balance: None,
                through: opt_view(through),
                interface: opt_view(interface),
                listen_interface: opt_view(listen_interface),
                listen_transport: opt_view(listen_transport),
                remote_transport: opt_view(remote_transport),
                network: crate::conf::net::empty_net(),
            }),
    {
        let r = EndpointConf {
            listen,
            remote,
            through,
            interface,
            listen_interface,
            listen_transport,
            remote_transport,
            network: NetConf::default(),
            extra_remotes: Vec::new(),
            balance: None,
        };
        assert(r@.extra_remotes =~= Seq::<Seq<char>>::empty());
        r
    }
}

} // verus!
