//! The values a relay endpoint is made of: socket addresses, the remote
//! peer, and the listen-side and connect-side options.
use vstd::prelude::*;

verus! {

/// An IP address: IPv4 as its 32 bits, IPv6 as its 128 bits, most
/// significant first, as `Ipv4Addr::to_bits` and `Ipv6Addr::to_bits` give them.
#[derive(Debug, Clone, Copy, PartialEq, Eq, Structural)]
pub enum IpAddress {
    V4(u32),
    V6(u128),
}

/// A socket address: an IP address with a port, and for IPv6 the flow
/// information and scope id.
#[derive(Debug, Clone, Copy, PartialEq, Eq, Structural)]
pub struct SockAddr {
    pub ip: IpAddress,
    pub port: u16,
    pub flowinfo: u32,
    pub scope_id: u32,
}

impl SockAddr {
    /// The address of `ip` with `port`, with no flow information or scope.
    pub fn new(ip: IpAddress, port: u16) -> (r: SockAddr)
        ensures
            r == (SockAddr { ip, port, flowinfo: 0, scope_id: 0 }),
    {
        SockAddr { ip, port, flowinfo: 0, scope_id: 0 }
    }
}

/// Where a relay forwards to: a literal socket address, or a domain name
/// with a port that is looked up when a connection is made.
#[derive(Debug, Clone)]
pub enum RemoteAddr {
    SocketAddr(SockAddr),
    DomainName(String, u16),
}

/// The model of a remote address, with the domain name as its characters.
pub enum RemoteAddrView {
    SocketAddr(SockAddr),
    DomainName(Seq<char>, u16),
}

impl View for RemoteAddr {
    type V = RemoteAddrView;

    open spec fn view(&self) -> RemoteAddrView {
        match self {
            RemoteAddr::SocketAddr(a) => RemoteAddrView::SocketAddr(*a),
            RemoteAddr::DomainName(d, p) => RemoteAddrView::DomainName(d@, *p),
        }
    }
}

/// The haproxy PROXY protocol options of an endpoint.
#[derive(Debug, Clone, Copy, PartialEq, Eq, Structural)]
pub struct HaproxyOpts {
    pub send_proxy: bool,
    pub accept_proxy: bool,
    pub send_proxy_version: usize,
    pub accept_proxy_timeout: usize,
}

impl Default for HaproxyOpts {
    fn default() -> (r: HaproxyOpts)
        ensures
            r == (HaproxyOpts {
                send_proxy: false,
                accept_proxy: false,
                send_proxy_version: 0,
                accept_proxy_timeout: 0,
            }),
    {
        HaproxyOpts { send_proxy: false, accept_proxy: false, send_proxy_version: 0, accept_proxy_timeout: 0 }
    }
}

/// Options of the listening side of an endpoint.
#[derive(Debug, Clone)]
pub struct BindOpts {
    pub ipv6_only: bool,
    pub bind_interface: Option<String>,
}

/// The model of the listen options.
pub struct BindOptsView {
    pub ipv6_only: bool,
    pub bind_interface: Option<Seq<char>>,
}

/// The characters of an optional string.
pub open spec fn opt_view(s: Option<String>) -> Option<Seq<char>> {
    match s {
        Some(x) => Some(x@),
        None => None,
    }
}

impl View for BindOpts {
    type V = BindOptsView;

    open spec fn view(&self) -> BindOptsView {
        BindOptsView { ipv6_only: self.ipv6_only, bind_interface: opt_view(self.bind_interface) }
    }
}

/// Options of the connecting side of an endpoint.
#[derive(Debug, Clone)]
pub struct ConnectOpts {
    pub tcp_keepalive: usize,
    pub tcp_keepalive_probe: usize,
    pub connect_timeout: usize,
    pub associate_timeout: usize,
    pub bind_address: Option<SockAddr>,
    pub bind_interface: Option<String>,
    pub balance: Option<String>,
    pub proxy_opts: HaproxyOpts,
}

/// The model of the connect options.
pub struct ConnectOptsView {
    pub tcp_keepalive: usize,
    pub tcp_keepalive_probe: usize,
    pub connect_timeout: usize,
    pub associate_timeout: usize,
    pub bind_address: Option<SockAddr>,
    pub bind_interface: Option<Seq<char>>,
    pub balance: Option<Seq<char>>,
    pub proxy_opts: HaproxyOpts,
}

impl View for ConnectOpts {
    type V = ConnectOptsView;

    open spec fn view(&self) -> ConnectOptsView {
        ConnectOptsView {
            tcp_keepalive: self.tcp_keepalive,
            tcp_keepalive_probe: self.tcp_keepalive_probe,
            connect_timeout: self.connect_timeout,
            associate_timeout: self.associate_timeout,
            bind_address: self.bind_address,
            bind_interface: opt_view(self.bind_interface),
            balance: opt_view(self.balance),
            proxy_opts: self.proxy_opts,
        }
    }
}

/// A relay endpoint: where to listen, where to forward, and how.
#[derive(Debug, Clone)]
pub struct Endpoint {
    pub laddr: SockAddr,
    pub raddr: RemoteAddr,
    pub bind_opts: BindOpts,
    pub conn_opts: ConnectOpts,
    pub extra_raddrs: Vec<RemoteAddr>,
}

/// The model of an endpoint.
pub struct EndpointView {
    pub laddr: SockAddr,
    pub raddr: RemoteAddrView,
    pub bind_opts: BindOptsView,
    pub conn_opts: ConnectOptsView,
    pub extra_raddrs: Seq<RemoteAddrView>,
}

impl View for Endpoint {
    type V = EndpointView;

    open spec fn view(&self) -> EndpointView {
        EndpointView {
            laddr: self.laddr,
            raddr: self.raddr@,
            bind_opts: self.bind_opts@,
            conn_opts: self.conn_opts@,
            extra_raddrs: self.extra_raddrs@.map_values(|r: RemoteAddr| r@),
        }
    }
}

} // verus!
