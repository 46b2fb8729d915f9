//! Network options, set globally or per endpoint.
use vstd::prelude::*;
use crate::conf::{rst, rst_opt, take_opt};
use crate::consts::{
    TCP_TIMEOUT, UDP_TIMEOUT, TCP_KEEPALIVE, TCP_KEEPALIVE_PROBE, PROXY_PROTOCOL_VERSION,
    PROXY_PROTOCOL_TIMEOUT,
};
use crate::text::{spec_parse_unsigned, parse_unsigned, str_eq};
use crate::endpoint::{BindOpts, BindOptsView, ConnectOpts, ConnectOptsView, HaproxyOpts};

verus! {

/// Network options; a field left unset takes its default when built.
#[derive(Debug, Clone, Copy, PartialEq, Eq, Structural)]
pub struct NetConf {
    pub no_tcp: Option<bool>,
    pub use_udp: Option<bool>,
    pub ipv6_only: Option<bool>,
    pub send_proxy: Option<bool>,
    pub accept_proxy: Option<bool>,
    pub send_proxy_version: Option<usize>,
    pub accept_proxy_timeout: Option<usize>,
    pub tcp_keepalive: Option<usize>,
    pub tcp_keepalive_probe: Option<usize>,
    pub tcp_timeout: Option<usize>,
    pub udp_timeout: Option<usize>,
}

/// What the network options build into.
#[derive(Debug, Clone)]
pub struct NetInfo {
    pub bind_opts: BindOpts,
    pub conn_opts: ConnectOpts,
    pub no_tcp: bool,
    pub use_udp: bool,
}

/// The network options with nothing set.
pub open spec fn empty_net() -> NetConf {
    NetConf {
        no_tcp: None,
        use_udp: None,
        ipv6_only: None,
        send_proxy: None,
        accept_proxy: None,
        send_proxy_version: None,
        accept_proxy_timeout: None,
        tcp_keepalive: None,
        tcp_keepalive_probe: None,
        tcp_timeout: None,
        udp_timeout: None,
    }
}

/// Every field of `a` that `b` sets is replaced by `b`'s value.
pub open spec fn net_rst(a: NetConf, b: NetConf) -> NetConf {
    NetConf {
        no_tcp: rst(a.no_tcp, b.no_tcp),
        use_udp: rst(a.use_udp, b.use_udp),
        ipv6_only: rst(a.ipv6_only, b.ipv6_only),
        send_proxy: rst(a.send_proxy, b.send_proxy),
        accept_proxy: rst(a.accept_proxy, b.accept_proxy),
        send_proxy_version: rst(a.send_proxy_version, b.send_proxy_version),
        accept_proxy_timeout: rst(a.accept_proxy_timeout, b.accept_proxy_timeout),
        tcp_keepalive: rst(a.tcp_keepalive, b.tcp_keepalive),
        tcp_keepalive_probe: rst(a.tcp_keepalive_probe, b.tcp_keepalive_probe),
        tcp_timeout: rst(a.tcp_timeout, b.tcp_timeout),
        udp_timeout: rst(a.udp_timeout, b.udp_timeout),
    }
}

/// The value held, or the fallback when there is none.
pub open spec fn or<T>(o: Option<T>, fallback: T) -> T {
    match o {
        Some(v) => v,
        None => fallback,
    }
}

/// Returns the value held, or the fallback when there is none.
pub fn unwrap_or<T: Copy>(o: Option<T>, fallback: T) -> (r: T)
    ensures
        r == or(o, fallback),
{
    match o {
        Some(v) => v,
        None => fallback,
    }
}

/// How `bool` reads its text: exactly `true` or `false`.
pub open spec fn spec_parse_bool(s: Seq<char>) -> Option<bool> {
    if s == "true"@ {
        Some(true)
    } else if s == "false"@ {
        Some(false)
    } else {
        None
    }
}

/// Reads `true` or `false`, as `bool`'s `from_str` does.
pub fn parse_bool(s: &str) -> (r: Option<bool>)
    ensures
        r == spec_parse_bool(s@),
{
    if str_eq(s, "true") {
        Some(true)
    } else if str_eq(s, "false") {
        Some(false)
    } else {
        None
    }
}

/// The number an optional command-line value reads as; no number when the
/// value is absent or does not read as one.
pub open spec fn opt_number(v: Option<&str>) -> Option<usize> {
    match v {
        Some(s) => match spec_parse_unsigned(s@, usize::MAX as nat) {
            Some(n) => Some(n as usize),
            None => None,
        },
        None => None,
    }
}

/// The flag an optional command-line value reads as.
pub open spec fn opt_flag(v: Option<&str>) -> Option<bool> {
    match v {
        Some(s) => spec_parse_bool(s@),
        None => None,
    }
}

fn read_number(v: Option<&str>) -> (r: Option<usize>)
    ensures
        r == opt_number(v),
{
    match v {
        Some(s) => match parse_unsigned(s, usize::MAX as u64) {
            Some(n) => Some(n as usize),
            None => None,
        },
        None => None,
    }
}

fn read_flag(v: Option<&str>) -> (r: Option<bool>)
    ensures
        r == opt_flag(v),
{
    match v {
        Some(s) => parse_bool(s),
        None => None,
    }
}

/// The listen options that network options build into.
pub open spec fn spec_bind_opts(n: NetConf) -> BindOptsView {
    BindOptsView { ipv6_only: or(n.ipv6_only, false), bind_interface: None }
}

/// The connect options that network options build into: each unset field
/// takes its default.
pub open spec fn spec_conn_opts(n: NetConf) -> ConnectOptsView {
    ConnectOptsView {
        tcp_keepalive: or(n.tcp_keepalive, TCP_KEEPALIVE),
        tcp_keepalive_probe: or(n.tcp_keepalive_probe, TCP_KEEPALIVE_PROBE),
        connect_timeout: or(n.tcp_timeout, TCP_TIMEOUT),
        associate_timeout: or(n.udp_timeout, UDP_TIMEOUT),
        bind_address: None,
        bind_interface: None,
        balance: None,
        proxy_opts: HaproxyOpts {
            send_proxy: or(n.send_proxy, false),
            accept_proxy: or(n.accept_proxy, false),
            send_proxy_version: or(n.send_proxy_version, PROXY_PROTOCOL_VERSION),
            accept_proxy_timeout: or(n.accept_proxy_timeout, PROXY_PROTOCOL_TIMEOUT),
        },
    }
}

/// Every field that `a` leaves unset takes `b`'s value.
pub open spec fn net_take(a: NetConf, b: NetConf) -> NetConf {
    net_rst(b, a)
}

impl Default for NetConf {
    fn default() -> (r: NetConf)
        ensures
            r == empty_net(),
    {
        NetConf {
            no_tcp: None,
            use_udp: None,
            ipv6_only: None,
            send_proxy: None,
            accept_proxy: None,
            send_proxy_version: None,
            accept_proxy_timeout: None,
            tcp_keepalive: None,
            tcp_keepalive_probe: None,
            tcp_timeout: None,
            udp_timeout: None,
        }
    }
}

impl NetConf {
    /// Whether no field is set.
    pub fn is_empty(&self) -> (r: bool)
        ensures
            r == (*self == empty_net()),
    {
        self.no_tcp.is_none() && self.use_udp.is_none() && self.ipv6_only.is_none()
            && self.send_proxy.is_none() && self.accept_proxy.is_none()
            && self.send_proxy_version.is_none() && self.accept_proxy_timeout.is_none()
            && self.tcp_keepalive.is_none() && self.tcp_keepalive_probe.is_none()
            && self.tcp_timeout.is_none() && self.udp_timeout.is_none()
    }

    /// Overrides each field with `other`'s where `other` sets it.
    pub fn rst_field(&mut self, other: &Self) -> (r: &mut Self)
        ensures
            *r == net_rst(*old(self), *other),
            *final(self) == *final(r),
    {
        let o = *other;
        self.no_tcp = rst_opt(self.no_tcp, o.no_tcp);
        self.use_udp = rst_opt(self.use_udp, o.use_udp);
        self.ipv6_only = rst_opt(self.ipv6_only, o.ipv6_only);
        self.tcp_keepalive = rst_opt(self.tcp_keepalive, o.tcp_keepalive);
        self.tcp_keepalive_probe = rst_opt(self.tcp_keepalive_probe, o.tcp_keepalive_probe);
        self.tcp_timeout = rst_opt(self.tcp_timeout, o.tcp_timeout);
        self.udp_timeout = rst_opt(self.udp_timeout, o.udp_timeout);
        self.send_proxy = rst_opt(self.send_proxy, o.send_proxy);
        self.accept_proxy = rst_opt(self.accept_proxy, o.accept_proxy);
        self.send_proxy_version = rst_opt(self.send_proxy_version, o.send_proxy_version);
        self.accept_proxy_timeout = rst_opt(self.accept_proxy_timeout, o.accept_proxy_timeout);
        self
    }

    /// Fills each unset field from `other`.
    pub fn take_field(&mut self, other: &Self) -> (r: &mut Self)
        ensures
            *r == net_take(*old(self), *other),
            *final(self) == *final(r),
    {
        let o = *other;
        self.no_tcp = take_opt(self.no_tcp, o.no_tcp);
        self.use_udp = take_opt(self.use_udp, o.use_udp);
        self.ipv6_only = take_opt(self.ipv6_only, o.ipv6_only);
        self.tcp_keepalive = take_opt(self.tcp_keepalive, o.tcp_keepalive);
        self.tcp_keepalive_probe = take_opt(self.tcp_keepalive_probe, o.tcp_keepalive_probe);
        self.tcp_timeout = take_opt(self.tcp_timeout, o.tcp_timeout);
        self.udp_timeout = take_opt(self.udp_timeout, o.udp_timeout);
        self.send_proxy = take_opt(self.send_proxy, o.send_proxy);
        self.accept_proxy = take_opt(self.accept_proxy, o.accept_proxy);
        self.send_proxy_version = take_opt(self.send_proxy_version, o.send_proxy_version);
        self.accept_proxy_timeout = take_opt(self.accept_proxy_timeout, o.accept_proxy_timeout);
        self
    }

    /// The listen and connect options these network options stand for;
    /// each unset field takes its default.
    pub fn build(self) -> (r: NetInfo)
        ensures
            r.no_tcp == or(self.no_tcp, false),
            r.use_udp == or(self.use_udp, false),
            r.bind_opts@ == spec_bind_opts(self),
            r.conn_opts@ == spec_conn_opts(self),
    {
        let no_tcp = unwrap_or(self.no_tcp, false);
        let use_udp = unwrap_or(self.use_udp, false);
        let ipv6_only = unwrap_or(self.ipv6_only, false);
        let bind_opts = BindOpts { ipv6_only, bind_interface: None };
        let conn_opts = ConnectOpts {
            tcp_keepalive: unwrap_or(self.tcp_keepalive, TCP_KEEPALIVE),
            tcp_keepalive_probe: unwrap_or(self.tcp_keepalive_probe, TCP_KEEPALIVE_PROBE),
            connect_timeout: unwrap_or(self.tcp_timeout, TCP_TIMEOUT),
            associate_timeout: unwrap_or(self.udp_timeout, UDP_TIMEOUT),
            bind_address: None,
            bind_interface: None,
            balance: None,
            proxy_opts: HaproxyOpts {
                send_proxy: unwrap_or(self.send_proxy, false),
                accept_proxy: unwrap_or(self.accept_proxy, false),
                send_proxy_version: unwrap_or(self.send_proxy_version, PROXY_PROTOCOL_VERSION),
                accept_proxy_timeout: unwrap_or(self.accept_proxy_timeout, PROXY_PROTOCOL_TIMEOUT),
            },
        };
        NetInfo { bind_opts, conn_opts, no_tcp, use_udp }
    }

    /// Network options from command-line values: a present switch sets its
    /// option, a value that does not read as a number or flag is left unset.
    pub fn from_cmd_values(
        no_tcp: bool,
        use_udp: bool,
        ipv6_only: bool,
        tcp_keepalive: Option<&str>,
        tcp_keepalive_probe: Option<&str>,
        tcp_timeout: Option<&str>,
        udp_timeout: Option<&str>,
        send_proxy: Option<&str>,
        send_proxy_version: Option<&str>,
        accept_proxy: Option<&str>,
        accept_proxy_timeout: Option<&str>,
    ) -> (r: NetConf)
        ensures
            r == (NetConf {
                no_tcp: if no_tcp { Some(true) } else { None },
                use_udp: if use_udp { Some(true) } else { None },
                ipv6_only: if ipv6_only { Some(true) } else { None },
                send_proxy: opt_flag(send_proxy),
                accept_proxy: opt_flag(accept_proxy),
                send_proxy_version: opt_number(send_proxy_version),
                accept_proxy_timeout: opt_number(accept_proxy_timeout),
                tcp_keepalive: opt_number(tcp_keepalive),
                tcp_keepalive_probe: opt_number(tcp_keepalive_probe),
                tcp_timeout: opt_number(tcp_timeout),
                udp_timeout: opt_number(udp_timeout),
            }),
    {
        NetConf {
            no_tcp: if no_tcp { Some(true) } else { None },
            use_udp: if use_udp { Some(true) } else { None },
            ipv6_only: if ipv6_only { Some(true) } else { None },
            send_proxy: read_flag(send_proxy),
            accept_proxy: read_flag(accept_proxy),
            send_proxy_version: read_number(send_proxy_version),
            accept_proxy_timeout: read_number(accept_proxy_timeout),
            tcp_keepalive: read_number(tcp_keepalive),
            tcp_keepalive_probe: read_number(tcp_keepalive_probe),
            tcp_timeout: read_number(tcp_timeout),
            udp_timeout: read_number(udp_timeout),
        }
    }
}

} // verus!
