//! What building the configuration yields: each option that is set is
//! carried into what it builds, and only an unset one takes its default.
use vstd::prelude::*;
use crate::consts::{
    TCP_TIMEOUT, UDP_TIMEOUT, TCP_KEEPALIVE, TCP_KEEPALIVE_PROBE, PROXY_PROTOCOL_VERSION,
    PROXY_PROTOCOL_TIMEOUT,
};
use crate::conf::net::{NetConf, spec_bind_opts, spec_conn_opts};
use crate::conf::dns::{
    DnsConfView, DnsMode, DnsProtocol, LookupStrategy, Transport, mode_name, protocol_name, strategy_of,
    spec_resolver_opts, dns_rst, dns_take, transports_of,
};
use crate::conf::log::{LogConfView, LogOutputView, output_for, log_rst, log_take};
use crate::conf::endpoint::{EndpointConfView, AddrLookups, spec_endpoint};

verus! {

/// The name a lookup strategy goes by: the address families it asks for,
/// in its order.
pub open spec fn strategy_name(s: LookupStrategy) -> Seq<char> {
    match s {
        LookupStrategy::Ipv4Only => "ipv4_only"@,
        LookupStrategy::Ipv6Only => "ipv6_only"@,
        LookupStrategy::Ipv4AndIpv6 => "ipv4_and_ipv6"@,
        LookupStrategy::Ipv4ThenIpv6 => "ipv4_then_ipv6"@,
        LookupStrategy::Ipv6ThenIpv4 => "ipv6_then_ipv4"@,
    }
}

/// A DNS mode selects the lookup strategy of its own name: `ipv6_only`
/// looks up IPv6 addresses only, `ipv4_then_ipv6` asks for IPv4 first, and
/// so on for every mode.
pub proof fn law_mode_selects_same_named_strategy(m: DnsMode)
    ensures
        strategy_name(strategy_of(m)) == mode_name(m),
{
}

/// The resolver options built from DNS options carry what is set: the
/// strategy named by the configured mode (the default mode, `ipv4_and_ipv6`,
/// when unset), the TTLs as given, and the cache size when given.
pub proof fn law_resolver_opts_carry_settings(c: DnsConfView)
    requires
        c.mode is Some || c.min_ttl is Some || c.max_ttl is Some || c.cache_size is Some,
    ensures
        spec_resolver_opts(c) is Some,
        strategy_name(spec_resolver_opts(c)->Some_0.ip_strategy) == mode_name(
            match c.mode {
                Some(m) => m,
                None => DnsMode::Ipv4AndIpv6,
            },
        ),
        spec_resolver_opts(c)->Some_0.positive_min_ttl == c.min_ttl,
        spec_resolver_opts(c)->Some_0.positive_max_ttl == c.max_ttl,
        c.cache_size matches Some(n) ==> spec_resolver_opts(c)->Some_0.cache_size == n,
{
}

/// Every network option that is set reaches the built listen and connect
/// options unchanged; an unset one takes its default.
pub proof fn law_net_build_carries_settings(n: NetConf)
    ensures
        spec_bind_opts(n).ipv6_only == (n.ipv6_only == Some(true)),
        spec_conn_opts(n).associate_timeout == (match n.udp_timeout {
            Some(t) => t,
            None => UDP_TIMEOUT,
        }),
        spec_conn_opts(n).connect_timeout == (match n.tcp_timeout {
            Some(t) => t,
            None => TCP_TIMEOUT,
        }),
        spec_conn_opts(n).tcp_keepalive == (match n.tcp_keepalive {
            Some(t) => t,
            None => TCP_KEEPALIVE,
        }),
        spec_conn_opts(n).tcp_keepalive_probe == (match n.tcp_keepalive_probe {
            Some(t) => t,
            None => TCP_KEEPALIVE_PROBE,
        }),
        spec_conn_opts(n).proxy_opts.send_proxy == (n.send_proxy == Some(true)),
        spec_conn_opts(n).proxy_opts.accept_proxy == (n.accept_proxy == Some(true)),
        spec_conn_opts(n).proxy_opts.send_proxy_version == (match n.send_proxy_version {
            Some(v) => v,
            None => PROXY_PROTOCOL_VERSION,
        }),
        spec_conn_opts(n).proxy_opts.accept_proxy_timeout == (match n.accept_proxy_timeout {
            Some(t) => t,
            None => PROXY_PROTOCOL_TIMEOUT,
        }),
{
}

/// An endpoint built from its options listens and connects as its network
/// options say: IPv6-only listening exactly when that option is set to
/// true, the configured timeouts and keepalive (or their defaults), and the
/// interfaces and balancing as configured.
pub proof fn law_endpoint_carries_network(c: EndpointConfView, l: AddrLookups)
    ensures
        spec_endpoint(c, l).bind_opts.ipv6_only == (c.network.ipv6_only == Some(true)),
        spec_endpoint(c, l).bind_opts.bind_interface == c.listen_interface,
        spec_endpoint(c, l).laddr == l.local,
        spec_endpoint(c, l).conn_opts.associate_timeout == (match c.network.udp_timeout {
            Some(t) => t,
            None => UDP_TIMEOUT,
        }),
        spec_endpoint(c, l).conn_opts.connect_timeout == (match c.network.tcp_timeout {
            Some(t) => t,
            None => TCP_TIMEOUT,
        }),
        spec_endpoint(c, l).conn_opts.tcp_keepalive == (match c.network.tcp_keepalive {
            Some(t) => t,
            None => TCP_KEEPALIVE,
        }),
        spec_endpoint(c, l).conn_opts.tcp_keepalive_probe == (match c.network.tcp_keepalive_probe {
            Some(t) => t,
            None => TCP_KEEPALIVE_PROBE,
        }),
        spec_endpoint(c, l).conn_opts.proxy_opts.send_proxy == (c.network.send_proxy == Some(true)),
        spec_endpoint(c, l).conn_opts.proxy_opts.accept_proxy == (c.network.accept_proxy == Some(true)),
        spec_endpoint(c, l).conn_opts.bind_interface == c.interface,
        spec_endpoint(c, l).conn_opts.balance == c.balance,
{
}

/// Command-line DNS options win field by field: each field is the
/// overriding options' value when they set it, and the overridden one
/// otherwise; filling in keeps what is set and takes the rest.
pub proof fn law_dns_override_field_by_field(a: DnsConfView, b: DnsConfView)
    ensures
        dns_rst(a, b).mode == (if b.mode is Some { b.mode } else { a.mode }),
        dns_rst(a, b).min_ttl == (if b.min_ttl is Some { b.min_ttl } else { a.min_ttl }),
        dns_rst(a, b).max_ttl == (if b.max_ttl is Some { b.max_ttl } else { a.max_ttl }),
        dns_rst(a, b).cache_size == (if b.cache_size is Some { b.cache_size } else { a.cache_size }),
        dns_rst(a, b).protocol == (if b.protocol is Some { b.protocol } else { a.protocol }),
        dns_rst(a, b).nameservers == (if b.nameservers is Some { b.nameservers } else { a.nameservers }),
        dns_take(a, b).mode == (if a.mode is Some { a.mode } else { b.mode }),
        dns_take(a, b).min_ttl == (if a.min_ttl is Some { a.min_ttl } else { b.min_ttl }),
        dns_take(a, b).max_ttl == (if a.max_ttl is Some { a.max_ttl } else { b.max_ttl }),
        dns_take(a, b).cache_size == (if a.cache_size is Some { a.cache_size } else { b.cache_size }),
        dns_take(a, b).protocol == (if a.protocol is Some { a.protocol } else { b.protocol }),
        dns_take(a, b).nameservers == (if a.nameservers is Some { a.nameservers } else { b.nameservers }),
{
}

/// Command-line log options win field by field, and filling in keeps what
/// is set.
pub proof fn law_log_override_field_by_field(a: LogConfView, b: LogConfView)
    ensures
        log_rst(a, b).level == (if b.level is Some { b.level } else { a.level }),
        log_rst(a, b).output == (if b.output is Some { b.output } else { a.output }),
        log_take(a, b).level == (if a.level is Some { a.level } else { b.level }),
        log_take(a, b).output == (if a.output is Some { a.output } else { b.output }),
{
}

/// The log output option names a standard stream by `stdout` or `stderr`
/// and a file by any other text; an unset output is the standard output.
pub proof fn law_log_output_names(o: Option<Seq<char>>)
    ensures
        (output_for(o) is Stdout) <==> (o is None || o == Some("stdout"@)),
        (output_for(o) is Stderr) <==> o == Some("stderr"@),
        output_for(o) matches LogOutputView::File(p) ==> o == Some(p),
{
    reveal_strlit("stdout");
    reveal_strlit("stderr");
    assert("stdout"@[3] != "stderr"@[3]);
}

/// A name server is asked over TCP unless the protocol is `udp`, and over
/// UDP unless it is `tcp`; TCP is asked first when both are.
pub proof fn law_protocol_transports(p: DnsProtocol)
    ensures
        transports_of(p).contains(Transport::Tcp) <==> protocol_name(p) != "udp"@,
        transports_of(p).contains(Transport::Udp) <==> protocol_name(p) != "tcp"@,
        transports_of(p).len() == (if protocol_name(p) == "tcp+udp"@ { 2int } else { 1int }),
        transports_of(p).len() > 0,
        transports_of(p)[0] == (if protocol_name(p) == "udp"@ { Transport::Udp } else { Transport::Tcp }),
{
    reveal_strlit("tcp");
    reveal_strlit("udp");
    reveal_strlit("tcp+udp");
    assert("tcp"@[0] != "udp"@[0]);
    match p {
        DnsProtocol::Tcp => {
            assert(transports_of(p)[0] == Transport::Tcp);
            assert(!transports_of(p).contains(Transport::Udp));
            assert("tcp"@.len() != "tcp+udp"@.len());
        },
        DnsProtocol::Udp => {
            assert(transports_of(p)[0] == Transport::Udp);
            assert(!transports_of(p).contains(Transport::Tcp));
            assert("udp"@.len() != "tcp+udp"@.len());
        },
        DnsProtocol::TcpAndUdp => {
            assert("tcp"@.len() != "tcp+udp"@.len());
            assert("udp"@.len() != "tcp+udp"@.len());
            assert(transports_of(p)[0] == Transport::Tcp);
            assert(transports_of(p)[1] == Transport::Udp);
        },
    }
}

} // verus!
