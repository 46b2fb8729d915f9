use realm::conf::{CmdOverride, DnsConf, DnsMode, DnsProtocol, EndpointConf, FullConf, LogConf, LogLevel, NetConf};
use realm::conf::dns::{dedup_addrs, pair_name_servers, LookupStrategy, NameServers, Transport};
use realm::conf::log::LogOutput;
use realm::consts::{
    PROXY_PROTOCOL_TIMEOUT, PROXY_PROTOCOL_VERSION, TCP_KEEPALIVE, TCP_KEEPALIVE_PROBE, TCP_TIMEOUT, UDP_TIMEOUT,
};
use realm::endpoint::{IpAddress, SockAddr};

fn endpoint(listen: &str, remote: &str) -> EndpointConf {
    EndpointConf::from_cmd_values(String::from(listen), String::from(remote), None, None, None, None, None)
}

#[test]
fn log_level_names() {
    assert_eq!(LogLevel::from(String::from("DEBUG")), LogLevel::Debug);
    assert_eq!(LogLevel::from(String::from("warn")), LogLevel::Warn);
    assert_eq!(LogLevel::from(String::from("verbose")), LogLevel::Off);
    assert_eq!(LogLevel::Trace.to_string(), "trace");
    assert_eq!(LogLevel::default(), LogLevel::Off);
}

#[test]
fn dns_names() {
    assert_eq!(DnsMode::from(String::from("IPv6_Then_IPv4")), DnsMode::Ipv6ThenIpv4);
    assert_eq!(DnsMode::from(String::from("both")), DnsMode::Ipv4AndIpv6);
    assert_eq!(DnsMode::Ipv4Only.to_string(), "ipv4_only");
    assert_eq!(DnsProtocol::from(String::from("TCP")), DnsProtocol::Tcp);
    assert_eq!(DnsProtocol::from(String::from("quic")), DnsProtocol::TcpAndUdp);
    assert_eq!(DnsProtocol::TcpAndUdp.to_string(), "tcp+udp");
    assert_eq!(DnsProtocol::TcpAndUdp.transports(), vec![Transport::Tcp, Transport::Udp]);
    assert_eq!(DnsMode::Ipv4ThenIpv6.strategy(), LookupStrategy::Ipv4ThenIpv6);
}

#[test]
fn log_conf_build_and_text() {
    let c = LogConf { level: None, output: None };
    assert_eq!(c.to_string(), "level=off, output=stdout");
    let (l, o) = c.build();
    assert_eq!(l, LogLevel::Off);
    assert!(matches!(o, LogOutput::Stdout));

    let c = LogConf { level: Some(LogLevel::Info), output: Some(String::from("stderr")) };
    assert_eq!(c.to_string(), "level=info, output=stderr");
    assert!(matches!(c.build().1, LogOutput::Stderr));

    let c = LogConf { level: Some(LogLevel::Info), output: Some(String::from("/var/log/realm.log")) };
    match c.build().1 {
        LogOutput::File(p) => assert_eq!(p, "/var/log/realm.log"),
        _ => panic!("expected a file"),
    }
}

#[test]
fn log_conf_rst_and_take() {
    let mut a = LogConf { level: Some(LogLevel::Warn), output: None };
    let b = LogConf { level: Some(LogLevel::Debug), output: Some(String::from("x.log")) };
    a.take_field(&b);
    assert_eq!(a.level, Some(LogLevel::Warn));
    assert_eq!(a.output.as_deref(), Some("x.log"));
    a.rst_field(&LogConf { level: Some(LogLevel::Trace), output: None });
    assert_eq!(a.level, Some(LogLevel::Trace));
    assert_eq!(a.output.as_deref(), Some("x.log"));
    assert!(!a.is_empty());
    assert!(LogConf::default().is_empty());
}

#[test]
fn dns_conf_text() {
    let c = DnsConf::default();
    assert_eq!(
        c.to_string(),
        "mode=ipv4_and_ipv6, protocol=tcp+udp, min-ttl=0, max-ttl=86400, cache-size=32, servers=system"
    );
    let c = DnsConf {
        mode: Some(DnsMode::Ipv6Only),
        min_ttl: Some(5),
        max_ttl: Some(600),
        cache_size: Some(128),
        protocol: Some(DnsProtocol::Udp),
        nameservers: Some(vec![String::from("8.8.8.8:53"), String::from("1.1.1.1:53")]),
    };
    assert_eq!(
        c.to_string(),
        "mode=ipv6_only, protocol=udp, min-ttl=5, max-ttl=600, cache-size=128, servers=8.8.8.8:53, 1.1.1.1:53"
    );
}

#[test]
fn dns_conf_build_defaults() {
    let (conf, opts) = DnsConf::default().build();
    assert!(conf.is_none());
    assert!(opts.is_none());

    let c = DnsConf { min_ttl: Some(10), ..DnsConf::default() };
    let (conf, opts) = c.build();
    assert!(conf.is_none());
    let opts = opts.unwrap();
    assert_eq!(opts.ip_strategy, LookupStrategy::Ipv4AndIpv6);
    assert_eq!(opts.cache_size, 32);
    assert_eq!(opts.positive_min_ttl, Some(10));
    assert_eq!(opts.positive_max_ttl, None);
}

#[test]
fn dns_conf_build_servers() {
    let c = DnsConf { protocol: Some(DnsProtocol::Tcp), mode: Some(DnsMode::Ipv4Only), ..DnsConf::default() };
    let (conf, opts) = c.build();
    let conf = conf.unwrap();
    assert!(matches!(conf.servers, NameServers::System));
    assert_eq!(conf.transports, vec![Transport::Tcp]);
    assert_eq!(opts.unwrap().ip_strategy, LookupStrategy::Ipv4Only);

    let c = DnsConf { nameservers: Some(vec![String::from("9.9.9.9:53")]), ..DnsConf::default() };
    let (conf, _) = c.build();
    let conf = conf.unwrap();
    match conf.servers {
        NameServers::Custom(l) => assert_eq!(l, vec![String::from("9.9.9.9:53")]),
        NameServers::System => panic!("expected the configured servers"),
    }
    assert_eq!(conf.transports, vec![Transport::Tcp, Transport::Udp]);
}

#[test]
fn dns_conf_from_cmd_values() {
    let c = DnsConf::from_cmd_values(
        Some("ipv4_only"),
        Some("10"),
        Some("+20"),
        Some("64"),
        Some("udp"),
        Some("8.8.8.8:53,1.1.1.1:53"),
    );
    assert_eq!(c.mode, Some(DnsMode::Ipv4Only));
    assert_eq!(c.min_ttl, Some(10));
    assert_eq!(c.max_ttl, Some(20));
    assert_eq!(c.cache_size, Some(64));
    assert_eq!(c.protocol, Some(DnsProtocol::Udp));
    assert_eq!(c.nameservers, Some(vec![String::from("8.8.8.8:53"), String::from("1.1.1.1:53")]));
    let c = DnsConf::from_cmd_values(None, None, None, None, None, None);
    assert!(c.is_empty());
}

#[test]
fn dns_conf_rst_and_take() {
    let mut a = DnsConf { mode: Some(DnsMode::Ipv4Only), ..DnsConf::default() };
    let b = DnsConf { mode: Some(DnsMode::Ipv6Only), cache_size: Some(7), ..DnsConf::default() };
    a.take_field(&b);
    assert_eq!(a.mode, Some(DnsMode::Ipv4Only));
    assert_eq!(a.cache_size, Some(7));
    a.rst_field(&b);
    assert_eq!(a.mode, Some(DnsMode::Ipv6Only));
}

#[test]
fn name_servers_paired_with_transports() {
    let r = pair_name_servers(&vec![1u8, 2u8], &vec![Transport::Tcp, Transport::Udp]);
    assert_eq!(r, vec![(1, Transport::Tcp), (1, Transport::Udp), (2, Transport::Tcp), (2, Transport::Udp)]);
}

#[test]
fn system_name_servers_deduplicated() {
    let a = SockAddr::new(IpAddress::V4(0x0808_0808), 53);
    let b = SockAddr::new(IpAddress::V4(0x0101_0101), 53);
    assert_eq!(dedup_addrs(&vec![a, a, b, a]), vec![a, b, a]);
    assert_eq!(dedup_addrs(&Vec::new()), Vec::<SockAddr>::new());
}

#[test]
fn net_conf_build_defaults() {
    let info = NetConf::default().build();
    assert!(!info.no_tcp);
    assert!(!info.use_udp);
    assert!(!info.bind_opts.ipv6_only);
    assert_eq!(info.conn_opts.tcp_keepalive, TCP_KEEPALIVE);
    assert_eq!(info.conn_opts.tcp_keepalive_probe, TCP_KEEPALIVE_PROBE);
    assert_eq!(info.conn_opts.connect_timeout, TCP_TIMEOUT);
    assert_eq!(info.conn_opts.associate_timeout, UDP_TIMEOUT);
    assert!(!info.conn_opts.proxy_opts.send_proxy);
    assert_eq!(info.conn_opts.proxy_opts.send_proxy_version, PROXY_PROTOCOL_VERSION);
    assert_eq!(info.conn_opts.proxy_opts.accept_proxy_timeout, PROXY_PROTOCOL_TIMEOUT);
    assert_eq!((TCP_TIMEOUT, UDP_TIMEOUT, TCP_KEEPALIVE, TCP_KEEPALIVE_PROBE), (5, 30, 15, 3));
}

#[test]
fn net_conf_from_cmd_values() {
    let n = NetConf::from_cmd_values(
        true,
        false,
        true,
        Some("20"),
        Some("5"),
        Some("4"),
        Some("x"),
        Some("true"),
        Some("1"),
        Some("yes"),
        None,
    );
    assert_eq!(n.no_tcp, Some(true));
    assert_eq!(n.use_udp, None);
    assert_eq!(n.ipv6_only, Some(true));
    assert_eq!(n.tcp_keepalive, Some(20));
    assert_eq!(n.tcp_keepalive_probe, Some(5));
    assert_eq!(n.tcp_timeout, Some(4));
    assert_eq!(n.udp_timeout, None);
    assert_eq!(n.send_proxy, Some(true));
    assert_eq!(n.send_proxy_version, Some(1));
    assert_eq!(n.accept_proxy, None);
    assert_eq!(n.accept_proxy_timeout, None);
    let info = n.build();
    assert!(info.no_tcp);
    assert_eq!(info.conn_opts.connect_timeout, 4);
    assert_eq!(info.conn_opts.associate_timeout, UDP_TIMEOUT);
}

#[test]
fn net_conf_rst_take_laws_on_values() {
    let a = NetConf { tcp_timeout: Some(1), ..NetConf::default() };
    let b = NetConf { tcp_timeout: Some(2), udp_timeout: Some(9), ..NetConf::default() };
    let mut t = a;
    t.take_field(&b);
    assert_eq!(t.tcp_timeout, Some(1));
    assert_eq!(t.udp_timeout, Some(9));
    let mut again = t;
    again.take_field(&b);
    assert_eq!(again, t);
    let mut r = a;
    r.rst_field(&b);
    assert_eq!(r.tcp_timeout, Some(2));
    let mut e = a;
    e.rst_field(&NetConf::default());
    assert_eq!(e, a);
    assert!(NetConf::default().is_empty());
    assert!(!a.is_empty());
}

#[test]
fn option_priority_cmd_then_endpoint_then_global() {
    let mut ep1 = endpoint("0.0.0.0:1", "a.com:1");
    ep1.network.tcp_timeout = Some(7);
    let ep2 = endpoint("0.0.0.0:2", "a.com:2");
    let global = NetConf { tcp_timeout: Some(3), udp_timeout: Some(11), ..NetConf::default() };
    let mut conf = FullConf::new(LogConf::default(), DnsConf::default(), global, vec![]);
    conf.add_endpoint(ep1).add_endpoint(ep2);
    let cmd = CmdOverride {
        log: LogConf { level: Some(LogLevel::Debug), output: None },
        dns: DnsConf::default(),
        network: NetConf { udp_timeout: Some(99), ..NetConf::default() },
    };
    conf.apply_global_opts().apply_cmd_opts(cmd);
    assert_eq!(conf.endpoints[0].network.tcp_timeout, Some(7));
    assert_eq!(conf.endpoints[1].network.tcp_timeout, Some(3));
    assert_eq!(conf.endpoints[0].network.udp_timeout, Some(99));
    assert_eq!(conf.endpoints[1].network.udp_timeout, Some(99));
    assert_eq!(conf.endpoints[1].listen, "0.0.0.0:2");
    assert_eq!(conf.log.level, Some(LogLevel::Debug));
    assert_eq!(conf.network, global);
}

#[test]
fn single_endpoint_from_command_line() {
    let cmd = CmdOverride { network: NetConf { use_udp: Some(true), ..NetConf::default() }, ..CmdOverride::default() };
    let conf = FullConf::from_cmd_endpoint(endpoint("[::]:80", "b.com:8080"), cmd);
    assert_eq!(conf.endpoints.len(), 1);
    assert_eq!(conf.endpoints[0].network.use_udp, Some(true));
    assert_eq!(conf.endpoints[0].remote, "b.com:8080");
    assert!(conf.network.is_empty());
}

#[test]
fn fragments_merge_in_order() {
    let mut conf = FullConf::default();
    let mut a = FullConf::default();
    a.log.level = Some(LogLevel::Info);
    a.network.tcp_timeout = Some(1);
    a.endpoints.push(endpoint("l:1", "r:1"));
    let mut b = FullConf::default();
    b.log.level = Some(LogLevel::Error);
    b.log.output = Some(String::from("o.log"));
    b.dns.mode = Some(DnsMode::Ipv6Only);
    b.network.tcp_timeout = Some(2);
    b.network.udp_timeout = Some(3);
    b.endpoints.push(endpoint("l:2", "r:2"));
    conf.merge_fragment(a);
    conf.merge_fragment(b);
    assert_eq!(conf.log.level, Some(LogLevel::Info));
    assert_eq!(conf.log.output.as_deref(), Some("o.log"));
    assert_eq!(conf.dns.mode, Some(DnsMode::Ipv6Only));
    assert_eq!(conf.network.tcp_timeout, Some(1));
    assert_eq!(conf.network.udp_timeout, Some(3));
    assert_eq!(conf.endpoints.len(), 2);
    assert_eq!(conf.endpoints[0].listen, "l:1");
    assert_eq!(conf.endpoints[1].listen, "l:2");
}

#[test]
fn keepalive_probe_alone() {
    let n = NetConf::from_cmd_values(false, false, false, None, Some("5"), None, None, None, None, None, None);
    assert_eq!(n.tcp_keepalive_probe, Some(5));
    assert_eq!(n.tcp_keepalive, None);
}
