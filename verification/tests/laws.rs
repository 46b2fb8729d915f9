use realm::conf::{CmdOverride, DnsConf, DnsMode, DnsProtocol, EndpointConf, FullConf, LogConf, LogLevel, NetConf};

fn endpoint(listen: &str, remote: &str) -> EndpointConf {
    EndpointConf::from_cmd_values(String::from(listen), String::from(remote), None, None, None, None, None)
}

fn sample() -> FullConf {
    let mut ep = endpoint("0.0.0.0:1", "r:1");
    ep.network.tcp_timeout = Some(4);
    let mut c = FullConf::new(
        LogConf { level: Some(LogLevel::Warn), output: None },
        DnsConf { mode: Some(DnsMode::Ipv4Only), ..DnsConf::default() },
        NetConf { udp_timeout: Some(8), tcp_timeout: Some(1), ..NetConf::default() },
        vec![],
    );
    c.add_endpoint(ep).add_endpoint(endpoint("0.0.0.0:2", "r:2"));
    c
}

#[test]
fn merging_groups_freely() {
    let a = NetConf { tcp_timeout: Some(1), ..NetConf::default() };
    let b = NetConf { tcp_timeout: Some(2), udp_timeout: Some(5), ..NetConf::default() };
    let c = NetConf { udp_timeout: Some(6), no_tcp: Some(true), ..NetConf::default() };
    let mut left = a;
    left.take_field(&b).take_field(&c);
    let mut bc = b;
    bc.take_field(&c);
    let mut right = a;
    right.take_field(&bc);
    assert_eq!(left, right);
    assert_eq!(left.tcp_timeout, Some(1));
    assert_eq!(left.udp_timeout, Some(5));
    assert_eq!(left.no_tcp, Some(true));
}

#[test]
fn names_read_back() {
    for l in [LogLevel::Off, LogLevel::Error, LogLevel::Warn, LogLevel::Info, LogLevel::Debug, LogLevel::Trace] {
        assert_eq!(LogLevel::from(l.to_string()), l);
        assert_eq!(LogLevel::from(l.to_string().to_ascii_uppercase()), l);
    }
    for m in [DnsMode::Ipv4Only, DnsMode::Ipv6Only, DnsMode::Ipv4AndIpv6, DnsMode::Ipv4ThenIpv6, DnsMode::Ipv6ThenIpv4] {
        assert_eq!(DnsMode::from(m.to_string()), m);
    }
    for p in [DnsProtocol::Tcp, DnsProtocol::Udp, DnsProtocol::TcpAndUdp] {
        assert_eq!(DnsProtocol::from(p.to_string()), p);
    }
}

#[test]
fn empty_command_line_changes_nothing() {
    let mut c = sample();
    c.apply_cmd_opts(CmdOverride::default());
    let d = sample();
    assert_eq!(c.log.level, d.log.level);
    assert_eq!(c.dns.mode, d.dns.mode);
    assert_eq!(c.endpoints[0].network, d.endpoints[0].network);
    assert_eq!(c.endpoints[1].network, d.endpoints[1].network);
}

#[test]
fn global_options_applied_twice() {
    let mut once = sample();
    once.apply_global_opts();
    let mut twice = sample();
    twice.apply_global_opts().apply_global_opts();
    assert_eq!(once.endpoints[0].network, twice.endpoints[0].network);
    assert_eq!(once.endpoints[1].network, twice.endpoints[1].network);
    assert_eq!(once.endpoints[0].network.tcp_timeout, Some(4));
    assert_eq!(once.endpoints[1].network.tcp_timeout, Some(1));
    assert_eq!(once.endpoints[1].network.udp_timeout, Some(8));
}

#[test]
fn empty_fragment_changes_nothing() {
    let mut c = sample();
    c.merge_fragment(FullConf::default());
    let d = sample();
    assert_eq!(c.log.level, d.log.level);
    assert_eq!(c.network, d.network);
    assert_eq!(c.endpoints.len(), d.endpoints.len());
}
