use realm::conf::{AddrLookups, EndpointConf, EndpointInfo};
use realm::conf::endpoint::{build_send_through, parse_remote, strip_brackets};
use realm::endpoint::{IpAddress, RemoteAddr, SockAddr};
use realm::relay::{
    advance_stage, both_done, compute_workers, pick_address, plan_tasks, CopyAction, CopyBuffer, CopyError, ReadStep,
    SpliceCopy, SpliceError, Task, TransferStage, WriteStep, DEFAULT_BUF_SIZE, DEFAULT_PIPE_CAP,
};
use realm::shared::Ref;
use realm::assoc::Associations;

fn local() -> SockAddr {
    SockAddr::new(IpAddress::V4(0x7f00_0001), 8080)
}

fn lookups() -> AddrLookups {
    AddrLookups { local: local(), remote: None, extra_remotes: vec![], through: None, through_ip: None }
}

fn info(no_tcp: bool, use_udp: bool) -> EndpointInfo {
    let e = EndpointConf::from_cmd_values(
        String::from("127.0.0.1:8080"),
        String::from("example.com:443"),
        None,
        None,
        None,
        None,
        None,
    );
    let mut info = e.build(lookups());
    info.no_tcp = no_tcp;
    info.use_udp = use_udp;
    info
}

#[test]
fn remote_text() {
    match parse_remote("example.com:443", None) {
        Some(RemoteAddr::DomainName(h, p)) => {
            assert_eq!(h, "example.com");
            assert_eq!(p, 443);
        },
        _ => panic!("expected a domain name"),
    }
    match parse_remote("[::1]:80", Some(SockAddr::new(IpAddress::V6(1), 80))) {
        Some(RemoteAddr::SocketAddr(a)) => assert_eq!(a.port, 80),
        _ => panic!("expected a socket address"),
    }
    assert!(parse_remote("example.com", None).is_none());
    assert!(parse_remote("example.com:70000", None).is_none());
}

#[test]
fn send_through() {
    let ip = IpAddress::V6(1);
    assert_eq!(build_send_through(&None, None, Some(ip)), None);
    let through = Some(String::from("[::1]"));
    assert_eq!(build_send_through(&through, None, Some(ip)), Some(SockAddr::new(ip, 0)));
    let resolved = SockAddr::new(IpAddress::V4(1), 9);
    assert_eq!(build_send_through(&through, Some(resolved), Some(ip)), Some(resolved));
    assert_eq!(build_send_through(&through, None, None), None);
    assert_eq!(strip_brackets("[::1]"), "::1");
    assert_eq!(strip_brackets("a[b]c]"), "abc");
}

#[test]
fn endpoint_build() {
    let mut e = EndpointConf::from_cmd_values(
        String::from("127.0.0.1:8080"),
        String::from("example.com:443"),
        Some(String::from("10.0.0.1")),
        Some(String::from("eth0")),
        Some(String::from("lo")),
        None,
        None,
    );
    e.extra_remotes = vec![String::from("b.com:1"), String::from("1.2.3.4:5")];
    e.balance = Some(String::from("roundrobin: 1, 1"));
    e.network.tcp_timeout = Some(9);
    e.network.use_udp = Some(true);
    let extra = SockAddr::new(IpAddress::V4(0x0102_0304), 5);
    let through = SockAddr::new(IpAddress::V4(0x0a00_0001), 0);
    let l = AddrLookups {
        local: local(),
        remote: None,
        extra_remotes: vec![None, Some(extra)],
        through: Some(through),
        through_ip: None,
    };
    let info = e.build(l);
    assert!(!info.no_tcp);
    assert!(info.use_udp);
    let ep = info.endpoint;
    assert_eq!(ep.laddr, local());
    assert!(matches!(ep.raddr, RemoteAddr::DomainName(ref h, 443) if h == "example.com"));
    assert_eq!(ep.extra_raddrs.len(), 2);
    assert!(matches!(ep.extra_raddrs[1], RemoteAddr::SocketAddr(a) if a == extra));
    assert_eq!(ep.conn_opts.connect_timeout, 9);
    assert_eq!(ep.conn_opts.bind_address, Some(through));
    assert_eq!(ep.conn_opts.bind_interface.as_deref(), Some("eth0"));
    assert_eq!(ep.bind_opts.bind_interface.as_deref(), Some("lo"));
    assert_eq!(ep.conn_opts.balance.as_deref(), Some("roundrobin: 1, 1"));
}

#[test]
fn tasks_per_endpoint() {
    let infos = vec![info(false, false), info(true, true), info(false, true), info(true, false)];
    assert_eq!(plan_tasks(&infos), vec![Task::Tcp(0), Task::Udp(1), Task::Tcp(2), Task::Udp(2)]);
    assert_eq!(compute_workers(&infos), 4);
    assert_eq!(compute_workers(&vec![]), 0);
}

#[test]
fn address_preference() {
    let v6 = IpAddress::V6(1);
    let v4 = IpAddress::V4(2);
    assert_eq!(pick_address(&vec![v6, v4]), Some(v4));
    assert_eq!(pick_address(&vec![v6, IpAddress::V6(3)]), Some(v6));
    assert_eq!(pick_address(&vec![]), None);
}

#[test]
fn copy_buffer_round() {
    let mut b = CopyBuffer::new(DEFAULT_BUF_SIZE);
    assert_eq!(b.size(), 8192);
    assert_eq!(b.next_action(), CopyAction::Read);
    assert!(!b.flush_before_waiting());
    let mut data = vec![0u8; b.size()];
    data[..10].copy_from_slice(b"0123456789");
    let spare = b.after_read(data, 10);
    assert_eq!(spare.len(), 8192);
    assert_eq!(b.next_action(), CopyAction::Write);
    assert_eq!(b.held(), b"0123456789");
    assert_eq!(b.after_write(4), Ok(()));
    assert_eq!(b.amount(), 4);
    assert_eq!(b.held(), b"456789");
    assert_eq!(b.after_write(0), Err(CopyError::WriteZero));
    assert_eq!(b.held(), b"456789");
    assert_eq!(b.after_write(6), Ok(()));
    assert_eq!(b.amount(), 10);
    assert_eq!(b.held(), b"");
    assert_eq!(b.next_action(), CopyAction::Read);
    assert!(b.flush_before_waiting());
    b.after_flush();
    assert!(!b.flush_before_waiting());
    let mut data = spare;
    data[..3].copy_from_slice(b"abc");
    let spare = b.after_read(data, 3);
    assert_eq!(b.held(), b"abc");
    assert_eq!(b.after_write(3), Ok(()));
    let back = b.after_read(spare, 0);
    assert_eq!(back.len(), 8192);
    assert_eq!(b.next_action(), CopyAction::Finish);
    assert_eq!(b.amount(), 13);
}

#[test]
fn transfer_stages() {
    let s = advance_stage(TransferStage::Running);
    assert_eq!(s, TransferStage::ShuttingDown);
    assert_eq!(advance_stage(s), TransferStage::Done);
    assert_eq!(advance_stage(TransferStage::Done), TransferStage::Done);
    assert!(!both_done(TransferStage::Done, TransferStage::Running));
    assert!(both_done(TransferStage::Done, TransferStage::Done));
}

#[test]
fn splice_steps() {
    let mut p = SpliceCopy::new(DEFAULT_PIPE_CAP);
    assert_eq!(p.room(), 65536);
    assert_eq!(p.after_read(100, false), ReadStep::More);
    assert_eq!(p.pending(), 100);
    assert_eq!(p.room(), 65436);
    assert_eq!(p.after_read(-1, true), ReadStep::Stop);
    assert_eq!(p.after_read(-1, false), ReadStep::Abort);
    assert_eq!(p.after_write(60, false), WriteStep::More);
    assert_eq!(p.pending(), 40);
    assert_eq!(p.after_write(-1, true), WriteStep::Retry);
    assert_eq!(p.after_write(0, false), WriteStep::Abort);
    assert_eq!(p.outcome(), Err(SpliceError::ConnectionReset));
    assert_eq!(p.after_read(0, false), ReadStep::Stop);
    assert!(p.is_done());
    assert_eq!(p.outcome(), Ok(()));
}

#[test]
fn shared_handle() {
    let r = Ref::new(5u32);
    let s = r.share();
    assert_eq!(*s.as_ref(), 5);
    assert_eq!(*r.as_ref(), 5);
}

#[test]
fn udp_associations() {
    let a = SockAddr::new(IpAddress::V4(1), 1000);
    let b = SockAddr::new(IpAddress::V4(1), 1001);
    let mut m: Associations<u32> = Associations::new();
    assert_eq!(m.find(a), None);
    m.insert(a, 7);
    m.insert(b, 8);
    assert_eq!(m.find(a), Some(&7));
    m.insert(a, 9);
    assert_eq!(m.find(a), Some(&9));
    assert!(m.remove(a));
    assert_eq!(m.find(a), None);
    assert_eq!(m.find(b), Some(&8));
    assert!(!m.remove(a));
}
