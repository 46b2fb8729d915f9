use realm::conf::legacy::{flatten_ports as flatten, join_addr_port as join, LegacyConf};
use realm::conf::{fragment_format, from_parsed, ConfFormat, FullConf};

fn strvec(items: &[&str]) -> Vec<String> {
    items.iter().map(|s| String::from(*s)).collect()
}

#[test]
fn flatten_ports() {
    let v1 = strvec(&["1-4"]);
    let v2 = strvec(&["1-2", "3-4"]);
    let v3 = strvec(&["1-3", "4"]);
    let v4 = strvec(&["1", "2", "3", "4"]);
    assert_eq!(flatten(v1), [1, 2, 3, 4]);
    assert_eq!(flatten(v2), [1, 2, 3, 4]);
    assert_eq!(flatten(v3), [1, 2, 3, 4]);
    assert_eq!(flatten(v4), [1, 2, 3, 4]);
}

#[test]
fn join_addr_port() {
    let addrs = strvec(&["a.com", "b.com", "c.com"]);
    let ports = vec![1, 2, 3];
    let result = vec!["a.com:1", "b.com:2", "c.com:3"];
    assert_eq!(join(addrs, ports, 3), result);

    let addrs = strvec(&["a.com", "b.com", "c.com"]);
    let ports = vec![1, 2, 3];
    let result = vec!["a.com:1", "b.com:2", "c.com:3"];
    assert_eq!(join(addrs, ports, 2), result[..2]);

    let addrs = strvec(&["a.com", "b.com", "c.com"]);
    let ports = vec![1, 2, 3];
    let result = vec!["a.com:1", "b.com:2", "c.com:3", "a.com:1"];
    assert_eq!(join(addrs, ports, 4), result);

    let addrs = strvec(&["a.com", "b.com", "c.com"]);
    let ports = vec![1, 2, 3, 4, 5, 6];
    let result = vec!["a.com:1", "b.com:2", "c.com:3", "a.com:4"];
    assert_eq!(join(addrs, ports, 4), result);

    let addrs = strvec(&["a.com", "b.com", "c.com", "d.com", "e.com"]);
    let ports = vec![1, 2, 3];
    let result = vec!["a.com:1", "b.com:2", "c.com:3", "d.com:1"];
    assert_eq!(join(addrs, ports, 4), result);

    let addrs = strvec(&["a.com", "b.com", "c.com"]);
    let ports = vec![1, 2, 3];
    let result = vec!["a.com:1", "b.com:2", "c.com:3", "a.com:1", "a.com:1"];
    assert_eq!(join(addrs, ports, 5), result);
}

#[test]
fn flatten_ports_descending_range_is_empty() {
    assert_eq!(flatten(strvec(&["5-3", "7"])), [7]);
    assert_eq!(flatten(strvec(&["+8-9"])), [8, 9]);
}

fn legacy(la: &[&str], lp: &[&str], ra: &[&str], rp: &[&str]) -> LegacyConf {
    LegacyConf {
        listen_addrs: strvec(la),
        listen_ports: strvec(lp),
        remote_addrs: strvec(ra),
        remote_ports: strvec(rp),
    }
}

#[test]
fn legacy_conversion_pairs_ports() {
    let x = legacy(&["0.0.0.0"], &["1000-1002"], &["r.com", "s.com"], &["2000"]);
    assert!(x.is_convertible());
    let c = FullConf::from_legacy(x);
    assert_eq!(c.endpoints.len(), 3);
    assert_eq!(c.endpoints[0].listen, "0.0.0.0:1000");
    assert_eq!(c.endpoints[0].remote, "r.com:2000");
    assert_eq!(c.endpoints[1].listen, "0.0.0.0:1001");
    assert_eq!(c.endpoints[1].remote, "s.com:2000");
    assert_eq!(c.endpoints[2].listen, "0.0.0.0:1002");
    assert_eq!(c.endpoints[2].remote, "r.com:2000");
    assert!(c.endpoints[2].network.is_empty());
    assert!(c.log.is_empty());
    assert!(c.dns.is_empty());
}

#[test]
fn legacy_not_convertible() {
    assert!(!legacy(&["a"], &["x"], &["b"], &["1"]).is_convertible());
    assert!(!legacy(&[], &["1"], &["b"], &["1"]).is_convertible());
    assert!(!legacy(&["a"], &["3-2"], &["b"], &["1"]).is_convertible());
    assert!(!legacy(&["a"], &["65535"], &["b"], &["1"]).is_convertible());
    assert!(legacy(&["a"], &["65534"], &["b"], &["1"]).is_convertible());
}

#[test]
fn parsed_prefers_toml_then_json_then_legacy() {
    let mut t = FullConf::default();
    t.network.tcp_timeout = Some(1);
    let mut j = FullConf::default();
    j.network.tcp_timeout = Some(2);
    let (c, f) = from_parsed(Ok(t), Ok(j), Err(String::from("x"))).unwrap();
    assert_eq!(f, ConfFormat::Toml);
    assert_eq!(c.network.tcp_timeout, Some(1));

    let mut j = FullConf::default();
    j.network.tcp_timeout = Some(2);
    let (c, f) = from_parsed(Err(String::from("t")), Ok(j), Err(String::from("x"))).unwrap();
    assert_eq!(f, ConfFormat::Json);
    assert_eq!(c.network.tcp_timeout, Some(2));

    let x = legacy(&["a"], &["1"], &["b"], &["2"]);
    let (c, f) = from_parsed(Err(String::from("t")), Err(String::from("j")), Ok(x)).unwrap();
    assert_eq!(f, ConfFormat::Legacy);
    assert_eq!(c.endpoints[0].listen, "a:1");
    assert_eq!(c.endpoints[0].remote, "b:2");
}

#[test]
fn parsed_failure_names_all_formats() {
    let r = from_parsed(Err(String::from("T")), Err(String::from("J")), Err(String::from("L")));
    match r {
        Err(m) => assert_eq!(m, "parse as toml: T; parse as json: J; parse as legacy: L"),
        Ok(_) => panic!("expected a failure"),
    }
}

#[test]
fn fragment_formats_by_name() {
    assert_eq!(fragment_format("a.json"), Some(ConfFormat::Json));
    assert_eq!(fragment_format("dir.toml"), Some(ConfFormat::Toml));
    assert_eq!(fragment_format(".toml"), Some(ConfFormat::Toml));
    assert_eq!(fragment_format("a.toml.bak"), None);
    assert_eq!(fragment_format("json"), None);
}
