use realm::cmd::{select_input, CmdInput};
use realm::conf::CmdOverride;
use realm::consts::Features;
use realm::text::{fmt_unsigned, index_of_first, index_of_last, join_strings, lower_eq, parse_unsigned, split_str, str_eq};
use realm::ENV_CONFIG;

#[test]
fn numbers() {
    assert_eq!(parse_unsigned("443", 65535), Some(443));
    assert_eq!(parse_unsigned("+7", 65535), Some(7));
    assert_eq!(parse_unsigned("65536", 65535), None);
    assert_eq!(parse_unsigned("", 65535), None);
    assert_eq!(parse_unsigned("1a", 65535), None);
    assert_eq!(parse_unsigned("-1", 65535), None);
    assert_eq!(fmt_unsigned(0), "0");
    assert_eq!(fmt_unsigned(86400), "86400");
    assert_eq!(parse_unsigned(&fmt_unsigned(1234567), u64::MAX), Some(1234567));
}

#[test]
fn text_helpers() {
    assert_eq!(split_str("a,b,,c", ','), vec!["a", "b", "", "c"]);
    assert_eq!(split_str("", ','), vec![""]);
    assert_eq!(index_of_first("a:b:c", ':'), Some(1));
    assert_eq!(index_of_last("a:b:c", ':'), Some(3));
    assert_eq!(index_of_last("abc", ':'), None);
    assert!(lower_eq("TcP", "tcp"));
    assert!(!lower_eq("tcp", "TCP"));
    assert!(str_eq("x", "x"));
    assert_eq!(join_strings(&vec![String::from("a"), String::from("b")], ", "), "a, b");
    assert_eq!(join_strings(&vec![], ", "), "");
}

#[test]
fn feature_tags() {
    let f = Features {
        mimalloc: false,
        jemalloc: true,
        multi_thread: true,
        hook: false,
        proxy: true,
        balance: true,
        transport: false,
        brutal_shutdown: false,
    };
    assert_eq!(f.to_string(), "[proxy][balance][multi-thread][jemalloc]");
    assert_eq!(ENV_CONFIG, "REALM_CONF");
}

#[test]
fn command_line_input() {
    let r = select_input(
        Some(String::from("realm.toml")),
        Some(String::from("l")),
        Some(String::from("r")),
        None,
        None,
        None,
        None,
        None,
        CmdOverride::default(),
    );
    assert!(matches!(r, CmdInput::Config(ref c, _) if c == "realm.toml"));
    let r = select_input(
        None,
        Some(String::from("0.0.0.0:5000")),
        Some(String::from("1.1.1.1:443")),
        Some(String::from("10.0.0.2")),
        None,
        None,
        None,
        None,
        CmdOverride::default(),
    );
    match r {
        CmdInput::Endpoint(e, _) => {
            assert_eq!(e.listen, "0.0.0.0:5000");
            assert_eq!(e.remote, "1.1.1.1:443");
            assert_eq!(e.through.as_deref(), Some("10.0.0.2"));
            assert!(e.extra_remotes.is_empty());
        },
        _ => panic!("expected an endpoint"),
    }
    let r = select_input(None, Some(String::from("l")), None, None, None, None, None, None, CmdOverride::default());
    assert!(matches!(r, CmdInput::Nothing));
}
