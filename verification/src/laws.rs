//! Properties of the library that relate several of its functions.
use vstd::prelude::*;
use crate::conf::{rst, take, endpoints_rst, endpoints_take};
use crate::conf::net::{NetConf, empty_net, net_rst, net_take};
use crate::conf::log::{LogConf, LogLevel, level_name, level_from_name, log_rst, log_take};
use crate::conf::dns::{DnsConf, dns_rst, dns_take};
use crate::conf::FullConfView;
use crate::conf::dns::{DnsMode, DnsProtocol, mode_name, mode_from_name, protocol_name, protocol_from_name};
use crate::conf::endpoint::EndpointConfView;
use crate::api::{EntryView, InstanceView, StatusView, start_conflicts, stop_conflicts, started_entry};
use crate::text::{ascii_lower, lower_char};

verus! {

/// The value an option takes when set in up to three places, the first
/// place winning: the command line, then the endpoint, then the global
/// options.
pub open spec fn first_set<T>(cmd: Option<T>, endpoint: Option<T>, global: Option<T>) -> Option<T> {
    if cmd is Some {
        cmd
    } else if endpoint is Some {
        endpoint
    } else {
        global
    }
}

/// Network options set in up to three places, field by field the first
/// place winning.
pub open spec fn net_priority(cmd: NetConf, endpoint: NetConf, global: NetConf) -> NetConf {
    NetConf {
        no_tcp: first_set(cmd.no_tcp, endpoint.no_tcp, global.no_tcp),
        use_udp: first_set(cmd.use_udp, endpoint.use_udp, global.use_udp),
        ipv6_only: first_set(cmd.ipv6_only, endpoint.ipv6_only, global.ipv6_only),
        send_proxy: first_set(cmd.send_proxy, endpoint.send_proxy, global.send_proxy),
        accept_proxy: first_set(cmd.accept_proxy, endpoint.accept_proxy, global.accept_proxy),
        send_proxy_version: first_set(cmd.send_proxy_version, endpoint.send_proxy_version, global.send_proxy_version),
        accept_proxy_timeout: first_set(
            cmd.accept_proxy_timeout,
            endpoint.accept_proxy_timeout,
            global.accept_proxy_timeout,
        ),
        tcp_keepalive: first_set(cmd.tcp_keepalive, endpoint.tcp_keepalive, global.tcp_keepalive),
        tcp_keepalive_probe: first_set(cmd.tcp_keepalive_probe, endpoint.tcp_keepalive_probe, global.tcp_keepalive_probe),
        tcp_timeout: first_set(cmd.tcp_timeout, endpoint.tcp_timeout, global.tcp_timeout),
        udp_timeout: first_set(cmd.udp_timeout, endpoint.udp_timeout, global.udp_timeout),
    }
}

/// Option priority: after the global options are applied to the endpoints
/// and then the command-line options, each network option of each endpoint
/// is the command line's if set there, else the endpoint's own if set, else
/// the global one; nothing else of an endpoint changes.
pub proof fn law_option_priority(eps: Seq<EndpointConfView>, global: NetConf, cmd: NetConf)
    ensures
        endpoints_rst(endpoints_take(eps, global), cmd).len() == eps.len(),
        forall|i: int| 0 <= i < eps.len() ==> #[trigger] endpoints_rst(endpoints_take(eps, global), cmd)[i]
            == (EndpointConfView { network: net_priority(cmd, eps[i].network, global), ..eps[i] }),
{
}

/// Filling from other options keeps every option already set, and
/// overriding keeps every option the other leaves unset.
pub proof fn law_take_keeps_set(a: NetConf, b: NetConf)
    ensures
        a.tcp_timeout is Some ==> net_take(a, b).tcp_timeout == a.tcp_timeout,
        b.tcp_timeout is None ==> net_rst(a, b).tcp_timeout == a.tcp_timeout,
        net_take(a, b) == net_rst(b, a),
{
}

/// Options with nothing set change nothing, whether filled from or
/// overriding.
pub proof fn law_empty_is_neutral(a: NetConf)
    ensures
        net_take(a, empty_net()) == a,
        net_rst(a, empty_net()) == a,
        net_take(empty_net(), a) == a,
        net_rst(empty_net(), a) == a,
{
}

/// Applying the same options twice is the same as applying them once.
pub proof fn law_idempotent(a: NetConf, b: NetConf)
    ensures
        net_take(net_take(a, b), b) == net_take(a, b),
        net_rst(net_rst(a, b), b) == net_rst(a, b),
{
}

/// Merging configuration fragments in order does not depend on grouping:
/// for each option the first fragment that sets it wins.
pub proof fn law_merge_associative(a: NetConf, b: NetConf, c: NetConf)
    ensures
        net_take(net_take(a, b), c) == net_take(a, net_take(b, c)),
{
}

/// Command-line options that set nothing leave a configuration as it is.
pub proof fn law_empty_cmd_is_neutral(c: FullConfView)
    ensures
        log_rst(c.log, LogConf::empty_view()) == c.log,
        dns_rst(c.dns, DnsConf::empty_view()) == c.dns,
        endpoints_rst(c.endpoints, empty_net()) == c.endpoints,
{
    assert(endpoints_rst(c.endpoints, empty_net()) =~= c.endpoints);
}

/// Applying the global options a second time changes nothing more.
pub proof fn law_global_opts_idempotent(eps: Seq<EndpointConfView>, global: NetConf)
    ensures
        endpoints_take(endpoints_take(eps, global), global) == endpoints_take(eps, global),
{
    assert(endpoints_take(endpoints_take(eps, global), global) =~= endpoints_take(eps, global));
}

/// Merging a fragment that sets nothing and holds no endpoint leaves the
/// configuration as it is.
pub proof fn law_merge_empty_fragment(c: FullConfView)
    ensures
        log_take(c.log, LogConf::empty_view()) == c.log,
        dns_take(c.dns, DnsConf::empty_view()) == c.dns,
        net_take(c.network, empty_net()) == c.network,
        c.endpoints + Seq::<EndpointConfView>::empty() == c.endpoints,
{
    assert(c.endpoints + Seq::<EndpointConfView>::empty() =~= c.endpoints);
}

/// Reading back the name of a log level gives the level, whatever the case
/// of its letters.
pub proof fn law_level_name_roundtrip(l: LogLevel)
    ensures
        level_from_name(level_name(l)) == l,
        level_from_name(ascii_upper_all(level_name(l))) == l,
{
    reveal_strlit("off");
    reveal_strlit("error");
    reveal_strlit("warn");
    reveal_strlit("info");
    reveal_strlit("debug");
    reveal_strlit("trace");
    assert("warn"@[0] != "info"@[0]);
    assert("error"@[0] != "debug"@[0] && "error"@[0] != "trace"@[0] && "debug"@[0] != "trace"@[0]);
    lemma_lower_of_upper(level_name(l));
    lemma_lower_identity(level_name(l));
}

/// Reading back the name of a DNS mode gives the mode.
pub proof fn law_mode_name_roundtrip(m: DnsMode)
    ensures
        mode_from_name(mode_name(m)) == m,
{
    reveal_strlit("ipv4_only");
    reveal_strlit("ipv6_only");
    reveal_strlit("ipv4_and_ipv6");
    reveal_strlit("ipv4_then_ipv6");
    reveal_strlit("ipv6_then_ipv4");
    lemma_lower_identity(mode_name(m));
    assert("ipv4_only"@[3] != "ipv6_only"@[3]);
    assert("ipv4_then_ipv6"@[3] != "ipv6_then_ipv4"@[3]);
}

/// Reading back the name of a DNS protocol gives the protocol.
pub proof fn law_protocol_name_roundtrip(p: DnsProtocol)
    ensures
        protocol_from_name(protocol_name(p)) == p,
{
    reveal_strlit("tcp");
    reveal_strlit("udp");
    reveal_strlit("tcp+udp");
    assert("tcp"@[0] != "udp"@[0]);
    lemma_lower_identity(protocol_name(p));
}

/// Names are read without regard to ASCII case.
pub proof fn law_names_ignore_case(s: Seq<char>)
    ensures
        level_from_name(ascii_lower(s)) == level_from_name(s),
        mode_from_name(ascii_lower(s)) == mode_from_name(s),
        protocol_from_name(ascii_lower(s)) == protocol_from_name(s),
{
    assert(ascii_lower(ascii_lower(s)) =~= ascii_lower(s));
}

/// The ASCII uppercase of a string.
pub open spec fn ascii_upper_all(s: Seq<char>) -> Seq<char> {
    Seq::new(s.len(), |i: int| if 'a' <= s[i] && s[i] <= 'z' { ((s[i] as u32) - 32) as char } else { s[i] })
}

proof fn lemma_lower_identity(s: Seq<char>)
    requires
        forall|i: int| 0 <= i < s.len() ==> !('A' <= #[trigger] s[i] && s[i] <= 'Z'),
    ensures
        ascii_lower(s) == s,
{
    assert(ascii_lower(s) =~= s);
}

proof fn lemma_lower_of_upper(s: Seq<char>)
    requires
        forall|i: int| 0 <= i < s.len() ==> !('A' <= #[trigger] s[i] && s[i] <= 'Z'),
    ensures
        ascii_lower(ascii_upper_all(s)) == s,
{
    assert forall|i: int| 0 <= i < s.len() implies #[trigger] lower_char(ascii_upper_all(s)[i]) == s[i] by {
        let c = s[i];
        if 'a' <= c && c <= 'z' {
            assert(((((c as u32) - 32) as char) as u32) == (c as u32) - 32);
        }
    }
    assert(ascii_lower(ascii_upper_all(s)) =~= s);
}

/// What a read gives back of a write: an instance just filed is found
/// under its id with the configuration given, running when its relays
/// started and failed otherwise.
pub proof fn law_create_then_get(
    m: Map<Seq<char>, EntryView>,
    id: Seq<char>,
    config: EndpointConfView,
    started: Result<(bool, bool), Seq<char>>,
)
    ensures
        m.insert(id, started_entry(id, config, started)).contains_key(id),
        m.insert(id, started_entry(id, config, started))[id].instance.config == config,
        started is Ok ==> m.insert(id, started_entry(id, config, started))[id].instance.status is Running,
        started is Err ==> m.insert(id, started_entry(id, config, started))[id].instance.status is Failed,
{
}

/// An instance removed is no longer found, and other instances stay.
pub proof fn law_delete_then_get(m: Map<Seq<char>, EntryView>, id: Seq<char>, other: Seq<char>)
    requires
        other != id,
    ensures
        !m.remove(id).contains_key(id),
        m.contains_key(other) ==> m.remove(id).contains_key(other) && m.remove(id)[other] == m[other],
{
}

/// A running instance that holds relays can be stopped, and an instance
/// just stopped can be started again.
pub proof fn law_stop_and_start(e: EntryView)
    ensures
        start_conflicts(e) ==> !stop_conflicts(e),
        !start_conflicts(EntryView {
            instance: InstanceView { status: StatusView::Stopped, ..e.instance },
            has_tcp: false,
            has_udp: false,
        }),
{
}

} // verus!
