//! The configuration format of early versions: lists of listen and remote
//! addresses and ports, converted into endpoints.
use vstd::prelude::*;
use vstd::string::*;
use crate::conf::{FullConf, FullConfView, LogConf, DnsConf, NetConf};
use crate::conf::endpoint::{EndpointConf, EndpointConfView};
use crate::conf::net::empty_net;
use crate::text::{decimal, fmt_unsigned, parse_unsigned, spec_parse_unsigned, split_on, split_str};

verus! {

/// A configuration of the early format.
#[derive(Debug, Clone)]
pub struct LegacyConf {
    pub listen_addrs: Vec<String>,
    pub listen_ports: Vec<String>,
    pub remote_addrs: Vec<String>,
    pub remote_ports: Vec<String>,
}

/// The first port of a range text `start` or `start-end`.
pub open spec fn range_start(r: Seq<char>) -> nat {
    spec_parse_unsigned(split_on(r, '-')[0], u16::MAX as nat).unwrap()
}

/// The last port of a range text: `end`, or `start` when there is no `-`.
pub open spec fn range_end(r: Seq<char>) -> nat {
    let parts = split_on(r, '-');
    if parts.len() > 1 {
        spec_parse_unsigned(parts[1], u16::MAX as nat).unwrap()
    } else {
        range_start(r)
    }
}

/// Whether a range text reads as ports: the text before the first `-`, and
/// the one after it when there is one, are ports, and the range ends below
/// the largest port.
pub open spec fn range_ok(r: Seq<char>) -> bool {
    let parts = split_on(r, '-');
    &&& spec_parse_unsigned(parts[0], u16::MAX as nat) is Some
    &&& (parts.len() > 1 ==> spec_parse_unsigned(parts[1], u16::MAX as nat) is Some)
    &&& range_end(r) < u16::MAX
}

/// The ports of a range text, ascending; none when it ends before it starts.
pub open spec fn range_ports(r: Seq<char>) -> Seq<u16> {
    let s = range_start(r);
    let e = range_end(r);
    Seq::new(if e >= s { (e - s + 1) as nat } else { 0 }, |i: int| (s + i) as u16)
}

/// The ports of all range texts, in order.
pub open spec fn flatten(ranges: Seq<Seq<char>>) -> Seq<u16>
    decreases ranges.len(),
{
    if ranges.len() == 0 {
        Seq::empty()
    } else {
        flatten(ranges.drop_last()) + range_ports(ranges.last())
    }
}

/// The element at `i`, or the first one past the end.
pub open spec fn pick<T>(s: Seq<T>, i: int) -> T {
    if i < s.len() {
        s[i]
    } else {
        s[0]
    }
}

/// The address text `addr:port` of the `i`th endpoint.
pub open spec fn joined(addrs: Seq<Seq<char>>, ports: Seq<u16>, i: int) -> Seq<char> {
    pick(addrs, i) + ":"@ + decimal(pick(ports, i) as nat)
}

/// The ports the range texts stand for, in order: `a-b` for every port from
/// `a` to `b`, `a` for `a` alone.
pub fn flatten_ports(ports: Vec<String>) -> (r: Vec<u16>)
    requires
        forall|i: int| 0 <= i < ports@.len() ==> #[trigger] range_ok(ports@[i]@),
    ensures
        r@ == flatten(ports@.map_values(|x: String| x@)),
{
    let ghost texts = ports@.map_values(|x: String| x@);
    let mut r: Vec<u16> = Vec::new();
    let mut i: usize = 0;
    while i < ports.len()
        invariant
            i <= ports@.len(),
            texts == ports@.map_values(|x: String| x@),
            forall|k: int| 0 <= k < ports@.len() ==> #[trigger] range_ok(ports@[k]@),
            r@ == flatten(texts.take(i as int)),
        decreases ports@.len() - i,
    {
        let text = ports[i].as_str();
        assert(range_ok(text@));
        let parts = split_str(text, '-');
        assert(parts@.len() >= 1);
        assert(parts@[0]@ == split_on(text@, '-')[0]);
        let start = match parse_unsigned(parts[0].as_str(), u16::MAX as u64) {
            Some(v) => v,
            None => {
                assert(false);
                0
            },
        };
        let end = if parts.len() > 1 {
            assert(parts@[1]@ == split_on(text@, '-')[1]);
            match parse_unsigned(parts[1].as_str(), u16::MAX as u64) {
                Some(v) => v,
                None => {
                    assert(false);
                    0
                },
            }
        } else {
            start
        };
        assert(start == range_start(text@));
        assert(end == range_end(text@));
        let ghost before = r@;
        let mut p: u64 = start;
        while p <= end
            invariant
                start <= p,
                p <= end + 1 || p == start,
                end < u16::MAX,
                r@ == before + Seq::new((p - start) as nat, |k: int| (start + k) as u16),
            decreases end + 1 - p,
        {
            r.push(p as u16);
            proof {
                assert(r@ =~= before + Seq::new((p + 1 - start) as nat, |k: int| (start + k) as u16));
            }
            p = p + 1;
        }
        proof {
            assert(texts.take(i + 1).drop_last() =~= texts.take(i as int));
            assert(texts.take(i + 1).last() == text@);
            if end >= start {
                assert(p == end + 1);
            } else {
                assert(p == start);
            }
            assert(Seq::new((p - start) as nat, |k: int| (start + k) as u16) =~= range_ports(text@));
        }
        i = i + 1;
    }
    assert(texts.take(ports@.len() as int) =~= texts);
    r
}

/// The `len` address texts `addr:port` of endpoints, the `i`th one made of
/// the `i`th address and port; where either list runs out, its first
/// element stands in.
pub fn join_addr_port(addrs: Vec<String>, ports: Vec<u16>, len: usize) -> (r: Vec<String>)
    requires
        addrs@.len() > 0,
        ports@.len() > 0,
    ensures
        r@.len() == len,
        forall|i: int| 0 <= i < len ==> #[trigger] r@[i]@ == joined(
            addrs@.map_values(|x: String| x@),
            ports@,
            i,
        ),
{
    let ghost texts = addrs@.map_values(|x: String| x@);
    let mut r: Vec<String> = Vec::new();
    let mut i: usize = 0;
    proof {
        reveal_strlit(":");
    }
    while i < len
        invariant
            i <= len,
            addrs@.len() > 0,
            ports@.len() > 0,
            texts == addrs@.map_values(|x: String| x@),
            r@.len() == i,
            forall|k: int| 0 <= k < i ==> #[trigger] r@[k]@ == joined(texts, ports@, k),
        decreases len - i,
    {
        let addr = if i < addrs.len() { &addrs[i] } else { &addrs[0] };
        let port = if i < ports.len() { ports[i] } else { ports[0] };
        let mut s = addr.clone();
        s.append(":");
        s.append(fmt_unsigned(port as u64).as_str());
        assert(s@ == joined(texts, ports@, i as int));
        r.push(s);
        i = i + 1;
    }
    r
}

/// Whether an early-format configuration converts: every range reads as
/// ports, both address lists are non-empty, and both port lists stand for
/// at least one port.
pub open spec fn legacy_ok(x: LegacyConf) -> bool {
    &&& forall|i: int| 0 <= i < x.listen_ports@.len() ==> #[trigger] range_ok(x.listen_ports@[i]@)
    &&& forall|i: int| 0 <= i < x.remote_ports@.len() ==> #[trigger] range_ok(x.remote_ports@[i]@)
    &&& x.listen_addrs@.len() > 0
    &&& x.remote_addrs@.len() > 0
    &&& flatten(x.listen_ports@.map_values(|s: String| s@)).len() > 0
    &&& flatten(x.remote_ports@.map_values(|s: String| s@)).len() > 0
}

/// The endpoint options with the given addresses and nothing else set.
pub open spec fn plain_endpoint(listen: Seq<char>, remote: Seq<char>) -> EndpointConfView {
    EndpointConfView {
        listen,
        remote,
        extra_remotes: Seq::empty(),
        balance: None,
        through: None,
        interface: None,
        listen_interface: None,
        listen_transport: None,
        remote_transport: None,
        network: empty_net(),
    }
}

/// The configuration an early-format one converts into.
pub open spec fn spec_from_legacy(x: LegacyConf) -> FullConfView {
    let lp = flatten(x.listen_ports@.map_values(|s: String| s@));
    let rp = flatten(x.remote_ports@.map_values(|s: String| s@));
    let la = x.listen_addrs@.map_values(|s: String| s@);
    let ra = x.remote_addrs@.map_values(|s: String| s@);
    FullConfView {
        log: LogConf::empty_view(),
        dns: DnsConf::empty_view(),
        network: empty_net(),
        endpoints: Seq::new(lp.len(), |i: int| plain_endpoint(joined(la, lp, i), joined(ra, rp, i))),
    }
}

/// The first and last port of a range text, when it reads as one.
fn read_range(text: &str) -> (r: Option<(u64, u64)>)
    ensures
        match r {
            Some((a, b)) => range_ok(text@) && a == range_start(text@) && b == range_end(text@),
            None => !range_ok(text@),
        },
{
    let parts = split_str(text, '-');
    assert(parts@.len() >= 1);
    assert(parts@[0]@ == split_on(text@, '-')[0]);
    let start = match parse_unsigned(parts[0].as_str(), u16::MAX as u64) {
        Some(v) => v,
        None => return None,
    };
    let end = if parts.len() > 1 {
        assert(parts@[1]@ == split_on(text@, '-')[1]);
        match parse_unsigned(parts[1].as_str(), u16::MAX as u64) {
            Some(v) => v,
            None => return None,
        }
    } else {
        start
    };
    if end >= u16::MAX as u64 {
        return None;
    }
    Some((start, end))
}

/// Whether every range reads as ports, and whether one of them holds a port.
fn check_ranges(ports: &Vec<String>) -> (r: (bool, bool))
    ensures
        r.0 == (forall|i: int| 0 <= i < ports@.len() ==> #[trigger] range_ok(ports@[i]@)),
        r.0 ==> (r.1 == (flatten(ports@.map_values(|x: String| x@)).len() > 0)),
{
    let ghost texts = ports@.map_values(|x: String| x@);
    let mut any = false;
    let mut i: usize = 0;
    while i < ports.len()
        invariant
            i <= ports@.len(),
            texts == ports@.map_values(|x: String| x@),
            forall|k: int| 0 <= k < i ==> #[trigger] range_ok(ports@[k]@),
            any == (flatten(texts.take(i as int)).len() > 0),
        decreases ports@.len() - i,
    {
        match read_range(ports[i].as_str()) {
            Some((a, b)) => {
                proof {
                    assert(texts.take(i + 1).drop_last() =~= texts.take(i as int));
                    assert(texts.take(i + 1).last() == ports@[i as int]@);
                }
                if b >= a {
                    any = true;
                }
            },
            None => {
                return (false, false);
            },
        }
        i = i + 1;
    }
    assert(texts.take(ports@.len() as int) =~= texts);
    (true, any)
}

impl LegacyConf {
    /// Whether the configuration converts into endpoints.
    pub fn is_convertible(&self) -> (r: bool)
        ensures
            r == legacy_ok(*self),
    {
        let (lok, lany) = check_ranges(&self.listen_ports);
        let (rok, rany) = check_ranges(&self.remote_ports);
        lok && rok && lany && rany && self.listen_addrs.len() > 0 && self.remote_addrs.len() > 0
    }
}

impl FullConf {
    /// Converts an early-format configuration: one endpoint per listen port,
    /// the `i`th listening on the `i`th listen address and port and
    /// forwarding to the `i`th remote address and port, where each list
    /// that runs out repeats its first element.
    pub fn from_legacy(x: LegacyConf) -> (r: FullConf)
        requires
            legacy_ok(x),
        ensures
            r@ == spec_from_legacy(x),
    {
        let ghost xv = x;
        let LegacyConf { listen_addrs, listen_ports, remote_addrs, remote_ports } = x;
        let listen_ports = flatten_ports(listen_ports);
        let remote_ports = flatten_ports(remote_ports);
        let len = listen_ports.len();
        let ghost lp = listen_ports@;
        let ghost rp = remote_ports@;
        let ghost la = listen_addrs@.map_values(|s: String| s@);
        let ghost ra = remote_addrs@.map_values(|s: String| s@);
        let listen = join_addr_port(listen_addrs, listen_ports, len);
        let remote = join_addr_port(remote_addrs, remote_ports, len);
        let mut endpoints: Vec<EndpointConf> = Vec::new();
        let mut i: usize = 0;
        while i < len
            invariant
                i <= len,
                listen@.len() == len,
                remote@.len() == len,
                lp.len() == len,
                forall|k: int| 0 <= k < len ==> #[trigger] listen@[k]@ == joined(la, lp, k),
                forall|k: int| 0 <= k < len ==> #[trigger] remote@[k]@ == joined(ra, rp, k),
                endpoints@.len() == i,
                forall|k: int| 0 <= k < i ==> #[trigger] endpoints@[k]@ == plain_endpoint(
                    joined(la, lp, k),
                    joined(ra, rp, k),
                ),
            decreases len - i,
        {
            let ep = EndpointConf::from_cmd_values(
                listen[i].clone(),
                remote[i].clone(),
                None,
                None,
                None,
                None,
                None,
            );
            endpoints.push(ep);
            i = i + 1;
        }
        let mut r = FullConf::default();
        r.endpoints = endpoints;
        proof {
            assert(r@.endpoints =~= spec_from_legacy(xv).endpoints);
        }
        r
    }
}

} // verus!
