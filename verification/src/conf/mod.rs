//! Configuration: log, dns, network and endpoint options, read from the
//! command line or from files, and the rules that merge them.
use vstd::prelude::*;
use crate::conf::dns::{DnsConfView, dns_rst, dns_take};
use crate::conf::endpoint::EndpointConfView;
use crate::conf::log::{LogConfView, log_rst, log_take};
use crate::conf::net::{net_rst, net_take};
use crate::conf::legacy::{legacy_ok, spec_from_legacy};
use vstd::string::*;
use crate::text::{ends_with, has_suffix};

pub mod dns;
pub mod endpoint;
pub mod legacy;
pub mod log;
pub mod net;

pub use dns::{DnsMode, DnsProtocol, DnsConf};
pub use endpoint::{EndpointConf, EndpointInfo, AddrLookups};
pub use legacy::LegacyConf;
pub use log::{LogLevel, LogConf, LogOutput};
pub use net::{NetConf, NetInfo};

verus! {

/// A field overridden by another's value when the other sets it.
pub open spec fn rst<T>(mine: Option<T>, other: Option<T>) -> Option<T> {
    if other is Some {
        other
    } else {
        mine
    }
}

/// A field that takes another's value only while it is unset itself.
pub open spec fn take<T>(mine: Option<T>, other: Option<T>) -> Option<T> {
    if mine is Some {
        mine
    } else {
        other
    }
}

/// Returns `other` when it is set, `mine` otherwise.
pub fn rst_opt<T: Copy>(mine: Option<T>, other: Option<T>) -> (r: Option<T>)
    ensures
        r == rst(mine, other),
{
    if other.is_some() {
        other
    } else {
        mine
    }
}

/// Returns `mine` when it is set, `other` otherwise.
pub fn take_opt<T: Copy>(mine: Option<T>, other: Option<T>) -> (r: Option<T>)
    ensures
        r == take(mine, other),
{
    if mine.is_some() {
        mine
    } else {
        other
    }
}

/// Options given on the command line, which override those of files.
#[derive(Debug, Clone)]
pub struct CmdOverride {
    pub log: LogConf,
    pub dns: DnsConf,
    pub network: NetConf,
}

/// The model of the command-line options.
pub struct CmdOverrideView {
    pub log: LogConfView,
    pub dns: DnsConfView,
    pub network: NetConf,
}

impl View for CmdOverride {
    type V = CmdOverrideView;

    open spec fn view(&self) -> CmdOverrideView {
        CmdOverrideView { log: self.log@, dns: self.dns@, network: self.network }
    }
}

impl Default for CmdOverride {
    fn default() -> (r: CmdOverride)
        ensures
            r@ == (CmdOverrideView {
                log: LogConf::empty_view(),
                dns: DnsConf::empty_view(),
                network: net::empty_net(),
            }),
    {
        CmdOverride { log: LogConf::default(), dns: DnsConf::default(), network: NetConf::default() }
    }
}

/// A whole configuration: global log, dns and network options, and the
/// endpoints.
#[derive(Debug, Clone)]
pub struct FullConf {
    pub log: LogConf,
    pub dns: DnsConf,
    pub network: NetConf,
    pub endpoints: Vec<EndpointConf>,
}

/// The model of a whole configuration.
pub struct FullConfView {
    pub log: LogConfView,
    pub dns: DnsConfView,
    pub network: NetConf,
    pub endpoints: Seq<EndpointConfView>,
}

impl View for FullConf {
    type V = FullConfView;

    open spec fn view(&self) -> FullConfView {
        FullConfView {
            log: self.log@,
            dns: self.dns@,
            network: self.network,
            endpoints: self.endpoints@.map_values(|e: EndpointConf| e@),
        }
    }
}

/// The endpoints with each one's network options overridden by `n`.
pub open spec fn endpoints_rst(eps: Seq<EndpointConfView>, n: NetConf) -> Seq<EndpointConfView> {
    Seq::new(eps.len(), |i: int| EndpointConfView { network: net_rst(eps[i].network, n), ..eps[i] })
}

/// The endpoints with each one's unset network options taken from `n`.
pub open spec fn endpoints_take(eps: Seq<EndpointConfView>, n: NetConf) -> Seq<EndpointConfView> {
    Seq::new(eps.len(), |i: int| EndpointConfView { network: net_take(eps[i].network, n), ..eps[i] })
}

impl Default for FullConf {
    fn default() -> (r: FullConf)
        ensures
            r@ == (FullConfView {
                log: LogConf::empty_view(),
                dns: DnsConf::empty_view(),
                network: net::empty_net(),
                endpoints: Seq::empty(),
            }),
    {
        let r = FullConf {
            log: LogConf::default(),
            dns: DnsConf::default(),
            network: NetConf::default(),
            endpoints: Vec::new(),
        };
        assert(r@.endpoints =~= Seq::<EndpointConfView>::empty());
        r
    }
}

impl FullConf {
    /// A configuration of the given parts.
    pub fn new(log: LogConf, dns: DnsConf, network: NetConf, endpoints: Vec<EndpointConf>) -> (r: Self)
        ensures
            r@ == (FullConfView {
                log: log@,
                dns: dns@,
                network,
                endpoints: endpoints@.map_values(|e: EndpointConf| e@),
            }),
    {
        FullConf { log, dns, network, endpoints }
    }

    /// Adds an endpoint after the others.
    pub fn add_endpoint(&mut self, endpoint: EndpointConf) -> (r: &mut Self)
        ensures
            r@ == (FullConfView { endpoints: old(self)@.endpoints.push(endpoint@), ..old(self)@ }),
            final(self)@ == final(r)@,
    {
        self.endpoints.push(endpoint);
        proof {
            assert(self@.endpoints =~= old(self)@.endpoints.push(endpoint@));
        }
        self
    }

    /// Applies command-line options: they override the log and dns options
    /// and every endpoint's network options wherever they are set.
    pub fn apply_cmd_opts(&mut self, opts: CmdOverride) -> (r: &mut Self)
        ensures
            r@ == (FullConfView {
                log: log_rst(old(self)@.log, opts.log@),
                dns: dns_rst(old(self)@.dns, opts.dns@),
                network: old(self)@.network,
                endpoints: endpoints_rst(old(self)@.endpoints, opts.network),
            }),
            final(self)@ == final(r)@,
    {
        self.log.rst_field(&opts.log);
        self.dns.rst_field(&opts.dns);
        let ghost eps = self@.endpoints;
        let mut i: usize = 0;
        while i < self.endpoints.len()
            invariant
                i <= self.endpoints@.len(),
                self.endpoints@.len() == eps.len(),
                forall|j: int| 0 <= j < i ==> #[trigger] self.endpoints@[j]@ == (EndpointConfView {
                    network: net_rst(eps[j].network, opts.network), ..eps[j] }),
                forall|j: int| i <= j < eps.len() ==> #[trigger] self.endpoints@[j]@ == eps[j],
                self.log@ == log_rst(old(self)@.log, opts.log@),
                self.dns@ == dns_rst(old(self)@.dns, opts.dns@),
                self.network == old(self)@.network,
                eps == old(self)@.endpoints,
            decreases self.endpoints@.len() - i,
        {
            let ghost prev = self.endpoints@;
            self.endpoints[i].network.rst_field(&opts.network);
            assert(self.endpoints@.len() == prev.len());
            assert(self.endpoints@[i as int] == EndpointConf {
                network: net_rst(prev[i as int].network, opts.network),
                ..prev[i as int]
            });
            assert(forall|j: int| 0 <= j < prev.len() && j != i ==> self.endpoints@[j] == prev[j]);
            assert forall|j: int| 0 <= j < i + 1 implies #[trigger] self.endpoints@[j]@ == (EndpointConfView {
                network: net_rst(eps[j].network, opts.network), ..eps[j] }) by {
                if j < i {
                    assert(prev[j]@ == (EndpointConfView { network: net_rst(eps[j].network, opts.network), ..eps[j] }));
                } else {
                    assert(prev[j]@ == eps[j]);
                }
            }
            assert forall|j: int| i + 1 <= j < eps.len() implies #[trigger] self.endpoints@[j]@ == eps[j] by {
                assert(prev[j]@ == eps[j]);
            }
            i = i + 1;
        }
        proof {
            assert(self@.endpoints =~= endpoints_rst(eps, opts.network));
        }
        self
    }

    /// Gives every endpoint the global network options it leaves unset.
    pub fn apply_global_opts(&mut self) -> (r: &mut Self)
        ensures
            r@ == (FullConfView {
                endpoints: endpoints_take(old(self)@.endpoints, old(self)@.network),
                ..old(self)@
            }),
            final(self)@ == final(r)@,
    {
        let ghost eps = self@.endpoints;
        let global = self.network;
        let mut i: usize = 0;
        while i < self.endpoints.len()
            invariant
                i <= self.endpoints@.len(),
                self.endpoints@.len() == eps.len(),
                forall|j: int| 0 <= j < i ==> #[trigger] self.endpoints@[j]@ == (EndpointConfView {
                    network: net_take(eps[j].network, global), ..eps[j] }),
                forall|j: int| i <= j < eps.len() ==> #[trigger] self.endpoints@[j]@ == eps[j],
                self.log@ == old(self)@.log,
                self.dns@ == old(self)@.dns,
                self.network == global,
                global == old(self)@.network,
                eps == old(self)@.endpoints,
            decreases self.endpoints@.len() - i,
        {
            let ghost prev = self.endpoints@;
            self.endpoints[i].network.take_field(&global);
            assert(self.endpoints@[i as int] == EndpointConf {
                network: net_take(prev[i as int].network, global),
                ..prev[i as int]
            });
            assert(forall|j: int| 0 <= j < prev.len() && j != i ==> self.endpoints@[j] == prev[j]);
            assert forall|j: int| 0 <= j < i + 1 implies #[trigger] self.endpoints@[j]@ == (EndpointConfView {
                network: net_take(eps[j].network, global), ..eps[j] }) by {
                if j < i {
                    assert(prev[j]@ == (EndpointConfView { network: net_take(eps[j].network, global), ..eps[j] }));
                } else {
                    assert(prev[j]@ == eps[j]);
                }
            }
            assert forall|j: int| i + 1 <= j < eps.len() implies #[trigger] self.endpoints@[j]@ == eps[j] by {
                assert(prev[j]@ == eps[j]);
            }
            i = i + 1;
        }
        proof {
            assert(self@.endpoints =~= endpoints_take(eps, global));
        }
        self
    }

    /// Merges a configuration fragment read after this one: log, dns and
    /// network options already set stay, unset ones are taken from the
    /// fragment, and its endpoints follow the ones already there.
    pub fn merge_fragment(&mut self, part: FullConf)
        ensures
            final(self)@ == (FullConfView {
                log: log_take(old(self)@.log, part@.log),
                dns: dns_take(old(self)@.dns, part@.dns),
                network: net_take(old(self)@.network, part@.network),
                endpoints: old(self)@.endpoints + part@.endpoints,
            }),
    {
        let FullConf { log, dns, network, endpoints } = part;
        let ghost part_eps = endpoints@.map_values(|e: EndpointConf| e@);
        if !dns.is_empty() {
            self.dns.take_field(&dns);
        }
        if !log.is_empty() {
            self.log.take_field(&log);
        }
        if !network.is_empty() {
            self.network.take_field(&network);
        }
        let mut endpoints = endpoints;
        let ghost before = self@.endpoints;
        self.endpoints.append(&mut endpoints);
        proof {
            assert(self@.endpoints =~= before + part_eps);
            assert(log.level is None && log.output is None ==> log_take(old(self)@.log, log@) == old(self)@.log);
            assert(dns@ == DnsConf::empty_view() ==> dns_take(old(self)@.dns, dns@) =~= old(self)@.dns);
        }
    }
}

/// The format a configuration text was read in.
#[derive(Debug, Clone, Copy, PartialEq, Eq, Structural)]
pub enum ConfFormat {
    Toml,
    Json,
    Legacy,
}

/// The message given when a configuration text reads in none of the formats.
pub open spec fn parse_failure(toml: Seq<char>, json: Seq<char>, legacy: Seq<char>) -> Seq<char> {
    "parse as toml: "@ + toml + "; parse as json: "@ + json + "; parse as legacy: "@ + legacy
}

/// The configuration a text stands for, given how it read in each format:
/// as TOML if it reads so, else as JSON, else in the early format converted;
/// when it reads in none, a message naming the three failures.
pub fn from_parsed(
    toml: Result<FullConf, String>,
    json: Result<FullConf, String>,
    legacy: Result<LegacyConf, String>,
) -> (r: Result<(FullConf, ConfFormat), String>)
    requires
        toml is Err && json is Err && legacy is Ok ==> legacy_ok(legacy->Ok_0),
    ensures
        match toml {
            Ok(c) => r matches Ok((c2, f)) && c2@ == c@ && f == ConfFormat::Toml,
            Err(te) => match json {
                Ok(c) => r matches Ok((c2, f)) && c2@ == c@ && f == ConfFormat::Json,
                Err(je) => match legacy {
                    Ok(x) => r matches Ok((c2, f)) && c2@ == spec_from_legacy(x) && f == ConfFormat::Legacy,
                    Err(le) => r matches Err(m) && m@ == parse_failure(te@, je@, le@),
                },
            },
        },
{
    let toml_err = match toml {
        Ok(c) => return Ok((c, ConfFormat::Toml)),
        Err(e) => e,
    };
    let json_err = match json {
        Ok(c) => return Ok((c, ConfFormat::Json)),
        Err(e) => e,
    };
    let legacy_err = match legacy {
        Ok(x) => return Ok((FullConf::from_legacy(x), ConfFormat::Legacy)),
        Err(e) => e,
    };
    let mut m = String::from_str("parse as toml: ");
    m.append(toml_err.as_str());
    m.append("; parse as json: ");
    m.append(json_err.as_str());
    m.append("; parse as legacy: ");
    m.append(legacy_err.as_str());
    Err(m)
}

/// The format a configuration fragment in a directory is read in, by its
/// file name: JSON for a `.json` name, TOML for a `.toml` one; other files
/// are skipped.
pub open spec fn spec_fragment_format(name: Seq<char>) -> Option<ConfFormat> {
    if has_suffix(name, ".json"@) {
        Some(ConfFormat::Json)
    } else if has_suffix(name, ".toml"@) {
        Some(ConfFormat::Toml)
    } else {
        None
    }
}

/// The format a configuration fragment is read in, by its file name.
pub fn fragment_format(name: &str) -> (r: Option<ConfFormat>)
    ensures
        r == spec_fragment_format(name@),
{
    if ends_with(name, ".json") {
        Some(ConfFormat::Json)
    } else if ends_with(name, ".toml") {
        Some(ConfFormat::Toml)
    } else {
        None
    }
}

impl FullConf {
    /// The configuration given by a single endpoint on the command line:
    /// that endpoint, with the command-line options applied over it.
    pub fn from_cmd_endpoint(endpoint: EndpointConf, opts: CmdOverride) -> (r: FullConf)
        ensures
            r@ == (FullConfView {
                log: log_rst(LogConf::empty_view(), opts.log@),
                dns: dns_rst(DnsConf::empty_view(), opts.dns@),
                network: net::empty_net(),
                endpoints: endpoints_rst(
                    endpoints_take(seq![endpoint@], net::empty_net()),
                    opts.network,
                ),
            }),
    {
        let mut conf = FullConf::default();
        let ghost e0 = conf@;
        conf.add_endpoint(endpoint);
        proof {
            assert(conf@.endpoints =~= seq![endpoint@]);
        }
        conf.apply_global_opts();
        conf.apply_cmd_opts(opts);
        conf
    }
}

} // verus!
