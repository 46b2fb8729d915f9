//! The resolver settings the relay's lookups are made with.
use vstd::prelude::*;
use trust_dns_resolver::config::{ResolverConfig, ResolverOpts};

verus! {

/// trust-dns-resolver's resolver configuration (name servers, search
/// domains), carried through unread.
#[verifier::external_type_specification]
#[verifier::external_body]
pub struct ExResolverConfig(trust_dns_resolver::config::ResolverConfig);

/// trust-dns-resolver's resolver options (strategy, cache, TTLs), carried
/// through unread.
#[verifier::external_type_specification]
#[verifier::external_body]
pub struct ExResolverOpts(trust_dns_resolver::config::ResolverOpts);

/// The configuration and options a resolver is built with.
pub struct DnsConf {
    pub conf: ResolverConfig,
    pub opts: ResolverOpts,
}

impl DnsConf {
    /// Replaces the resolver configuration; the options stay.
    pub fn set_conf(&mut self, conf: ResolverConfig)
        ensures
            final(self).conf == conf,
            final(self).opts == old(self).opts,
    {
        self.conf = conf;
    }

    /// Replaces the resolver options; the configuration stays.
    pub fn set_opts(&mut self, opts: ResolverOpts)
        ensures
            final(self).opts == opts,
            final(self).conf == old(self).conf,
    {
        self.opts = opts;
    }
}

} // verus!
