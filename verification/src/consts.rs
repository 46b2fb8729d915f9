//! Default values of the relay.
use vstd::prelude::*;
use vstd::string::*;

verus! {

/// Where the log goes when no output is configured.
pub const DEFAULT_LOG_FILE: &'static str = "stdout";

/// Seconds to wait for an outbound TCP connect.
pub const TCP_TIMEOUT: usize = 5;

/// Seconds between TCP keepalive probes.
pub const TCP_KEEPALIVE: usize = 15;

/// Number of TCP keepalive probes.
pub const TCP_KEEPALIVE_PROBE: usize = 3;

/// Seconds a UDP association lives without traffic.
pub const UDP_TIMEOUT: usize = 30;

/// The haproxy PROXY protocol version sent by default.
pub const PROXY_PROTOCOL_VERSION: usize = 2;

/// Seconds to wait for an incoming PROXY header.
pub const PROXY_PROTOCOL_TIMEOUT: usize = 5;

/// The optional features a build of the relay has.
#[derive(Debug, Clone, Copy, PartialEq, Eq, Structural)]
pub struct Features {
    pub mimalloc: bool,
    pub jemalloc: bool,
    pub multi_thread: bool,
    pub hook: bool,
    pub proxy: bool,
    pub balance: bool,
    pub transport: bool,
    pub brutal_shutdown: bool,
}

/// `[name]` when the feature is on, nothing otherwise.
pub open spec fn tag(on: bool, name: Seq<char>) -> Seq<char> {
    if on {
        "["@ + name + "]"@
    } else {
        Seq::empty()
    }
}

/// The tags of the features that are on, in a fixed order.
pub open spec fn features_text(f: Features) -> Seq<char> {
    tag(f.hook, "hook"@) + tag(f.proxy, "proxy"@) + tag(f.balance, "balance"@)
        + tag(f.brutal_shutdown, "brutal"@) + tag(f.transport, "transport"@)
        + tag(f.multi_thread, "multi-thread"@) + tag(f.mimalloc, "mimalloc"@)
        + tag(f.jemalloc, "jemalloc"@)
}

fn push_tag(out: &mut String, on: bool, name: &str)
    ensures
        final(out)@ == old(out)@ + tag(on, name@),
{
    if on {
        out.append("[");
        out.append(name);
        out.append("]");
        proof {
            reveal_strlit("[");
            reveal_strlit("]");
        }
        assert(final(out)@ =~= old(out)@ + tag(on, name@));
    } else {
        assert(old(out)@ + tag(on, name@) =~= old(out)@);
    }
}

impl Features {
    /// The tags of the features that are on, such as `[proxy][balance]`.
    pub fn to_string(&self) -> (r: String)
        ensures
            r@ == features_text(*self),
    {
        let mut r = String::new();
        push_tag(&mut r, self.hook, "hook");
        push_tag(&mut r, self.proxy, "proxy");
        push_tag(&mut r, self.balance, "balance");
        push_tag(&mut r, self.brutal_shutdown, "brutal");
        push_tag(&mut r, self.transport, "transport");
        push_tag(&mut r, self.multi_thread, "multi-thread");
        push_tag(&mut r, self.mimalloc, "mimalloc");
        push_tag(&mut r, self.jemalloc, "jemalloc");
        assert(r@ =~= features_text(*self));
        r
    }
}

} // verus!
