//! What the command line asks for.
use vstd::prelude::*;
use crate::conf::{CmdOverride, EndpointConf};
use crate::conf::endpoint::EndpointConfView;
use crate::endpoint::opt_view;

verus! {

/// What to start from: a configuration file, a single endpoint, or nothing.
#[derive(Debug, Clone)]
pub enum CmdInput {
    Config(String, CmdOverride),
    Endpoint(EndpointConf, CmdOverride),
    Nothing,
}

/// What the command line asks for: a configuration file when one is named;
/// else an endpoint when both a listen and a remote address are given; else
/// nothing.
pub fn select_input(
    config: Option<String>,
    listen: Option<String>,
    remote: Option<String>,
    through: Option<String>,
    interface: Option<String>,
    listen_interface: Option<String>,
    listen_transport: Option<String>,
    remote_transport: Option<String>,
    opts: CmdOverride,
) -> (r: CmdInput)
    ensures
        match config {
            Some(c) => r matches CmdInput::Config(c2, o) && c2@ == c@ && o@ == opts@,
            None => if listen is Some && remote is Some {
                r matches CmdInput::Endpoint(e, o) && o@ == opts@ && e@ == (EndpointConfView {
                    listen: listen->Some_0@,
                    remote: remote->Some_0@,
                    extra_remotes: Seq::empty(),
                    balance: None,
                    through: opt_view(through),
                    interface: opt_view(interface),
                    listen_interface: opt_view(listen_interface),
                    listen_transport: opt_view(listen_transport),
                    remote_transport: opt_view(remote_transport),
                    network: crate::conf::net::empty_net(),
                })
            } else {
                r is Nothing
            },
        },
{
    if let Some(c) = config {
        return CmdInput::Config(c, opts);
    }
    match (listen, remote) {
        (Some(l), Some(r)) => {
            let e = EndpointConf::from_cmd_values(
                l,
                r,
                through,
                interface,
                listen_interface,
                listen_transport,
                remote_transport,
            );
            CmdInput::Endpoint(e, opts)
        },
        _ => CmdInput::Nothing,
    }
}

} // verus!
