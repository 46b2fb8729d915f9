//! Configuration model and relay decision logic of the realm relay server.
use vstd::prelude::*;

pub mod text;
pub mod consts;
pub mod endpoint;
pub mod conf;
pub mod cmd;
pub mod api;
pub mod relay;
pub mod shared;
pub mod dns;
pub mod assoc;
pub mod laws;
pub mod laws_build;

verus! {

/// The environment variable that may hold a whole configuration.
pub const ENV_CONFIG: &'static str = "REALM_CONF";

} // verus!
