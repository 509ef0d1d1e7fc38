//! Paths of the hub's own endpoints.
use vstd::prelude::*;

verus! {

pub const HUB_WS_PATH: &'static str = "/api/hub/ws";

pub const HUB_HOOKS_PATH: &'static str = "/api/hooks";

pub const HUB_CONTACTS_PATH_PREFIX: &'static str = "/api/hub/contacts/";

pub const HUB_RELAY_PATH: &'static str = "/api/hub/relay";

pub const HUB_TUNNEL_PROXY_CONTACTS_PATH_PREFIX: &'static str = "/api/hub/tunnel_proxy/contacts/";

pub const HUB_TUNNEL_PROXY_RELAY_PATH: &'static str = "/api/hub/tunnel_proxy/relay";

} // verus!
