//! Generic Unix driver: the process-wide `ALL_PROXY` variable.
use vstd::prelude::*;
use crate::store::{SystemConfig, SystemModel};
use crate::text::{endpoint, prefixed_endpoint_text};

verus! {

/// The proxy URL `socks5://host:port`.
pub open spec fn socks5_url(host: Seq<char>, port: int) -> Seq<char> {
    "socks5://"@ + endpoint(host, port)
}

/// Apply: the variable is set to the proxy URL.
pub open spec fn env_apply(s: SystemModel, host: Seq<char>, port: int) -> SystemModel {
    SystemModel { all_proxy: Some(socks5_url(host, port)), ..s }
}

/// Revert: the variable is removed.
pub open spec fn env_revert(s: SystemModel) -> SystemModel {
    SystemModel { all_proxy: None, ..s }
}

/// Sets `ALL_PROXY` to `socks5://host:port`.
pub fn connect_env(sys: &mut SystemConfig, host: &str, port: i32)
    requires
        1 <= port <= 65535,
    ensures
        final(sys)@ == env_apply(old(sys)@, host@, port as int),
{
    sys.all_proxy = Some(prefixed_endpoint_text("socks5://", host, port));
}

/// Removes `ALL_PROXY`, whatever it held.
pub fn disconnect_env(sys: &mut SystemConfig)
    ensures
        final(sys)@ == env_revert(old(sys)@),
{
    sys.all_proxy = None;
}

} // verus!
