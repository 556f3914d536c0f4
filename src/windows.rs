//! Windows driver: `ProxyEnable`, `ProxyServer` and `ProxyOverride` under the
//! per-user Internet Settings key, followed by the settings-changed and
//! refresh notifications.
use vstd::prelude::*;
use crate::backup::{WindowsBackupModel, WindowsProxyBackup};
use crate::store::{ConfigStore, Notice, ProxyError, SystemConfig, SystemModel};
use crate::text::{endpoint, prefixed_endpoint_text};

verus! {

/// The bypass list written while the redirect is active.
pub open spec fn local_bypass() -> Seq<char> {
    "localhost;127.0.0.1;<local>"@
}

/// The proxy server text `socks=host:port`.
pub open spec fn socks_server(host: Seq<char>, port: int) -> Seq<char> {
    "socks="@ + endpoint(host, port)
}

/// The backup read from the key; a missing value reads as 0 or empty.
pub open spec fn windows_backup(s: SystemModel) -> WindowsBackupModel {
    WindowsBackupModel {
        enabled: match s.proxy_enable {
            Some(v) => v,
            None => 0,
        },
        server: match s.proxy_server {
            Some(v) => v,
            None => Seq::empty(),
        },
        override_list: match s.proxy_override {
            Some(v) => v,
            None => Seq::empty(),
        },
    }
}

/// Apply: read the backup, then write the three values and notify.
pub open spec fn windows_apply(s: SystemModel, host: Seq<char>, port: int) -> (
    WindowsBackupModel,
    SystemModel,
    Result<(), ProxyError>,
) {
    let b = windows_backup(s);
    if !s.registry_writable {
        (b, s, Err(ProxyError::ConfigAccessError(ConfigStore::InternetSettings)))
    } else {
        (
            b,
            SystemModel {
                proxy_enable: Some(1),
                proxy_server: Some(socks_server(host, port)),
                proxy_override: Some(local_bypass()),
                notices: s.notices.push(Notice::SettingsChanged).push(Notice::Refresh),
                ..s
            },
            Ok(()),
        )
    }
}

/// Revert: write the three backed-up values verbatim and notify.
pub open spec fn windows_revert(s: SystemModel, b: WindowsBackupModel) -> (
    SystemModel,
    Result<(), ProxyError>,
) {
    if !s.registry_writable {
        (s, Err(ProxyError::ConfigAccessError(ConfigStore::InternetSettings)))
    } else {
        (
            SystemModel {
                proxy_enable: Some(b.enabled),
                proxy_server: Some(b.server),
                proxy_override: Some(b.override_list),
                notices: s.notices.push(Notice::SettingsChanged).push(Notice::Refresh),
                ..s
            },
            Ok(()),
        )
    }
}

/// Reads the three Internet Settings values into a backup, then writes a SOCKS
/// proxy at `host:port`. The backup is returned whether or not the writes
/// succeed.
pub fn set_socks5_proxy(sys: &mut SystemConfig, host: &str, port: i32) -> (res: (
    WindowsProxyBackup,
    Result<(), ProxyError>,
))
    requires
        1 <= port <= 65535,
    ensures
        (res.0@, final(sys)@, res.1) == windows_apply(old(sys)@, host@, port as int),
{
    let enabled: u32 = match sys.internet.proxy_enable {
        Some(v) => v,
        None => 0,
    };
    let server = match &sys.internet.proxy_server {
        Some(v) => v.clone(),
        None => String::new(),
    };
    let override_list = match &sys.internet.proxy_override {
        Some(v) => v.clone(),
        None => String::new(),
    };
    let backup = WindowsProxyBackup { enabled, server, override_list };
    if !sys.internet.writable {
        return (backup, Err(ProxyError::ConfigAccessError(ConfigStore::InternetSettings)));
    }
    sys.internet.proxy_enable = Some(1);
    sys.internet.proxy_server = Some(prefixed_endpoint_text("socks=", host, port));
    sys.internet.proxy_override = Some(String::from_str("localhost;127.0.0.1;<local>"));
    sys.notify(Notice::SettingsChanged);
    sys.notify(Notice::Refresh);
    (backup, Ok(()))
}

/// Writes the three backed-up Internet Settings values back verbatim.
pub fn restore_proxy(sys: &mut SystemConfig, backup: &WindowsProxyBackup) -> (r: Result<
    (),
    ProxyError,
>)
    ensures
        (final(sys)@, r) == windows_revert(old(sys)@, backup@),
{
    if !sys.internet.writable {
        return Err(ProxyError::ConfigAccessError(ConfigStore::InternetSettings));
    }
    sys.internet.proxy_enable = Some(backup.enabled);
    sys.internet.proxy_server = Some(backup.server.clone());
    sys.internet.proxy_override = Some(backup.override_list.clone());
    sys.notify(Notice::SettingsChanged);
    sys.notify(Notice::Refresh);
    Ok(())
}

} // verus!
