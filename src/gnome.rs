//! GNOME driver: the `system.proxy` and `system.proxy.socks` settings schemas.
use vstd::prelude::*;
use crate::backup::{ProxyBackup, ProxyBackupModel};
use crate::store::{copy_texts, ConfigStore, ProxyError, SystemConfig, SystemModel, texts};

verus! {

/// The backup that the GNOME driver reads from a store.
pub open spec fn gnome_backup(s: SystemModel) -> ProxyBackupModel {
    ProxyBackupModel {
        mode: s.mode,
        host: s.socks_host,
        port: s.socks_port,
        ignore_hosts: s.ignore_hosts,
    }
}

/// Apply: read the backup, then set mode to "manual", then the SOCKS host and
/// port. A write stops at the first schema that cannot be written.
pub open spec fn gnome_apply(s: SystemModel, host: Seq<char>, port: int) -> (
    ProxyBackupModel,
    SystemModel,
    Result<(), ProxyError>,
) {
    let b = gnome_backup(s);
    if !s.proxy_writable {
        (b, s, Err(ProxyError::ConfigAccessError(ConfigStore::GnomeProxy)))
    } else {
        let s1 = SystemModel { mode: "manual"@, ..s };
        if !s.socks_writable {
            (b, s1, Err(ProxyError::ConfigAccessError(ConfigStore::GnomeSocks)))
        } else {
            (b, SystemModel { socks_host: host, socks_port: port, ..s1 }, Ok(()))
        }
    }
}

/// Revert: restore mode, then host and port, then the bypass list.
pub open spec fn gnome_revert(s: SystemModel, b: ProxyBackupModel) -> (
    SystemModel,
    Result<(), ProxyError>,
) {
    if !s.proxy_writable {
        (s, Err(ProxyError::ConfigAccessError(ConfigStore::GnomeProxy)))
    } else {
        let s1 = SystemModel { mode: b.mode, ..s };
        if !s.socks_writable {
            (s1, Err(ProxyError::RevertPartialFailure(ConfigStore::GnomeSocks)))
        } else {
            (
                SystemModel {
                    socks_host: b.host,
                    socks_port: b.port,
                    ignore_hosts: b.ignore_hosts,
                    ..s1
                },
                Ok(()),
            )
        }
    }
}

/// Reads the GNOME proxy settings into a backup, then points them at
/// `host:port`. The backup is returned whether or not the writes succeed.
pub fn connect_gnome(sys: &mut SystemConfig, host: &str, port: i32) -> (res: (
    ProxyBackup,
    Result<(), ProxyError>,
))
    ensures
        (res.0@, final(sys)@, res.1) == gnome_apply(old(sys)@, host@, port as int),
{
    let backup = ProxyBackup {
        mode: sys.gnome_proxy.mode.clone(),
        host: sys.gnome_socks.host.clone(),
        port: sys.gnome_socks.port,
        ignore_hosts: copy_texts(&sys.gnome_proxy.ignore_hosts),
    };
    if !sys.gnome_proxy.writable {
        return (backup, Err(ProxyError::ConfigAccessError(ConfigStore::GnomeProxy)));
    }
    sys.gnome_proxy.mode = String::from_str("manual");
    if !sys.gnome_socks.writable {
        return (backup, Err(ProxyError::ConfigAccessError(ConfigStore::GnomeSocks)));
    }
    sys.gnome_socks.host = String::from_str(host);
    sys.gnome_socks.port = port;
    (backup, Ok(()))
}

/// Writes every field of the backup back into the GNOME proxy settings.
pub fn disconnect_gnome(sys: &mut SystemConfig, backup: &ProxyBackup) -> (r: Result<
    (),
    ProxyError,
>)
    ensures
        (final(sys)@, r) == gnome_revert(old(sys)@, backup@),
{
    if !sys.gnome_proxy.writable {
        return Err(ProxyError::ConfigAccessError(ConfigStore::GnomeProxy));
    }
    sys.gnome_proxy.mode = backup.mode.clone();
    if !sys.gnome_socks.writable {
        return Err(ProxyError::RevertPartialFailure(ConfigStore::GnomeSocks));
    }
    sys.gnome_socks.host = backup.host.clone();
    sys.gnome_socks.port = backup.port;
    sys.gnome_proxy.ignore_hosts = copy_texts(&backup.ignore_hosts);
    Ok(())
}

} // verus!
