//! KDE driver: the config writer on `kioslaverc`, group "Proxy Settings", and
//! the proxy-scout reparse notification. Nothing is read back: revert sets the
//! proxy type to disabled.
use vstd::prelude::*;
use crate::store::{ConfigStore, KdeWrite, KdeWriteModel, Notice, ProxyError, SystemConfig, SystemModel};
use crate::text::{endpoint, endpoint_text};

verus! {

/// Apply: `ProxyType` 1, then `socksProxy` `host:port`, then a reparse request.
pub open spec fn kde_apply(s: SystemModel, host: Seq<char>, port: int) -> (
    SystemModel,
    Result<(), ProxyError>,
) {
    if !s.kde_available {
        (s, Err(ProxyError::ConfigAccessError(ConfigStore::KdeConfig)))
    } else {
        let e = endpoint(host, port);
        (
            SystemModel {
                kde_proxy_type: 1,
                kde_socks_proxy: e,
                kde_writes: s.kde_writes.push(KdeWriteModel::ProxyType(1)).push(
                    KdeWriteModel::SocksProxy(e),
                ),
                notices: s.notices.push(Notice::KdeReparse),
                ..s
            },
            Ok(()),
        )
    }
}

/// Revert: `ProxyType` 0, then a reparse request.
pub open spec fn kde_revert(s: SystemModel) -> (SystemModel, Result<(), ProxyError>) {
    if !s.kde_available {
        (s, Err(ProxyError::ConfigAccessError(ConfigStore::KdeConfig)))
    } else {
        (
            SystemModel {
                kde_proxy_type: 0,
                kde_writes: s.kde_writes.push(KdeWriteModel::ProxyType(0)),
                notices: s.notices.push(Notice::KdeReparse),
                ..s
            },
            Ok(()),
        )
    }
}

/// Sets the KDE proxy to manual SOCKS at `host:port` and asks the desktop to
/// reparse its configuration.
pub fn connect_kde(sys: &mut SystemConfig, host: &str, port: i32) -> (r: Result<(), ProxyError>)
    requires
        1 <= port <= 65535,
    ensures
        (final(sys)@, r) == kde_apply(old(sys)@, host@, port as int),
{
    if !sys.kde.writer_available {
        return Err(ProxyError::ConfigAccessError(ConfigStore::KdeConfig));
    }
    sys.kde.proxy_type = 1;
    sys.log_kde_write(KdeWrite::ProxyType(1));
    let e = endpoint_text(host, port);
    sys.kde.socks_proxy = e.clone();
    sys.log_kde_write(KdeWrite::SocksProxy(e));
    sys.notify(Notice::KdeReparse);
    Ok(())
}

/// Sets the KDE proxy type to disabled and asks the desktop to reparse its
/// configuration.
pub fn disconnect_kde(sys: &mut SystemConfig) -> (r: Result<(), ProxyError>)
    ensures
        (final(sys)@, r) == kde_revert(old(sys)@),
{
    if !sys.kde.writer_available {
        return Err(ProxyError::ConfigAccessError(ConfigStore::KdeConfig));
    }
    sys.kde.proxy_type = 0;
    sys.log_kde_write(KdeWrite::ProxyType(0));
    sys.notify(Notice::KdeReparse);
    Ok(())
}

} // verus!
