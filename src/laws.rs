//! Laws of the proxy manager, stated over the models of `enable` and
//! `disable` that `SocksManager::connect` and `SocksManager::disconnect`
//! implement exactly.
use vstd::prelude::*;
use crate::backup::SnapshotModel;
use crate::detect::{environment_kind, EnvironmentKind};
use crate::env_proxy::socks5_url;
use crate::manager::{disable_model, enable_model, ManagerModel};
use crate::store::{KdeWriteModel, Notice, ProxyError, SystemModel};
use crate::text::endpoint;
use crate::windows::{windows_apply, windows_backup};

verus! {

/// The driver that `enable` selects on a store.
pub open spec fn kind_of(s: SystemModel) -> EnvironmentKind {
    environment_kind(s.is_windows, s.desktop_session)
}

/// The fields that driver `kind` backs up hold the same values in `before`
/// and `after`.
pub open spec fn backed_up_fields_equal(kind: EnvironmentKind, before: SystemModel, after: SystemModel) -> bool {
    match kind {
        EnvironmentKind::Gnome => {
            &&& after.mode == before.mode
            &&& after.socks_host == before.socks_host
            &&& after.socks_port == before.socks_port
            &&& after.ignore_hosts == before.ignore_hosts
        },
        EnvironmentKind::Kde => after.kde_proxy_type == before.kde_proxy_type,
        EnvironmentKind::GenericUnix => after.all_proxy == before.all_proxy,
        EnvironmentKind::Windows => windows_backup(after) == windows_backup(before),
    }
}

/// Round trip: when `enable` from idle succeeds, an immediate `disable`
/// succeeds, leaves the manager idle, and restores every backed-up field to
/// its value before `enable`. The KDE driver reverts the proxy type to
/// disabled and the environment driver removes the variable, so for those the
/// prior state must have been disabled or unset.
pub proof fn enable_then_disable_restores(s0: SystemModel, host: Seq<char>, port: int)
    requires
        1 <= port <= 65535,
        kind_of(s0) == EnvironmentKind::Kde ==> s0.kde_proxy_type == 0,
        kind_of(s0) == EnvironmentKind::GenericUnix ==> s0.all_proxy is None,
    ensures
        ({
            let e = enable_model(ManagerModel::Idle, s0, host, port);
            let d = disable_model(e.0, e.1);
            e.2 is Ok ==> {
                &&& d.0 == ManagerModel::Idle
                &&& d.2 == Ok::<(), ProxyError>(())
                &&& backed_up_fields_equal(kind_of(s0), s0, d.1)
            }
        }),
{
}

/// `disable` while idle succeeds and changes neither the manager nor the
/// store.
pub proof fn disable_while_idle_changes_nothing(s: SystemModel)
    ensures
        disable_model(ManagerModel::Idle, s) == (ManagerModel::Idle, s, Ok::<(), ProxyError>(())),
{
}

/// `enable` while active fails with `AlreadyActive` and changes neither the
/// manager nor the store.
pub proof fn enable_while_active_rejected(snap: SnapshotModel, s: SystemModel, host: Seq<char>, port: int)
    ensures
        enable_model(ManagerModel::Active(snap), s, host, port) == (
            ManagerModel::Active(snap),
            s,
            Err::<(), ProxyError>(ProxyError::AlreadyActive),
        ),
{
}

/// KDE: `enable` then `disable` invokes the config writer three times, with
/// `ProxyType` 1 first and `ProxyType` 0 last, and sends two reparse
/// requests; both calls succeed.
pub proof fn kde_enable_disable_writes(s0: SystemModel, host: Seq<char>, port: int)
    requires
        1 <= port <= 65535,
        kind_of(s0) == EnvironmentKind::Kde,
        s0.kde_available,
    ensures
        ({
            let e = enable_model(ManagerModel::Idle, s0, host, port);
            let d = disable_model(e.0, e.1);
            &&& e.2 is Ok
            &&& d.2 is Ok
            &&& d.1.kde_writes == s0.kde_writes.push(KdeWriteModel::ProxyType(1)).push(
                KdeWriteModel::SocksProxy(endpoint(host, port)),
            ).push(KdeWriteModel::ProxyType(0))
            &&& d.1.notices == s0.notices.push(Notice::KdeReparse).push(Notice::KdeReparse)
        }),
{
}

/// Windows: when the registry cannot be written, apply still returns the
/// snapshot of the three values read before the failing write, alongside the
/// error, and the store is unchanged.
pub proof fn windows_failed_write_keeps_snapshot(s: SystemModel, host: Seq<char>, port: int)
    requires
        !s.registry_writable,
    ensures
        windows_apply(s, host, port) == (
            windows_backup(s),
            s,
            Err::<(), ProxyError>(
                ProxyError::ConfigAccessError(crate::store::ConfigStore::InternetSettings),
            ),
        ),
{
}

/// Generic Unix: `enable` sets `ALL_PROXY` to `socks5://host:port`, and
/// `disable` removes the variable entirely.
pub proof fn env_enable_disable(s0: SystemModel, host: Seq<char>, port: int)
    requires
        1 <= port <= 65535,
        kind_of(s0) == EnvironmentKind::GenericUnix,
    ensures
        ({
            let e = enable_model(ManagerModel::Idle, s0, host, port);
            let d = disable_model(e.0, e.1);
            &&& e.2 is Ok
            &&& e.1.all_proxy == Some(socks5_url(host, port))
            &&& d.2 is Ok
            &&& d.1.all_proxy is None
        }),
{
}

} // verus!
