//! The proxy state manager: detects the backend, delegates apply and revert to
//! its driver, and holds at most one snapshot.
use vstd::prelude::*;
use crate::backup::{Snapshot, SnapshotModel};
use crate::detect::{detect, environment_kind, EnvironmentKind};
use crate::env_proxy::{connect_env, disconnect_env, env_apply, env_revert};
use crate::gnome::{connect_gnome, disconnect_gnome, gnome_apply, gnome_revert};
use crate::kde::{connect_kde, disconnect_kde, kde_apply, kde_revert};
use crate::store::{opt_text, ProxyError, SystemConfig, SystemModel};
use crate::windows::{restore_proxy, set_socks5_proxy, windows_apply, windows_revert};

verus! {

/// What driver `kind` does on apply: the snapshot it read, the new store and
/// the outcome.
pub open spec fn apply_model(kind: EnvironmentKind, s: SystemModel, host: Seq<char>, port: int) -> (
    SnapshotModel,
    SystemModel,
    Result<(), ProxyError>,
) {
    match kind {
        EnvironmentKind::Gnome => {
            let t = gnome_apply(s, host, port);
            (SnapshotModel::Gnome(t.0), t.1, t.2)
        },
        EnvironmentKind::Kde => {
            let t = kde_apply(s, host, port);
            (SnapshotModel::Kde, t.0, t.1)
        },
        EnvironmentKind::GenericUnix => (SnapshotModel::GenericUnix, env_apply(s, host, port), Ok(())),
        EnvironmentKind::Windows => {
            let t = windows_apply(s, host, port);
            (SnapshotModel::Windows(t.0), t.1, t.2)
        },
    }
}

/// What the driver that took `snap` does on revert.
pub open spec fn revert_model(snap: SnapshotModel, s: SystemModel) -> (SystemModel, Result<(), ProxyError>) {
    match snap {
        SnapshotModel::Gnome(b) => gnome_revert(s, b),
        SnapshotModel::Kde => kde_revert(s),
        SnapshotModel::GenericUnix => (env_revert(s), Ok(())),
        SnapshotModel::Windows(b) => windows_revert(s, b),
    }
}

/// Runs driver `kind`'s apply. The snapshot is returned even when a write fails.
pub fn apply(kind: EnvironmentKind, sys: &mut SystemConfig, host: &str, port: i32) -> (res: (
    Snapshot,
    Result<(), ProxyError>,
))
    requires
        1 <= port <= 65535,
    ensures
        (res.0@, final(sys)@, res.1) == apply_model(kind, old(sys)@, host@, port as int),
{
    match kind {
        EnvironmentKind::Gnome => {
            let (b, r) = connect_gnome(sys, host, port);
            (Snapshot::Gnome(b), r)
        },
        EnvironmentKind::Kde => {
            let r = connect_kde(sys, host, port);
            (Snapshot::Kde, r)
        },
        EnvironmentKind::GenericUnix => {
            connect_env(sys, host, port);
            (Snapshot::GenericUnix, Ok(()))
        },
        EnvironmentKind::Windows => {
            let (b, r) = set_socks5_proxy(sys, host, port);
            (Snapshot::Windows(b), r)
        },
    }
}

/// Runs the revert of the driver that took `snap`.
pub fn revert(sys: &mut SystemConfig, snap: &Snapshot) -> (r: Result<(), ProxyError>)
    ensures
        (final(sys)@, r) == revert_model(snap@, old(sys)@),
{
    match snap {
        Snapshot::Gnome(b) => disconnect_gnome(sys, b),
        Snapshot::Kde => disconnect_kde(sys),
        Snapshot::GenericUnix => {
            disconnect_env(sys);
            Ok(())
        },
        Snapshot::Windows(b) => restore_proxy(sys, b),
    }
}

/// Either no redirect, or exactly one with the snapshot of its driver.
#[derive(Clone, Debug, PartialEq, Eq)]
pub enum ManagerState {
    Idle,
    Active(Snapshot),
}

/// Model of a `ManagerState`.
pub enum ManagerModel {
    Idle,
    Active(SnapshotModel),
}

/// Owner of the one redirect of a host.
#[derive(Clone, Debug, PartialEq, Eq)]
pub struct SocksManager {
    pub state: ManagerState,
}

impl View for SocksManager {
    type V = ManagerModel;

    open spec fn view(&self) -> ManagerModel {
        match self.state {
            ManagerState::Idle => ManagerModel::Idle,
            ManagerState::Active(s) => ManagerModel::Active(s@),
        }
    }
}

/// `enable`: rejected while active; otherwise the detected driver applies,
/// and the manager becomes active exactly when it succeeded.
pub open spec fn enable_model(m: ManagerModel, s: SystemModel, host: Seq<char>, port: int) -> (
    ManagerModel,
    SystemModel,
    Result<(), ProxyError>,
) {
    match m {
        ManagerModel::Active(_) => (m, s, Err(ProxyError::AlreadyActive)),
        ManagerModel::Idle => {
            let t = apply_model(environment_kind(s.is_windows, s.desktop_session), s, host, port);
            (
                if t.2 is Ok {
                    ManagerModel::Active(t.0)
                } else {
                    ManagerModel::Idle
                },
                t.1,
                t.2,
            )
        },
    }
}

/// `disable`: nothing to do while idle; otherwise the snapshot's driver
/// reverts, and the manager is idle whatever the outcome.
pub open spec fn disable_model(m: ManagerModel, s: SystemModel) -> (
    ManagerModel,
    SystemModel,
    Result<(), ProxyError>,
) {
    match m {
        ManagerModel::Idle => (m, s, Ok(())),
        ManagerModel::Active(snap) => {
            let t = revert_model(snap, s);
            (ManagerModel::Idle, t.0, t.1)
        },
    }
}

impl SocksManager {
    /// An idle manager.
    pub fn new() -> (r: SocksManager)
        ensures
            r@ == ManagerModel::Idle,
    {
        SocksManager { state: ManagerState::Idle }
    }

    /// The desktop session name of the host, if set.
    pub fn detect_desktop_env(sys: &SystemConfig) -> (r: Option<String>)
        ensures
            opt_text(r) == sys@.desktop_session,
    {
        match &sys.desktop_session {
            Some(d) => Some(d.clone()),
            None => None,
        }
    }

    /// Whether a redirect is active.
    pub fn is_active(&self) -> (r: bool)
        ensures
            r == (self@ is Active),
    {
        match self.state {
            ManagerState::Idle => false,
            ManagerState::Active(_) => true,
        }
    }

    /// Starts redirecting to the SOCKS5 endpoint `host:port`.
    pub fn connect(&mut self, sys: &mut SystemConfig, host: &str, port: i32) -> (r: Result<
        (),
        ProxyError,
    >)
        requires
            1 <= port <= 65535,
        ensures
            (final(self)@, final(sys)@, r) == enable_model(
                old(self)@,
                old(sys)@,
                host@,
                port as int,
            ),
    {
        if self.is_active() {
            return Err(ProxyError::AlreadyActive);
        }
        let kind = detect(sys.is_windows, &sys.desktop_session);
        let (snap, r) = apply(kind, sys, host, port);
        if r.is_ok() {
            self.state = ManagerState::Active(snap);
        }
        r
    }

    /// Stops the redirect, if any, restoring the snapshot.
    pub fn disconnect(&mut self, sys: &mut SystemConfig) -> (r: Result<(), ProxyError>)
        ensures
            (final(self)@, final(sys)@, r) == disable_model(old(self)@, old(sys)@),
    {
        let r = match &self.state {
            ManagerState::Idle => Ok(()),
            ManagerState::Active(snap) => revert(sys, snap),
        };
        self.state = ManagerState::Idle;
        r
    }
}

} // verus!
