//! Snapshots of the prior proxy configuration, taken before any write.
use vstd::prelude::*;
use crate::store::texts;

verus! {

/// Prior GNOME proxy configuration.
#[derive(Clone, Debug, PartialEq, Eq)]
pub struct ProxyBackup {
    pub mode: String,
    pub host: String,
    pub port: i32,
    pub ignore_hosts: Vec<String>,
}

/// Model of a `ProxyBackup`.
pub struct ProxyBackupModel {
    pub mode: Seq<char>,
    pub host: Seq<char>,
    pub port: int,
    pub ignore_hosts: Seq<Seq<char>>,
}

impl View for ProxyBackup {
    type V = ProxyBackupModel;

    open spec fn view(&self) -> ProxyBackupModel {
        ProxyBackupModel {
            mode: self.mode@,
            host: self.host@,
            port: self.port as int,
            ignore_hosts: texts(self.ignore_hosts@),
        }
    }
}

/// Prior Windows Internet Settings values.
#[derive(Clone, Debug, PartialEq, Eq)]
pub struct WindowsProxyBackup {
    pub enabled: u32,
    pub server: String,
    pub override_list: String,
}

/// Model of a `WindowsProxyBackup`.
pub struct WindowsBackupModel {
    pub enabled: u32,
    pub server: Seq<char>,
    pub override_list: Seq<char>,
}

impl View for WindowsProxyBackup {
    type V = WindowsBackupModel;

    open spec fn view(&self) -> WindowsBackupModel {
        WindowsBackupModel {
            enabled: self.enabled,
            server: self.server@,
            override_list: self.override_list@,
        }
    }
}

/// What a driver keeps of the prior configuration. The KDE driver can read
/// nothing back and reverts to "disabled"; the environment driver removes the
/// variable unconditionally.
#[derive(Clone, Debug, PartialEq, Eq)]
pub enum Snapshot {
    Gnome(ProxyBackup),
    Kde,
    GenericUnix,
    Windows(WindowsProxyBackup),
}

/// Model of a `Snapshot`.
pub enum SnapshotModel {
    Gnome(ProxyBackupModel),
    Kde,
    GenericUnix,
    Windows(WindowsBackupModel),
}

impl View for Snapshot {
    type V = SnapshotModel;

    open spec fn view(&self) -> SnapshotModel {
        match self {
            Snapshot::Gnome(b) => SnapshotModel::Gnome(b@),
            Snapshot::Kde => SnapshotModel::Kde,
            Snapshot::GenericUnix => SnapshotModel::GenericUnix,
            Snapshot::Windows(b) => SnapshotModel::Windows(b@),
        }
    }
}

} // verus!
