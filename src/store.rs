//! In-memory configuration stores of the host: the GNOME settings schemas, the
//! KDE proxy configuration, the process environment and the Windows Internet
//! Settings registry key, together with the notifications sent to the desktop.
use vstd::prelude::*;

verus! {

/// One configuration store, named in errors.
#[derive(Clone, Copy, Debug, PartialEq, Eq, Structural)]
pub enum ConfigStore {
    GnomeProxy,
    GnomeSocks,
    KdeConfig,
    InternetSettings,
}

/// Failures of the proxy manager.
#[derive(Clone, Copy, Debug, PartialEq, Eq, Structural)]
pub enum ProxyError {
    /// The store could not be written (unreachable or not permitted).
    ConfigAccessError(ConfigStore),
    /// `enable` was called while a redirect is already active.
    AlreadyActive,
    /// A revert restored some values, then a write to this store failed.
    RevertPartialFailure(ConfigStore),
}

/// A best-effort reload notification sent after a write.
#[derive(Clone, Copy, Debug, PartialEq, Eq, Structural)]
pub enum Notice {
    /// `reparseConfiguration` of the KDE proxy-scout service.
    KdeReparse,
    /// The OS's "Internet settings changed" notification.
    SettingsChanged,
    /// The OS's "refresh Internet settings" notification.
    Refresh,
}

/// One invocation of the KDE config writer on the proxy group.
#[derive(Clone, Debug, PartialEq, Eq)]
pub enum KdeWrite {
    /// `ProxyType` set to the value (1 manual, 0 disabled).
    ProxyType(u32),
    /// `socksProxy` set to the `host:port` text.
    SocksProxy(String),
}

/// Model of a `KdeWrite`.
pub enum KdeWriteModel {
    ProxyType(u32),
    SocksProxy(Seq<char>),
}

impl View for KdeWrite {
    type V = KdeWriteModel;

    open spec fn view(&self) -> KdeWriteModel {
        match self {
            KdeWrite::ProxyType(v) => KdeWriteModel::ProxyType(*v),
            KdeWrite::SocksProxy(s) => KdeWriteModel::SocksProxy(s@),
        }
    }
}

/// The `system.proxy` schema: mode and bypass list.
#[derive(Clone, Debug, PartialEq, Eq)]
pub struct GnomeProxySettings {
    pub mode: String,
    pub ignore_hosts: Vec<String>,
    pub writable: bool,
}

/// The `system.proxy.socks` schema: SOCKS host and port.
#[derive(Clone, Debug, PartialEq, Eq)]
pub struct GnomeSocksSettings {
    pub host: String,
    pub port: i32,
    pub writable: bool,
}

/// The KDE proxy group and the invocations of its config writer.
#[derive(Clone, Debug, PartialEq, Eq)]
pub struct KdeSettings {
    pub writer_available: bool,
    pub proxy_type: u32,
    pub socks_proxy: String,
    pub writes: Vec<KdeWrite>,
}

/// The per-user Internet Settings key; `None` is a missing or malformed value.
#[derive(Clone, Debug, PartialEq, Eq)]
pub struct InternetSettings {
    pub writable: bool,
    pub proxy_enable: Option<u32>,
    pub proxy_server: Option<String>,
    pub proxy_override: Option<String>,
}

/// Everything the proxy manager reads or writes on a host.
#[derive(Clone, Debug, PartialEq, Eq)]
pub struct SystemConfig {
    pub is_windows: bool,
    /// The desktop session name (`XDG_CURRENT_DESKTOP`), if set.
    pub desktop_session: Option<String>,
    pub gnome_proxy: GnomeProxySettings,
    pub gnome_socks: GnomeSocksSettings,
    pub kde: KdeSettings,
    /// The process-wide `ALL_PROXY` variable.
    pub all_proxy: Option<String>,
    pub internet: InternetSettings,
    /// Reload notifications sent, oldest first.
    pub notices: Vec<Notice>,
}

/// Flat mathematical model of a `SystemConfig`.
pub struct SystemModel {
    pub is_windows: bool,
    pub desktop_session: Option<Seq<char>>,
    pub mode: Seq<char>,
    pub ignore_hosts: Seq<Seq<char>>,
    pub proxy_writable: bool,
    pub socks_host: Seq<char>,
    pub socks_port: int,
    pub socks_writable: bool,
    pub kde_available: bool,
    pub kde_proxy_type: u32,
    pub kde_socks_proxy: Seq<char>,
    pub kde_writes: Seq<KdeWriteModel>,
    pub all_proxy: Option<Seq<char>>,
    pub registry_writable: bool,
    pub proxy_enable: Option<u32>,
    pub proxy_server: Option<Seq<char>>,
    pub proxy_override: Option<Seq<char>>,
    pub notices: Seq<Notice>,
}

/// The texts of a sequence of strings.
pub open spec fn texts(v: Seq<String>) -> Seq<Seq<char>> {
    v.map_values(|s: String| s@)
}

/// The text of an optional string.
pub open spec fn opt_text(o: Option<String>) -> Option<Seq<char>> {
    match o {
        Some(s) => Some(s@),
        None => None,
    }
}

impl View for SystemConfig {
    type V = SystemModel;

    open spec fn view(&self) -> SystemModel {
        SystemModel {
            is_windows: self.is_windows,
            desktop_session: opt_text(self.desktop_session),
            mode: self.gnome_proxy.mode@,
            ignore_hosts: texts(self.gnome_proxy.ignore_hosts@),
            proxy_writable: self.gnome_proxy.writable,
            socks_host: self.gnome_socks.host@,
            socks_port: self.gnome_socks.port as int,
            socks_writable: self.gnome_socks.writable,
            kde_available: self.kde.writer_available,
            kde_proxy_type: self.kde.proxy_type,
            kde_socks_proxy: self.kde.socks_proxy@,
            kde_writes: self.kde.writes@.map_values(|w: KdeWrite| w@),
            all_proxy: opt_text(self.all_proxy),
            registry_writable: self.internet.writable,
            proxy_enable: self.internet.proxy_enable,
            proxy_server: opt_text(self.internet.proxy_server),
            proxy_override: opt_text(self.internet.proxy_override),
            notices: self.notices@,
        }
    }
}

/// A copy of a list of strings.
pub fn copy_texts(v: &Vec<String>) -> (r: Vec<String>)
    ensures
        r@ == v@,
{
    let mut r: Vec<String> = Vec::new();
    let mut i: usize = 0;
    while i < v.len()
        invariant
            i <= v.len(),
            r@ == v@.subrange(0, i as int),
        decreases v.len() - i,
    {
        r.push(v[i].clone());
        i = i + 1;
    }
    assert(r@ =~= v@);
    r
}

impl SystemConfig {
    /// Records a KDE config-writer invocation.
    pub fn log_kde_write(&mut self, w: KdeWrite)
        ensures
            final(self)@ == (SystemModel { kde_writes: old(self)@.kde_writes.push(w@), ..old(self)@ }),
    {
        let ghost before = self.kde.writes@;
        self.kde.writes.push(w);
        assert(self.kde.writes@.map_values(|w: KdeWrite| w@) =~= before.map_values(
            |w: KdeWrite| w@,
        ).push(w@));
    }

    /// Records a reload notification.
    pub fn notify(&mut self, n: Notice)
        ensures
            final(self)@ == (SystemModel { notices: old(self)@.notices.push(n), ..old(self)@ }),
    {
        self.notices.push(n);
    }
}

} // verus!
