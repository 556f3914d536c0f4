use socks_manager::backup::{ProxyBackup, Snapshot, WindowsProxyBackup};
use socks_manager::detect::{classify_desktop, detect, EnvironmentKind};
use socks_manager::manager::{apply, revert, ManagerState, SocksManager};
use socks_manager::store::{
    ConfigStore, GnomeProxySettings, GnomeSocksSettings, InternetSettings, KdeSettings, KdeWrite,
    Notice, ProxyError, SystemConfig,
};
use socks_manager::text::{endpoint_text, prefixed_endpoint_text};
use socks_manager::windows::{restore_proxy, set_socks5_proxy};

fn host_config(is_windows: bool, desktop: Option<&str>) -> SystemConfig {
    SystemConfig {
        is_windows,
        desktop_session: desktop.map(|d| d.to_string()),
        gnome_proxy: GnomeProxySettings {
            mode: "none".to_string(),
            ignore_hosts: vec!["localhost".to_string(), "127.0.0.0/8".to_string()],
            writable: true,
        },
        gnome_socks: GnomeSocksSettings { host: "".to_string(), port: 0, writable: true },
        kde: KdeSettings {
            writer_available: true,
            proxy_type: 0,
            socks_proxy: "".to_string(),
            writes: vec![],
        },
        all_proxy: None,
        internet: InternetSettings {
            writable: true,
            proxy_enable: Some(0),
            proxy_server: Some("http=proxy:3128".to_string()),
            proxy_override: Some("*.corp".to_string()),
        },
        notices: vec![],
    }
}

#[test]
fn detect_by_desktop_session() {
    assert_eq!(detect(false, &Some("ubuntu:GNOME".to_string())), EnvironmentKind::Gnome);
    assert_eq!(detect(false, &Some("KDE".to_string())), EnvironmentKind::Kde);
    assert_eq!(detect(false, &Some("XFCE".to_string())), EnvironmentKind::GenericUnix);
    assert_eq!(detect(false, &Some("".to_string())), EnvironmentKind::GenericUnix);
    assert_eq!(detect(false, &None), EnvironmentKind::GenericUnix);
    assert_eq!(detect(true, &Some("KDE".to_string())), EnvironmentKind::Windows);
}

#[test]
fn classify_lowered_names() {
    assert_eq!(classify_desktop("gnome-classic"), EnvironmentKind::Gnome);
    assert_eq!(classify_desktop("plasma:kde"), EnvironmentKind::Kde);
    assert_eq!(classify_desktop("GNOME"), EnvironmentKind::GenericUnix);
    assert_eq!(classify_desktop(""), EnvironmentKind::GenericUnix);
}

#[test]
fn endpoint_texts() {
    assert_eq!(endpoint_text("127.0.0.1", 1080), "127.0.0.1:1080");
    assert_eq!(endpoint_text("h", 0), "h:0");
    assert_eq!(prefixed_endpoint_text("socks5://", "h", 65535), "socks5://h:65535");
}

#[test]
fn gnome_snapshot_and_restore() {
    let mut sys = host_config(false, Some("GNOME"));
    sys.gnome_proxy.mode = "auto".to_string();
    sys.gnome_proxy.ignore_hosts = vec!["x".to_string()];
    let mut m = SocksManager::new();
    assert_eq!(m.connect(&mut sys, "127.0.0.1", 1080), Ok(()));
    let expected = ProxyBackup {
        mode: "auto".to_string(),
        host: "".to_string(),
        port: 0,
        ignore_hosts: vec!["x".to_string()],
    };
    assert_eq!(m.state, ManagerState::Active(Snapshot::Gnome(expected)));
    assert_eq!(sys.gnome_proxy.mode, "manual");
    assert_eq!(sys.gnome_socks.host, "127.0.0.1");
    assert_eq!(sys.gnome_socks.port, 1080);
    assert_eq!(m.disconnect(&mut sys), Ok(()));
    assert_eq!(m.state, ManagerState::Idle);
    assert_eq!(sys.gnome_proxy.mode, "auto");
    assert_eq!(sys.gnome_socks.host, "");
    assert_eq!(sys.gnome_socks.port, 0);
    assert_eq!(sys.gnome_proxy.ignore_hosts, vec!["x".to_string()]);
}

#[test]
fn round_trip_each_driver() {
    for (is_windows, desktop) in [
        (false, Some("GNOME")),
        (false, Some("KDE")),
        (false, None),
        (true, None),
    ] {
        let before = host_config(is_windows, desktop);
        let mut sys = before.clone();
        let mut m = SocksManager::new();
        assert_eq!(m.connect(&mut sys, "127.0.0.1", 1080), Ok(()));
        assert!(m.is_active());
        assert_eq!(m.disconnect(&mut sys), Ok(()));
        assert!(!m.is_active());
        assert_eq!(sys.gnome_proxy, before.gnome_proxy);
        assert_eq!(sys.gnome_socks, before.gnome_socks);
        assert_eq!(sys.kde.proxy_type, before.kde.proxy_type);
        assert_eq!(sys.all_proxy, before.all_proxy);
        assert_eq!(sys.internet, before.internet);
    }
}

#[test]
fn disable_while_idle_is_noop() {
    let before = host_config(false, Some("GNOME"));
    let mut sys = before.clone();
    let mut m = SocksManager::new();
    assert_eq!(m.disconnect(&mut sys), Ok(()));
    assert_eq!(m.state, ManagerState::Idle);
    assert_eq!(sys, before);
}

#[test]
fn enable_while_active_rejected() {
    let mut sys = host_config(false, Some("GNOME"));
    let mut m = SocksManager::new();
    assert_eq!(m.connect(&mut sys, "127.0.0.1", 1080), Ok(()));
    let active = m.clone();
    let store = sys.clone();
    assert_eq!(m.connect(&mut sys, "10.0.0.1", 9050), Err(ProxyError::AlreadyActive));
    assert_eq!(m, active);
    assert_eq!(sys, store);
}

#[test]
fn kde_writer_invocations() {
    let mut sys = host_config(false, Some("KDE"));
    let mut m = SocksManager::new();
    assert_eq!(m.connect(&mut sys, "127.0.0.1", 1080), Ok(()));
    assert_eq!(sys.kde.proxy_type, 1);
    assert_eq!(sys.kde.socks_proxy, "127.0.0.1:1080");
    assert_eq!(m.disconnect(&mut sys), Ok(()));
    assert_eq!(
        sys.kde.writes,
        vec![
            KdeWrite::ProxyType(1),
            KdeWrite::SocksProxy("127.0.0.1:1080".to_string()),
            KdeWrite::ProxyType(0),
        ]
    );
    assert_eq!(sys.notices, vec![Notice::KdeReparse, Notice::KdeReparse]);
    assert_eq!(sys.kde.proxy_type, 0);
}

#[test]
fn kde_writer_missing() {
    let mut sys = host_config(false, Some("KDE"));
    sys.kde.writer_available = false;
    let before = sys.clone();
    let mut m = SocksManager::new();
    assert_eq!(
        m.connect(&mut sys, "127.0.0.1", 1080),
        Err(ProxyError::ConfigAccessError(ConfigStore::KdeConfig))
    );
    assert!(!m.is_active());
    assert_eq!(sys, before);
}

#[test]
fn windows_failed_write_keeps_snapshot() {
    let mut sys = host_config(true, None);
    sys.internet.writable = false;
    let before = sys.clone();
    let (backup, r) = set_socks5_proxy(&mut sys, "127.0.0.1", 1080);
    assert_eq!(r, Err(ProxyError::ConfigAccessError(ConfigStore::InternetSettings)));
    assert_eq!(
        backup,
        WindowsProxyBackup {
            enabled: 0,
            server: "http=proxy:3128".to_string(),
            override_list: "*.corp".to_string(),
        }
    );
    assert_eq!(sys, before);
}

#[test]
fn windows_apply_and_restore() {
    let mut sys = host_config(true, None);
    sys.internet = InternetSettings {
        writable: true,
        proxy_enable: None,
        proxy_server: None,
        proxy_override: None,
    };
    let (backup, r) = set_socks5_proxy(&mut sys, "127.0.0.1", 1080);
    assert_eq!(r, Ok(()));
    assert_eq!(
        backup,
        WindowsProxyBackup { enabled: 0, server: "".to_string(), override_list: "".to_string() }
    );
    assert_eq!(sys.internet.proxy_enable, Some(1));
    assert_eq!(sys.internet.proxy_server, Some("socks=127.0.0.1:1080".to_string()));
    assert_eq!(sys.internet.proxy_override, Some("localhost;127.0.0.1;<local>".to_string()));
    assert_eq!(sys.notices, vec![Notice::SettingsChanged, Notice::Refresh]);
    assert_eq!(restore_proxy(&mut sys, &backup), Ok(()));
    assert_eq!(sys.internet.proxy_enable, Some(0));
    assert_eq!(sys.internet.proxy_server, Some("".to_string()));
    assert_eq!(sys.internet.proxy_override, Some("".to_string()));
    assert_eq!(sys.notices.len(), 4);
}

#[test]
fn env_sets_and_removes_variable() {
    let mut sys = host_config(false, Some("sway"));
    let mut m = SocksManager::new();
    assert_eq!(m.connect(&mut sys, "h", 9050), Ok(()));
    assert_eq!(sys.all_proxy, Some("socks5://h:9050".to_string()));
    assert_eq!(m.disconnect(&mut sys), Ok(()));
    assert_eq!(sys.all_proxy, None);
}

#[test]
fn gnome_revert_partial_failure() {
    let mut sys = host_config(false, Some("GNOME"));
    let mut m = SocksManager::new();
    assert_eq!(m.connect(&mut sys, "127.0.0.1", 1080), Ok(()));
    sys.gnome_socks.writable = false;
    assert_eq!(
        m.disconnect(&mut sys),
        Err(ProxyError::RevertPartialFailure(ConfigStore::GnomeSocks))
    );
    assert!(!m.is_active());
    assert_eq!(sys.gnome_proxy.mode, "none");
    assert_eq!(sys.gnome_socks.host, "127.0.0.1");
}

#[test]
fn gnome_apply_denied() {
    let mut sys = host_config(false, Some("GNOME"));
    sys.gnome_proxy.writable = false;
    let before = sys.clone();
    let mut m = SocksManager::new();
    assert_eq!(
        m.connect(&mut sys, "127.0.0.1", 1080),
        Err(ProxyError::ConfigAccessError(ConfigStore::GnomeProxy))
    );
    assert!(!m.is_active());
    assert_eq!(sys, before);
}

#[test]
fn gnome_socks_denied_on_apply() {
    let mut sys = host_config(false, Some("GNOME"));
    sys.gnome_socks.writable = false;
    let (snap, r) = apply(EnvironmentKind::Gnome, &mut sys, "127.0.0.1", 1080);
    assert_eq!(r, Err(ProxyError::ConfigAccessError(ConfigStore::GnomeSocks)));
    assert_eq!(sys.gnome_proxy.mode, "manual");
    assert_eq!(revert(&mut sys, &snap), Err(ProxyError::RevertPartialFailure(ConfigStore::GnomeSocks)));
    assert_eq!(sys.gnome_proxy.mode, "none");
}

#[test]
fn detect_desktop_env_reads_session() {
    let sys = host_config(false, Some("KDE"));
    assert_eq!(SocksManager::detect_desktop_env(&sys), Some("KDE".to_string()));
    assert_eq!(SocksManager::detect_desktop_env(&host_config(false, None)), None);
}
