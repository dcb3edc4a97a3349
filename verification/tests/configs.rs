use kget::config::{
    default_torrent_max_peer_connections, default_torrent_max_upload_slots, proxy_type_of_str,
    Config, ProxyType,
};
use kget::gui_types::DownloadCommand;
use kget::optimization::Optimizer;
use kget::sftp::SftpDownloader;
use kget::torrent::transmission::{poll_decision, PollAction};
use kget::torrent::{is_magnet_link, selected_backend, TorrentBackend};
use kget::torrent_downloader::TorrentDownloader;
use kget::DownloadOptions;

#[test]
fn config_defaults() {
    let c = Config::default();
    assert!(!c.proxy.enabled);
    assert!(matches!(c.proxy.proxy_type, ProxyType::Http));
    assert!(c.optimization.compression);
    assert_eq!(c.optimization.compression_level, 6);
    assert_eq!(c.optimization.cache_dir, "~/.cache/kget");
    assert_eq!(c.optimization.max_connections, 4);
    assert!(!c.torrent.enabled);
    assert_eq!(c.torrent.max_peers, 50);
    assert_eq!(c.torrent.max_seeds, 25);
    assert!(c.torrent.dht_enabled);
    assert_eq!(c.torrent.max_peer_connections, 50);
    assert_eq!(c.torrent.max_upload_slots, 4);
    assert!(c.ftp.passive_mode);
    assert_eq!(c.ftp.default_port, 21);
    assert_eq!(c.sftp.default_port, 22);
    assert_eq!(default_torrent_max_peer_connections(), 50);
    assert_eq!(default_torrent_max_upload_slots(), 4);
}

#[test]
fn download_options_default() {
    let o = DownloadOptions::default();
    assert!(!o.quiet_mode);
    assert!(o.output_path.is_none());
    assert!(!o.verify_iso);
}

#[test]
fn proxy_type_parsing() {
    assert!(matches!(proxy_type_of_str("https"), ProxyType::Https));
    assert!(matches!(proxy_type_of_str("HTTPS"), ProxyType::Https));
    assert!(matches!(proxy_type_of_str("socks5"), ProxyType::Socks5));
    assert!(matches!(proxy_type_of_str("http"), ProxyType::Http));
    assert!(matches!(proxy_type_of_str("anything"), ProxyType::Http));
}

#[test]
fn proxy_plan_needs_enable_and_url() {
    let mut p = Config::default().proxy;
    assert!(p.plan().is_none());
    p.enabled = true;
    assert!(p.plan().is_none());
    p.url = Some("http://proxy:8080".to_string());
    let plan = p.plan().unwrap();
    assert_eq!(plan.url, "http://proxy:8080");
    assert!(plan.auth.is_none());
    p.username = Some("u".to_string());
    assert!(p.plan().unwrap().auth.is_none());
    p.password = Some("p".to_string());
    assert_eq!(
        p.plan().unwrap().auth,
        Some(("u".to_string(), "p".to_string()))
    );
}

#[test]
fn optimizer_accessors() {
    let mut cfg = Config::default().optimization;
    cfg.speed_limit = Some(77);
    let opt = Optimizer::new(cfg.clone());
    assert_eq!(opt.get_peer_limit(), 77);
    assert!(opt.is_compression_enabled());
    cfg.speed_limit = None;
    cfg.compression = false;
    let opt2 = Optimizer::new(cfg);
    assert_eq!(opt2.get_peer_limit(), 50);
    assert!(!opt2.is_compression_enabled());
}

#[test]
fn magnet_recognition_and_backend() {
    assert!(is_magnet_link("magnet:?xt=urn:btih:abc"));
    assert!(!is_magnet_link("http://example.com/file.torrent"));
    assert!(matches!(selected_backend(None), TorrentBackend::External));
    assert!(matches!(
        selected_backend(Some("transmission")),
        TorrentBackend::Transmission
    ));
    assert!(matches!(
        selected_backend(Some("TRANSMISSION")),
        TorrentBackend::Transmission
    ));
    assert!(matches!(
        selected_backend(Some("external")),
        TorrentBackend::External
    ));
}

#[test]
fn torrent_downloader_validates_the_url() {
    let c = Config::default();
    let good = TorrentDownloader::new(
        "magnet:?xt=urn:btih:abc".to_string(),
        "out".to_string(),
        true,
        c.proxy.clone(),
        Optimizer::new(c.optimization.clone()),
        c.torrent.clone(),
    );
    assert!(good.validate_url().is_ok());
    let bad = TorrentDownloader::new(
        "http://x".to_string(),
        "out".to_string(),
        true,
        c.proxy.clone(),
        Optimizer::new(c.optimization.clone()),
        c.torrent.clone(),
    );
    assert_eq!(
        bad.validate_url(),
        Err("URL is not a valid magnet link".to_string())
    );
}

#[test]
fn poll_decisions() {
    assert_eq!(poll_decision(1800, true, 0, 0, false), PollAction::FailTimeout);
    assert_eq!(poll_decision(10, false, 0, 0, false), PollAction::FailNotFound);
    assert_eq!(poll_decision(10, true, 500, 3, false), PollAction::FailError);
    assert_eq!(poll_decision(10, true, 1000, 0, false), PollAction::Done);
    assert_eq!(poll_decision(10, true, 500, 0, true), PollAction::FailStopped);
    assert_eq!(poll_decision(3, true, 500, 0, true), PollAction::Continue);
    assert_eq!(poll_decision(10, true, 500, 0, false), PollAction::Continue);
}

#[test]
fn sftp_request_holds_its_data() {
    let c = Config::default();
    let d = SftpDownloader::new(
        "sftp://host/file".to_string(),
        "out".to_string(),
        false,
        c.proxy.clone(),
        Optimizer::new(c.optimization.clone()),
    );
    assert_eq!(d.url, "sftp://host/file");
    assert_eq!(d.output, "out");
    assert!(!d.quiet);
    let alt = kget::ftp::sftp::SftpDownloader::new(
        "sftp://host/file".to_string(),
        "out".to_string(),
        true,
        c.proxy.clone(),
        Optimizer::new(c.optimization.clone()),
    );
    assert!(alt.download().is_ok());
}

#[test]
fn download_commands_carry_their_payload() {
    let start = DownloadCommand::Start("http://x/f".to_string(), "f".to_string());
    match start {
        DownloadCommand::Start(url, out) => {
            assert_eq!(url, "http://x/f");
            assert_eq!(out, "f");
        }
        DownloadCommand::Cancel => panic!("expected a start command"),
    }
    assert!(matches!(DownloadCommand::Cancel, DownloadCommand::Cancel));
}
