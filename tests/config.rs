use sundae::catalog::{Catalog, CatalogKind};
use sundae::status::Track;
use sundae::config::{Cfg, Config};
use sundae::remote::{download_url, next_album_offset, request_url, CLIENT_NAME};

#[test]
fn default_config_placeholders() {
    let c = Config::default();
    assert_eq!(c.server, "serverurl");
    assert_eq!(c.username, "USERNAME");
    assert_eq!(c.password, "PASSWORD");
}

#[test]
fn token_is_md5_of_password_and_salt() {
    let cfg = Cfg::new(Config::default(), "abcd".to_string());
    assert_eq!(cfg.salt, "abcd");
    assert_eq!(cfg.token, "5260ed2a497624e16df3853ee705d49a");
}

#[test]
fn request_url_joins_parts() {
    assert_eq!(request_url("http://h", "/rest/ping", "u=a"), "http://h/rest/ping?u=a");
    assert_eq!(request_url("", "", ""), "?");
}

#[test]
fn download_url_has_credentials_and_id() {
    let config = Config {
        server: "http://music.local".to_string(),
        username: "alice".to_string(),
        password: "pw".to_string(),
    };
    let cfg = Cfg::new(config, "abcd".to_string());
    let url = download_url(&cfg, "b4f27bed147b7c5c34dfe2d9f706a284");
    assert!(url.starts_with("http://music.local/rest/download?"));
    assert!(url.contains("u=alice"));
    assert!(url.contains(&format!("t={}", cfg.token)));
    assert!(url.contains("s=abcd"));
    assert!(url.contains(&format!("c={}", CLIENT_NAME)));
    assert!(url.contains("id=b4f27bed147b7c5c34dfe2d9f706a284"));
}

#[test]
fn album_paging() {
    assert_eq!(next_album_offset(0, 500), Some(500));
    assert_eq!(next_album_offset(500, 700), Some(1000));
    assert_eq!(next_album_offset(0, 499), None);
    assert_eq!(next_album_offset(u32::MAX - 100, 500), None);
}

#[test]
fn catalog_scans_only_empty_lists() {
    let mut c = Catalog::new();
    assert!(c.needs_scan(CatalogKind::Songs));
    assert!(c.needs_scan(CatalogKind::Albums));
    assert!(c.needs_scan(CatalogKind::Artists));
    c.albums.push(Track::new("a1".to_string(), "Album".to_string(), "None".to_string()));
    assert!(!c.needs_scan(CatalogKind::Albums));
    assert!(c.needs_scan(CatalogKind::Songs));
}
