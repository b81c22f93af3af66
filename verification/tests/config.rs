use resrv::config::{load_cfg, CliConfig, Config, DEFAULT_DIR, DEFAULT_URL};

#[test]
fn default_values() {
    assert_eq!(DEFAULT_URL, "127.0.0.1:9812");
    assert_eq!(DEFAULT_DIR, ".");
}

#[test]
fn new_keeps_both_fields() {
    let cfg = Config::new("0.0.0.0:80".to_string(), "/srv/www".to_string());
    assert_eq!(cfg.url, "0.0.0.0:80");
    assert_eq!(cfg.dir, "/srv/www");
}

#[test]
fn default_config_listens_locally_and_serves_the_current_directory() {
    let cfg = Config::default();
    assert_eq!(cfg, Config::new("127.0.0.1:9812".to_string(), ".".to_string()));
}

#[test]
fn missing_address_falls_back_to_the_default() {
    let cfg = load_cfg(CliConfig { url: None, dir: "site".to_string() });
    assert_eq!(cfg.url, "127.0.0.1:9812");
    assert_eq!(cfg.dir, "site");
}

#[test]
fn given_address_is_kept() {
    let cfg = load_cfg(CliConfig { url: Some("localhost:3000".to_string()), dir: "site".to_string() });
    assert_eq!(cfg.url, "localhost:3000");
    assert_eq!(cfg.dir, "site");
}

#[test]
fn empty_address_is_kept() {
    let cfg = load_cfg(CliConfig { url: Some(String::new()), dir: String::new() });
    assert_eq!(cfg.url, "");
    assert_eq!(cfg.dir, "");
}

#[test]
fn conversion_agrees_with_load_cfg() {
    let cli = CliConfig { url: None, dir: "public".to_string() };
    assert_eq!(Config::from(cli.clone()), load_cfg(cli));
    let cli = CliConfig { url: Some("[::1]:8080".to_string()), dir: "public".to_string() };
    let cfg: Config = cli.clone().into();
    assert_eq!(cfg, load_cfg(cli));
}
