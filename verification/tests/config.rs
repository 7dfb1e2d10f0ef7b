use std::path::PathBuf;
use tanakai::config::{
    get_api_url, get_icon_path, get_photon_port, init_config, is_quiet_mode, Config, ThemeColors,
};

#[test]
fn default_config() {
    let config = Config::default();
    assert_eq!(config.api_url, "http://api.noktech.com.br/tanakai");
    assert_eq!(config.github_repo, "https://github.com/Br3n0k/tanakai");
    assert_eq!(config.version, "0.1.0");
    assert_eq!(config.photon_port, 5056);
    assert_eq!(config.api_timeout_ms, 5000);
    assert_eq!(config.health_check_interval_ms, 60000);
    assert!(!config.quiet_mode);
    assert_eq!(config.icons_path, PathBuf::from("assets/icons"));
}

#[test]
fn default_theme_colors() {
    let colors = ThemeColors::default();
    assert_eq!(colors.primary, "#00ff00");
    assert_eq!(colors.secondary, "#ff00ff");
    assert_eq!(colors.background, "#000000");
    assert_eq!(colors.surface, "#1a1a1a");
    assert_eq!(colors.text, "#ffffff");
    assert_eq!(colors.accent, "#00ffff");
    assert_eq!(colors.error, "#ff0000");
    assert_eq!(colors.warning, "#ffff00");
    assert_eq!(colors.success, "#00ff00");
}

#[test]
fn init_config_sets_address_and_quiet() {
    let mut config = Config::default();
    init_config(&mut config, Some("http://localhost:8080".to_string()), true);
    assert_eq!(config.api_url, "http://localhost:8080");
    assert!(config.quiet_mode);
    assert!(is_quiet_mode(&config));
    assert_eq!(config.photon_port, 5056);
    assert_eq!(config.version, "0.1.0");
}

#[test]
fn init_config_keeps_the_address_where_none_is_given() {
    let mut config = Config::default();
    init_config(&mut config, Some("http://a".to_string()), true);
    init_config(&mut config, None, false);
    assert_eq!(config.api_url, "http://a");
    assert!(!is_quiet_mode(&config));
}

#[test]
fn api_url_joins_with_one_slash() {
    let mut config = Config::default();
    init_config(&mut config, Some("http://a/b".to_string()), false);
    assert_eq!(get_api_url(&config, "health"), "http://a/b/health");
    assert_eq!(get_api_url(&config, "/hwid/verify"), "http://a/b/hwid/verify");
    assert_eq!(get_api_url(&config, "///x/"), "http://a/b/x/");
    assert_eq!(get_api_url(&config, ""), "http://a/b/");
    assert_eq!(get_api_url(&config, "/"), "http://a/b/");
}

#[test]
fn photon_port_is_read_from_the_config() {
    let mut config = Config::default();
    assert_eq!(get_photon_port(&config), 5056);
    config.photon_port = 4535;
    assert_eq!(get_photon_port(&config), 4535);
}

#[test]
fn icon_path_is_below_the_icons() {
    let config = Config::default();
    assert_eq!(get_icon_path(&config, "tray.ico"), PathBuf::from("assets/icons").join("tray.ico"));
}

#[test]
fn a_cloned_config_is_the_same() {
    let mut config = Config::default();
    config.icons_path = PathBuf::from("elsewhere");
    let copy = config.clone();
    assert_eq!(copy.icons_path, PathBuf::from("elsewhere"));
    assert_eq!(copy.api_url, config.api_url);
    assert_eq!(get_icon_path(&copy, "a.ico"), PathBuf::from("elsewhere").join("a.ico"));
}

#[test]
fn a_market_item_starts_without_name_and_prices() {
    let before = tanakai::utils::clock::now_millis();
    let item = tanakai::models::market::MarketItem::new("T4_BAG".to_string(), 3, 1, "Lymhurst".to_string());
    assert_eq!(item.item_id, "T4_BAG");
    assert_eq!(item.name, None);
    assert_eq!(item.quality, 3);
    assert_eq!(item.enchantment, 1);
    assert_eq!(item.sell_price, None);
    assert_eq!(item.buy_price, None);
    assert_eq!(item.location, "Lymhurst");
    assert!(item.timestamp >= before);
    let item = tanakai::models::market::MarketItem::seen_at(
        "T4_BAG".to_string(),
        3,
        1,
        "Lymhurst".to_string(),
        42,
    );
    assert_eq!(item.timestamp, 42);
    assert_eq!(item.item_id, "T4_BAG");
}
