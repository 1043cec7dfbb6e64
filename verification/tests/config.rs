use hedwig::config::defaults;
use hedwig::config::{default_cron, AppConfig, DEFAULT_CONFIG_TEMPLATE};

fn config(username: &str, password: &str) -> AppConfig {
    AppConfig {
        username: username.to_string(),
        password: password.to_string(),
        proxy_addr: None,
        cron_expr: default_cron(),
    }
}

#[test]
fn test_create_default_template() {
    let table: toml::Table = toml::from_str(DEFAULT_CONFIG_TEMPLATE)
        .expect("DEFAULT_CONFIG_TEMPLATE contains invalid TOML or mismatched fields");
    let username = table.get("username").and_then(|v| v.as_str()).map(|s| s.to_string());
    let password = table.get("password").and_then(|v| v.as_str()).map(|s| s.to_string());
    let cron_expr = table.get("cron_expr").and_then(|v| v.as_str()).map(|s| s.to_string());
    let proxy_addr = table.get("proxy_addr").and_then(|v| v.as_str()).map(|s| s.to_string());

    assert_eq!(username.as_deref(), Some(defaults::USERNAME));
    assert_eq!(password.as_deref(), Some(defaults::PASSWORD));
    assert_eq!(cron_expr.as_deref(), Some(defaults::DEFAULT_CRON));
    assert_eq!(proxy_addr, None);
}

#[test]
fn template_config_is_not_valid() {
    let table: toml::Table = toml::from_str(DEFAULT_CONFIG_TEMPLATE).unwrap();
    let cfg = config(
        table["username"].as_str().unwrap(),
        table["password"].as_str().unwrap(),
    );
    assert!(!cfg.is_valid());
}

#[test]
fn default_config_holds_placeholders() {
    let cfg = AppConfig::default();
    assert_eq!(cfg.username, defaults::USERNAME);
    assert_eq!(cfg.password, defaults::PASSWORD);
    assert_eq!(cfg.cron_expr, defaults::DEFAULT_CRON);
    assert_eq!(cfg.proxy_addr, None);
    assert!(!cfg.is_valid());
}

#[test]
fn default_cron_is_working_hours() {
    assert_eq!(default_cron(), "0 0 8-18 * * *");
}

#[test]
fn real_credentials_are_valid() {
    assert!(config("someone@gmail.com", "abcd efgh ijkl mnop").is_valid());
}

#[test]
fn placeholder_username_is_not_valid() {
    assert!(!config("YOUR_GMAIL@gmail.com", "abcd efgh ijkl mnop").is_valid());
}

#[test]
fn placeholder_password_is_not_valid() {
    assert!(!config("someone@gmail.com", "YOUR_APP_PASSWORD").is_valid());
}

#[test]
fn empty_credentials_are_not_valid() {
    assert!(!config("", "abcd efgh ijkl mnop").is_valid());
    assert!(!config("someone@gmail.com", "").is_valid());
}
