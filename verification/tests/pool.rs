use hedwig::config::AppConfig;
use hedwig::gmail::client::{ClientError, GmailClient};
use hedwig::pool::ClientPool;

fn config(proxy: Option<&str>) -> AppConfig {
    AppConfig {
        username: "someone@gmail.com".to_string(),
        password: "secret".to_string(),
        proxy_addr: proxy.map(|p| p.to_string()),
        cron_expr: "0 * * * * *".to_string(),
    }
}

#[test]
fn client_without_proxy() {
    let client = GmailClient::new(None).unwrap();
    assert_eq!(client.proxy_addr(), &None);
}

#[test]
fn empty_proxy_means_no_proxy() {
    let client = GmailClient::new(Some(String::new())).unwrap();
    assert_eq!(client.proxy_addr(), &None);
}

#[test]
fn client_with_proxy() {
    let client = GmailClient::new(Some("http://127.0.0.1:7890".to_string())).unwrap();
    assert_eq!(client.proxy_addr().as_deref(), Some("http://127.0.0.1:7890"));
}

#[test]
fn invalid_proxy_is_refused() {
    let r = GmailClient::new(Some("http://[::1".to_string()));
    assert!(matches!(r, Err(ClientError::InvalidProxy(_))));
}

#[test]
fn pool_follows_proxy_changes() {
    let mut pool = ClientPool::new();
    let a = pool.get(&config(None)).unwrap();
    assert_eq!(a.proxy_addr(), &None);
    let b = pool.get(&config(None)).unwrap();
    assert_eq!(b.proxy_addr(), &None);
    let c = pool.get(&config(Some("http://127.0.0.1:7890"))).unwrap();
    assert_eq!(c.proxy_addr().as_deref(), Some("http://127.0.0.1:7890"));
    let d = pool.get(&config(Some("http://127.0.0.1:7890"))).unwrap();
    assert_eq!(d.proxy_addr().as_deref(), Some("http://127.0.0.1:7890"));
    let e = pool.get(&config(Some(""))).unwrap();
    assert_eq!(e.proxy_addr(), &None);
}

#[test]
fn failed_get_keeps_previous_client() {
    let mut pool = ClientPool::new();
    pool.get(&config(Some("http://127.0.0.1:7890"))).unwrap();
    let r = pool.get(&config(Some("http://[::1")));
    assert!(matches!(r, Err(ClientError::InvalidProxy(_))));
    let again = pool.get(&config(Some("http://127.0.0.1:7890"))).unwrap();
    assert_eq!(again.proxy_addr().as_deref(), Some("http://127.0.0.1:7890"));
}
