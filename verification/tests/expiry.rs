use auth_bridge::store::{BaiduTokenData, QwenTokenData, TokenStore};

fn baidu_token(expires_in: i64) -> BaiduTokenData {
    BaiduTokenData {
        access_token: "access".to_string(),
        refresh_token: "refresh".to_string(),
        expires_in,
        scope: "basic,netdisk".to_string(),
        client_id: None,
        client_secret: None,
        redirect_uri: None,
        stored_at: None,
    }
}

#[test]
fn test_token_expiration() {
    let stored_at = 1000000;
    let expires_in = 2592000; // 30 days
    let current_time = 1000000 + 2592000 + 1; // Just expired

    let mut store = TokenStore::new();
    store.save_baidu_token(baidu_token(expires_in), stored_at);
    let is_expired = store.is_baidu_token_expired(current_time);

    assert!(is_expired);
}

#[test]
fn test_token_not_expired() {
    let stored_at = 1000000;
    let expires_in = 2592000; // 30 days
    let current_time = 1000000 + 1000; // 1000 seconds later

    let mut store = TokenStore::new();
    store.save_baidu_token(baidu_token(expires_in), stored_at);
    let is_expired = store.is_baidu_token_expired(current_time);

    assert!(!is_expired);
}

#[test]
fn test_baidu_expiry_buffer_boundary() {
    // saved at t0 with a 30-day lifetime: expired exactly when the elapsed
    // time reaches the lifetime less the 300-second buffer
    let t0 = 1000000;
    let mut store = TokenStore::new();
    store.save_baidu_token(baidu_token(2592000), t0);

    assert!(store.is_baidu_token_expired(t0 + 2591701));
    assert!(store.is_baidu_token_expired(t0 + 2591700));
    assert!(!store.is_baidu_token_expired(t0 + 2591699));
}

#[test]
fn test_absent_records_count_as_expired() {
    let store = TokenStore::new();
    assert!(store.is_baidu_token_expired(0));
    assert!(store.is_qwen_token_expired(0));
}

#[test]
fn test_qwen_without_lifetime_never_expires() {
    let t0 = 1000000;
    let mut store = TokenStore::new();
    store.save_qwen_token(
        QwenTokenData {
            access_token: "access".to_string(),
            refresh_token: None,
            expires_in: None,
            api_key: Some("key".to_string()),
            stored_at: None,
        },
        t0,
    );

    assert!(!store.is_qwen_token_expired(t0));
    assert!(!store.is_qwen_token_expired(t0 + 2592000));
    assert!(!store.is_qwen_token_expired(t0 + 1_000_000_000_000));
}

#[test]
fn test_qwen_with_lifetime_expires() {
    let t0 = 1000000;
    let mut store = TokenStore::new();
    store.save_qwen_token(
        QwenTokenData {
            access_token: "access".to_string(),
            refresh_token: Some("refresh".to_string()),
            expires_in: Some(3600),
            api_key: None,
            stored_at: None,
        },
        t0,
    );

    assert!(!store.is_qwen_token_expired(t0 + 3299));
    assert!(store.is_qwen_token_expired(t0 + 3300));
    assert!(store.is_qwen_token_expired(t0 + 7200));
}

#[test]
fn test_unstamped_records_count_as_expired() {
    // a record that was never stamped by a save counts as expired for
    // either provider, whatever its lifetime says
    let store = TokenStore {
        baidu: Some(baidu_token(2592000)),
        qwen: Some(QwenTokenData {
            access_token: "q".to_string(),
            refresh_token: None,
            expires_in: Some(2592000),
            api_key: None,
            stored_at: None,
        }),
        settings: None,
    };
    assert!(store.is_baidu_token_expired(0));
    assert!(store.is_qwen_token_expired(0));
}

#[test]
fn test_expiry_monotonic_samples() {
    // once expired, a record stays expired at every later query time
    let t0 = 500;
    let mut store = TokenStore::new();
    store.save_baidu_token(baidu_token(1000), t0);

    let mut seen_expired = false;
    for offset in [0, 400, 699, 700, 701, 5000, 1_000_000] {
        let expired = store.is_baidu_token_expired(t0 + offset);
        if seen_expired {
            assert!(expired);
        }
        if expired {
            seen_expired = true;
        }
    }
    assert!(seen_expired);
}
