use auth_bridge::store::{BaiduTokenData, QwenTokenData, TokenStore, UserSettings};

#[test]
fn test_baidu_save_get_round_trip() {
    let token = BaiduTokenData {
        access_token: "access-token".to_string(),
        refresh_token: "refresh-token".to_string(),
        expires_in: 2592000,
        scope: "basic,netdisk".to_string(),
        client_id: Some("client-id".to_string()),
        client_secret: Some("SECRET-REDACTED".to_string()),
        redirect_uri: Some("https://alistgo.com/tool/baidu/callback".to_string()),
        stored_at: Some(7), // overwritten by the save
    };
    let mut store = TokenStore::new();
    store.save_baidu_token(token, 1234567);

    let got = store.get_baidu_token().expect("record should be present");
    assert_eq!(got.access_token, "access-token");
    assert_eq!(got.refresh_token, "refresh-token");
    assert_eq!(got.expires_in, 2592000);
    assert_eq!(got.scope, "basic,netdisk");
    assert_eq!(got.client_id.as_deref(), Some("client-id"));
    assert_eq!(got.client_secret.as_deref(), Some("SECRET-REDACTED"));
    assert_eq!(
        got.redirect_uri.as_deref(),
        Some("https://alistgo.com/tool/baidu/callback")
    );
    assert_eq!(got.stored_at, Some(1234567));
}

#[test]
fn test_qwen_save_get_round_trip() {
    let token = QwenTokenData {
        access_token: "qwen-access".to_string(),
        refresh_token: Some("qwen-refresh".to_string()),
        expires_in: Some(3600),
        api_key: None,
        stored_at: None,
    };
    let mut store = TokenStore::new();
    store.save_qwen_token(token, 42);

    let got = store.get_qwen_token().expect("record should be present");
    assert_eq!(got.access_token, "qwen-access");
    assert_eq!(got.refresh_token.as_deref(), Some("qwen-refresh"));
    assert_eq!(got.expires_in, Some(3600));
    assert_eq!(got.api_key, None);
    assert_eq!(got.stored_at, Some(42));
}

#[test]
fn test_save_overwrites_stamp() {
    let token = QwenTokenData {
        access_token: "first".to_string(),
        refresh_token: None,
        expires_in: Some(60),
        api_key: None,
        stored_at: None,
    };
    let mut store = TokenStore::new();
    store.save_qwen_token(token, 100);
    let again = QwenTokenData {
        access_token: "second".to_string(),
        refresh_token: None,
        expires_in: Some(60),
        api_key: None,
        stored_at: Some(100),
    };
    store.save_qwen_token(again, 200);

    let got = store.get_qwen_token().expect("record should be present");
    assert_eq!(got.access_token, "second");
    assert_eq!(got.stored_at, Some(200));
}

#[test]
fn test_settings_round_trip() {
    let settings = UserSettings {
        theme: Some("dark".to_string()),
        font_size: Some(16),
        line_height_milli: Some(1500),
        language: Some("zh-CN".to_string()),
        extra: vec![("sidebar".to_string(), "true".to_string())],
    };
    let mut store = TokenStore::new();
    store.save_user_settings(settings);

    let got = store.get_user_settings().expect("settings should be present");
    assert_eq!(got.theme.as_deref(), Some("dark"));
    assert_eq!(got.font_size, Some(16));
    assert_eq!(got.line_height_milli, Some(1500));
    assert_eq!(got.language.as_deref(), Some("zh-CN"));
    assert_eq!(got.extra.len(), 1);
    assert_eq!(got.extra[0].0, "sidebar");
    assert_eq!(got.extra[0].1, "true");
}

#[test]
fn test_deletes_are_independent_and_idempotent() {
    let mut store = TokenStore::new();
    store.save_baidu_token(
        BaiduTokenData {
            access_token: "a".to_string(),
            refresh_token: "r".to_string(),
            expires_in: 60,
            scope: "s".to_string(),
            client_id: None,
            client_secret: None,
            redirect_uri: None,
            stored_at: None,
        },
        1,
    );
    store.save_qwen_token(
        QwenTokenData {
            access_token: "q".to_string(),
            refresh_token: None,
            expires_in: None,
            api_key: None,
            stored_at: None,
        },
        1,
    );

    store.delete_baidu_token();
    assert!(store.get_baidu_token().is_none());
    assert!(store.get_qwen_token().is_some());

    // deleting an absent record is not an error
    store.delete_baidu_token();
    store.delete_user_settings();
    assert!(store.get_baidu_token().is_none());
    assert!(store.get_user_settings().is_none());

    store.delete_qwen_token();
    assert!(store.get_qwen_token().is_none());
}

#[test]
fn test_clear_all_leaves_every_key_absent() {
    let mut store = TokenStore::new();
    store.save_baidu_token(
        BaiduTokenData {
            access_token: "a".to_string(),
            refresh_token: "r".to_string(),
            expires_in: 60,
            scope: "s".to_string(),
            client_id: None,
            client_secret: None,
            redirect_uri: None,
            stored_at: None,
        },
        1,
    );
    store.save_qwen_token(
        QwenTokenData {
            access_token: "q".to_string(),
            refresh_token: None,
            expires_in: None,
            api_key: None,
            stored_at: None,
        },
        1,
    );
    store.save_user_settings(UserSettings {
        theme: None,
        font_size: None,
        line_height_milli: None,
        language: None,
        extra: vec![],
    });

    store.clear_all();

    assert!(store.get_baidu_token().is_none());
    assert!(store.get_qwen_token().is_none());
    assert!(store.get_user_settings().is_none());
}
