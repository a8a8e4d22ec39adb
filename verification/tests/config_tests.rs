use base64::Engine;
use ghostwriter_lib::config::{
    check_url, config_dir, config_dir_for, decrypt_api_key, encrypt_api_key,
    finish_loaded_settings, keep_url_with_scheme, legacy_config_dir, legacy_config_dir_for,
    path_join, validate_settings_urls, ConfigError, HotkeyConfig, Platform, Provider, Settings,
};
use ghostwriter_lib::secret::{
    decrypt_api_key_with, decrypt_bytes_with, encrypt_api_key_with, machine_key_from,
};

const MARKER: &[u8] = b"GHOSTWRITER_V1";

fn standard() -> base64::engine::GeneralPurpose {
    base64::engine::general_purpose::STANDARD
}

// ---------------------------------------------------------------------------
// Key protection
// ---------------------------------------------------------------------------

#[test]
fn test_encrypt_decrypt_roundtrip() {
    let key = "sk-or-v1-test123456789";
    let encrypted = encrypt_api_key(key).unwrap();
    let decrypted = decrypt_api_key(&encrypted).unwrap();
    assert_eq!(decrypted, key);
}

#[test]
fn test_encrypt_decrypt_empty_key() {
    let key = "";
    let encrypted = encrypt_api_key(key).unwrap();
    let decrypted = decrypt_api_key(&encrypted).unwrap();
    assert_eq!(decrypted, key);
}

#[test]
fn test_encrypt_decrypt_special_chars() {
    let key = "sk-or-v1-!@#$%^&*()_+-=[]{}|;':\",./<>?`~你好";
    let encrypted = encrypt_api_key(key).unwrap();
    let decrypted = decrypt_api_key(&encrypted).unwrap();
    assert_eq!(decrypted, key);
}

#[test]
fn test_encrypt_output_has_magic_bytes() {
    let key = "test-key";
    let encrypted = encrypt_api_key(key).unwrap();
    let decoded = standard().decode(&encrypted).unwrap();
    assert!(decoded.starts_with(MARKER));
}

#[test]
fn test_decrypt_invalid_base64() {
    let result = decrypt_api_key("not-valid-base64!!!");
    assert!(result.is_err());
    match result {
        Err(ConfigError::DecryptionError(_)) => {}
        _ => panic!("Expected DecryptionError"),
    }
}

#[test]
fn test_decrypt_no_magic_bytes() {
    let encoded = standard().encode(b"no-magic-here");
    let result = decrypt_api_key(&encoded);
    assert!(result.is_err());
    match result {
        Err(ConfigError::InvalidKeyFormat) => {}
        _ => panic!("Expected InvalidKeyFormat"),
    }
}

#[test]
fn test_decrypt_empty_string() {
    let result = decrypt_api_key("");
    assert!(result.is_err());
}

#[test]
fn encrypt_with_known_machine_key() {
    let encrypted = encrypt_api_key_with("AB", &[1, 2]).unwrap();
    let mut expected = MARKER.to_vec();
    expected.extend([b'A' ^ 1, b'B' ^ 2]);
    assert_eq!(encrypted, standard().encode(&expected));
    assert_eq!(decrypt_api_key_with(&encrypted, &[1, 2]).unwrap(), "AB");
}

#[test]
fn decrypt_with_other_machine_key_differs() {
    let encrypted = encrypt_api_key_with("secret", b"alpha").unwrap();
    let other = decrypt_api_key_with(&encrypted, b"beta");
    assert!(!matches!(other, Ok(ref s) if s == "secret"));
}

#[test]
fn decrypt_invalid_utf8_is_decryption_error() {
    let mut data = MARKER.to_vec();
    data.push(0xff ^ b'k');
    match decrypt_bytes_with(&data, b"k") {
        Err(ConfigError::DecryptionError(m)) => assert!(m.contains("utf-8")),
        _ => panic!("Expected DecryptionError"),
    }
}

#[test]
fn empty_machine_key_cannot_protect_a_key() {
    match encrypt_api_key_with("abc", &[]) {
        Err(ConfigError::EncryptionError(m)) => assert_eq!(m, "machine key is empty"),
        _ => panic!("Expected EncryptionError"),
    }
    let encrypted = encrypt_api_key_with("", &[]).unwrap();
    assert_eq!(decrypt_api_key_with(&encrypted, &[]).unwrap(), "");
}

#[test]
fn machine_key_falls_back_to_product_name() {
    assert_eq!(machine_key_from(None), b"ghostwriter".to_vec());
    assert_eq!(machine_key_from(Some("host".to_string())), b"host".to_vec());
}

// ---------------------------------------------------------------------------
// Settings
// ---------------------------------------------------------------------------

#[test]
fn test_settings_default_values() {
    let s = Settings::default_for(Platform::Linux);
    assert_eq!(s.model, "openai/gpt-4o-mini");
    assert!(s.first_run);
    assert!(s.api_key_encrypted.is_empty());
    assert!(s.api_key.is_none());
    assert_eq!(s.hotkey.key, "r");
    assert!(s.proxy_url.is_none());
    assert!(s.api_base_url.is_none());
}

#[test]
fn test_settings_default_hotkey_platform() {
    let h = HotkeyConfig::default_for(Platform::Linux);
    assert_eq!(h.key, "r");
    assert_eq!(h.modifiers, vec!["ctrl".to_string()]);
    let w = HotkeyConfig::default_for(Platform::Windows);
    assert_eq!(w.modifiers, vec!["ctrl".to_string()]);
    let m = HotkeyConfig::default_for(Platform::MacOs);
    assert_eq!(m.modifiers, vec!["cmd".to_string()]);
}

#[test]
fn default_instruction_file_is_in_config_dir() {
    let s = Settings::default_for(Platform::Linux);
    assert!(s.instruction_file.ends_with(".config/ghostwriter/instructions/default.md"));
}

#[test]
fn test_display_does_not_leak_key() {
    let s = Settings {
        api_key_encrypted: "secret-key-value".to_string(),
        api_key: None,
        model: "gpt-4".to_string(),
        instruction_file: "/tmp/test.md".to_string(),
        hotkey: HotkeyConfig::default_for(Platform::Linux),
        proxy_url: None,
        api_base_url: None,
        first_run: false,
        provider: Provider::OpenRouter,
    };

    let display = s.to_string();
    assert!(display.contains("gpt-4"));
    assert!(display.contains("default"));
    assert!(display.contains("has_raw_key: false"));
    assert!(!display.contains("secret-key-value"));
}

#[test]
fn display_is_exact() {
    let s = Settings {
        api_key_encrypted: "x".to_string(),
        api_key: Some("raw".to_string()),
        model: "m".to_string(),
        instruction_file: "/tmp/a \"b\".md".to_string(),
        hotkey: HotkeyConfig::default_for(Platform::Linux),
        proxy_url: None,
        api_base_url: Some("https://e.x/v1".to_string()),
        first_run: false,
        provider: Provider::Google,
    };
    assert_eq!(
        s.to_string(),
        "Settings(provider: Google, model: m, instruction: \"/tmp/a \\\"b\\\".md\", api_base_url: https://e.x/v1, has_raw_key: true)"
    );
}

#[test]
fn config_test_error_display() {
    let err = ConfigError::DecryptionError("bad decrypt".to_string());
    assert_eq!(err.to_string(), "Decryption error: bad decrypt");

    let err = ConfigError::InvalidKeyFormat;
    assert_eq!(err.to_string(), "Invalid encrypted key format");

    let err = ConfigError::ParseError("bad json".to_string());
    assert_eq!(err.to_string(), "Parse error: bad json");
}

#[test]
fn other_config_errors_display() {
    assert_eq!(ConfigError::IoError("gone".to_string()).to_string(), "IO error: gone");
    assert_eq!(
        ConfigError::SerializeError("s".to_string()).to_string(),
        "Serialize error: s"
    );
    assert_eq!(
        ConfigError::EncryptionError("e".to_string()).to_string(),
        "Encryption error: e"
    );
}

#[test]
fn test_provider_default_is_openrouter() {
    assert_eq!(Provider::default(), Provider::OpenRouter);
}

// ---------------------------------------------------------------------------
// Where the configuration lives
// ---------------------------------------------------------------------------

#[test]
fn test_config_dir_format() {
    let dir = config_dir(Platform::Linux);
    assert!(dir.contains(".config/ghostwriter"));
    assert!(std::path::Path::new(&dir).is_absolute());
}

#[test]
fn test_legacy_config_dir_macos() {
    let legacy_dir = legacy_config_dir(Platform::Linux);
    let current_dir = config_dir(Platform::Linux);
    assert_eq!(legacy_dir, current_dir);
    let mac_dir = legacy_config_dir(Platform::MacOs);
    assert!(mac_dir.contains("Library/Application Support/ghostwriter"));
    assert!(std::path::Path::new(&mac_dir).is_absolute());
}

#[test]
fn config_dir_without_home_is_relative() {
    assert_eq!(config_dir_for(Platform::Linux, None, None), "./.config/ghostwriter");
    assert_eq!(
        config_dir_for(Platform::Linux, Some("/home/a".to_string()), None),
        "/home/a/.config/ghostwriter"
    );
    assert_eq!(
        legacy_config_dir_for(Platform::MacOs, Some("/Users/a/".to_string()), None),
        "/Users/a/Library/Application Support/ghostwriter"
    );
}

#[test]
fn config_dir_on_windows_is_in_app_data() {
    assert_eq!(
        config_dir_for(
            Platform::Windows,
            Some("C:\\Users\\a".to_string()),
            Some("C:\\Users\\a\\AppData\\Roaming".to_string())
        ),
        "C:\\Users\\a\\AppData\\Roaming\\ghostwriter"
    );
    assert_eq!(
        config_dir_for(Platform::Windows, Some("C:\\Users\\a".to_string()), None),
        "C:\\Users\\a\\.config\\ghostwriter"
    );
    assert_eq!(
        legacy_config_dir_for(
            Platform::Windows,
            None,
            Some("D:\\Roaming\\".to_string())
        ),
        "D:\\Roaming\\ghostwriter"
    );
}

#[test]
fn config_dir_on_macos_is_under_home() {
    assert_eq!(
        config_dir_for(Platform::MacOs, Some("/Users/a".to_string()), Some("/x".to_string())),
        "/Users/a/.config/ghostwriter"
    );
}

#[test]
fn path_join_rules() {
    assert_eq!(path_join(Platform::Linux, "a", "b"), "a/b");
    assert_eq!(path_join(Platform::Linux, "a/", "b"), "a/b");
    assert_eq!(path_join(Platform::Linux, "", "b"), "b");
    assert_eq!(path_join(Platform::Linux, "a", "/b"), "/b");
    assert_eq!(path_join(Platform::Windows, "a", "b"), "a\\b");
    assert_eq!(path_join(Platform::Windows, "a\\", "b"), "a\\b");
    assert_eq!(path_join(Platform::Windows, "a/", "b"), "a/b");
    assert_eq!(path_join(Platform::Windows, "C:", "b"), "C:b");
}

#[test]
fn display_quotes_instruction_path_as_a_path() {
    let mut s = Settings::default_for(Platform::Linux);
    s.instruction_file = "/tmp/it's.md".to_string();
    assert!(s.to_string().contains("instruction: \"/tmp/it's.md\""));
}

// ---------------------------------------------------------------------------
// Checking addresses
// ---------------------------------------------------------------------------

fn settings_with_urls(api_base_url: Option<&str>, proxy_url: Option<&str>) -> Settings {
    Settings {
        api_base_url: api_base_url.map(str::to_string),
        proxy_url: proxy_url.map(str::to_string),
        ..Settings::default_for(Platform::Linux)
    }
}

#[test]
fn test_validate_urls_valid_http_base_url() {
    let mut s = settings_with_urls(Some("http://custom.api/v1/chat"), None);
    validate_settings_urls(&mut s);
    assert_eq!(s.api_base_url.as_deref(), Some("http://custom.api/v1/chat"));
}

#[test]
fn test_validate_urls_valid_https_base_url() {
    let mut s = settings_with_urls(Some("https://openrouter.ai/api/v1/chat/completions"), None);
    validate_settings_urls(&mut s);
    assert!(s.api_base_url.is_some());
}

#[test]
fn test_validate_urls_invalid_scheme_base_url() {
    let mut s = settings_with_urls(Some("ftp://files.example.com/api"), None);
    validate_settings_urls(&mut s);
    assert!(s.api_base_url.is_none());
}

#[test]
fn test_validate_urls_socks5_rejected_for_base_url() {
    let mut s = settings_with_urls(Some("socks5://proxy.example.com:1080"), None);
    validate_settings_urls(&mut s);
    assert!(s.api_base_url.is_none());
}

#[test]
fn test_validate_urls_malformed_base_url() {
    let mut s = settings_with_urls(Some("not a url at all"), None);
    validate_settings_urls(&mut s);
    assert!(s.api_base_url.is_none());
}

#[test]
fn test_validate_urls_empty_string_base_url() {
    let mut s = settings_with_urls(Some(""), None);
    validate_settings_urls(&mut s);
    assert!(s.api_base_url.is_none());
}

#[test]
fn test_validate_urls_valid_http_proxy() {
    let mut s = settings_with_urls(None, Some("http://proxy.example.com:8080"));
    validate_settings_urls(&mut s);
    assert!(s.proxy_url.is_some());
}

#[test]
fn test_validate_urls_valid_https_proxy() {
    let mut s = settings_with_urls(None, Some("https://proxy.example.com:8080"));
    validate_settings_urls(&mut s);
    assert!(s.proxy_url.is_some());
}

#[test]
fn test_validate_urls_valid_socks5_proxy() {
    let mut s = settings_with_urls(None, Some("socks5://proxy.example.com:1080"));
    validate_settings_urls(&mut s);
    assert!(s.proxy_url.is_some());
}

#[test]
fn test_validate_urls_invalid_scheme_proxy() {
    let mut s = settings_with_urls(None, Some("ftp://proxy.example.com"));
    validate_settings_urls(&mut s);
    assert!(s.proxy_url.is_none());
}

#[test]
fn test_validate_urls_malformed_proxy() {
    let mut s = settings_with_urls(None, Some(":::bad:::"));
    validate_settings_urls(&mut s);
    assert!(s.proxy_url.is_none());
}

#[test]
fn test_validate_urls_none_fields_unchanged() {
    let mut s = settings_with_urls(None, None);
    validate_settings_urls(&mut s);
    assert!(s.api_base_url.is_none());
    assert!(s.proxy_url.is_none());
}

#[test]
fn keep_url_by_scheme() {
    let u = Some("x".to_string());
    assert_eq!(keep_url_with_scheme(u.clone(), Some("https".to_string()), false), u);
    assert_eq!(keep_url_with_scheme(u.clone(), Some("socks5".to_string()), false), None);
    assert_eq!(keep_url_with_scheme(u.clone(), Some("socks5".to_string()), true), u);
    assert_eq!(keep_url_with_scheme(u.clone(), Some("ftp".to_string()), true), None);
    assert_eq!(keep_url_with_scheme(u, None, true), None);
}

#[test]
fn check_url_twice_keeps_first_result() {
    let once = check_url(Some("HTTP://Example.com".to_string()), false);
    assert_eq!(once.as_deref(), Some("HTTP://Example.com"));
    assert_eq!(check_url(once.clone(), false), once);
}

#[test]
fn loaded_settings_are_checked() {
    let loaded = finish_loaded_settings(Ok(settings_with_urls(Some("ftp://x"), Some("socks5://p:1"))))
        .unwrap();
    assert!(loaded.api_base_url.is_none());
    assert_eq!(loaded.proxy_url.as_deref(), Some("socks5://p:1"));
    match finish_loaded_settings(Err("missing field `model`".to_string())) {
        Err(ConfigError::ParseError(m)) => assert_eq!(m, "missing field `model`"),
        _ => panic!("Expected ParseError"),
    }
}
