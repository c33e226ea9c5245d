use martian_adapters::{
    encode_image_to_base64, process_image_url_anthropic, AdapterError, ClientCache, EnvConfig,
    ResponseFormat,
};

#[test]
fn test_process_image_url_anthropic() {
    let url = "data:image/png;base64,iVBORw0KGgoAAAANSUhEUgAAAAEAAAABCAYAAAAfFcSJAAAADUlEQVR42mNk+M9QDwADhgGAWjR9awAAAABJRU5ErkJggg==";
    let result = process_image_url_anthropic(url).unwrap();
    assert_eq!(result.0, "image/png");
    assert_eq!(result.1, "iVBORw0KGgoAAAANSUhEUgAAAAEAAAABCAYAAAAfFcSJAAAADUlEQVR42mNk+M9QDwADhgGAWjR9awAAAABJRU5ErkJggg==");
}

#[test]
fn test_process_image_url_media_types() {
    let (mt, data) = process_image_url_anthropic("data:image/webp;foo,payload").unwrap();
    assert_eq!(mt, "image/webp");
    assert_eq!(data, "payload");
    let (mt, _) = process_image_url_anthropic("data:image/gif;base64,x").unwrap();
    assert_eq!(mt, "image/gif");
    let (mt, _) = process_image_url_anthropic("data:image/jpg;base64,x").unwrap();
    assert_eq!(mt, "image/jpeg");
    // unknown media type falls back to jpeg
    let (mt, _) = process_image_url_anthropic("data:application/pdf;base64,x").unwrap();
    assert_eq!(mt, "image/jpeg");
}

#[test]
fn test_process_image_url_errors() {
    match process_image_url_anthropic("https://example.com/cat.png") {
        Err(AdapterError::ConfigError(_)) => {}
        other => panic!("expected ConfigError, got {:?}", other),
    }
    // no comma at all
    match process_image_url_anthropic("data:image/png;base64") {
        Err(AdapterError::ConfigError(_)) => {}
        other => panic!("expected ConfigError, got {:?}", other),
    }
    // two commas
    match process_image_url_anthropic("data:image/png;base64,a,b") {
        Err(AdapterError::ConfigError(_)) => {}
        other => panic!("expected ConfigError, got {:?}", other),
    }
}

#[test]
fn test_encode_image_to_base64() {
    let data = b"hello world";
    let encoded = encode_image_to_base64(data);
    assert_eq!(encoded, "aGVsbG8gd29ybGQ=");
}

#[test]
fn test_encode_image_to_base64_empty_and_padding() {
    assert_eq!(encode_image_to_base64(b""), "");
    assert_eq!(encode_image_to_base64(b"a"), "YQ==");
    assert_eq!(encode_image_to_base64(b"ab"), "YWI=");
    assert_eq!(encode_image_to_base64(b"abc"), "YWJj");
}

#[test]
fn test_make_key_hides_credential() {
    let key = ClientCache::<u32>::make_key("https://api.example.com", "sk-SECRET-REDACTED");
    assert_eq!(key.0, "https://api.example.com");
    assert_eq!(key.1.len(), 16);
    assert_ne!(key.1, "sk-SECRET-REDACTED");
    assert!(key.1.chars().all(|c| c.is_ascii_hexdigit()));
    // same credential, same digest; different credential, different digest
    let again = ClientCache::<u32>::make_key("https://api.example.com", "sk-SECRET-REDACTED");
    assert_eq!(key.1, again.1);
    let other = ClientCache::<u32>::make_key("https://api.example.com", "sk-other");
    assert_ne!(key.1, other.1);
}

#[test]
fn test_client_cache_get_store_clear() {
    let mut cache: ClientCache<u32> = ClientCache::new();
    assert!(cache.get("https://a", "k1").is_none());
    cache.store("https://a", "k1", 7);
    assert_eq!(cache.get("https://a", "k1"), Some(&7));
    assert!(cache.get("https://a", "k2").is_none());
    assert!(cache.get("https://b", "k1").is_none());
    cache.clear();
    assert!(cache.get("https://a", "k1").is_none());
}

#[test]
fn test_api_key_name() {
    assert_eq!(EnvConfig::api_key_name("openai"), "OPENAI_API_KEY");
    assert_eq!(EnvConfig::api_key_name("alibaba-cloud"), "ALIBABA_CLOUD_API_KEY");
    assert_eq!(EnvConfig::api_key_name("x9"), "X9_API_KEY");
}

#[test]
fn test_response_format() {
    assert_eq!(ResponseFormat::json().format_type, "json_object");
    assert_eq!(ResponseFormat::text().format_type, "text");
}
