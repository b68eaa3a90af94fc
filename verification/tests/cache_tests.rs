use subversion::cache::{CacheConfig, RawCacheConfig};

#[test]
fn test_cache_config_custom() {
    let config = CacheConfig {
        cache_size: 32 * 1024 * 1024,
        file_handle_count: 100,
        single_threaded: true,
    };

    assert_eq!(config.cache_size, 32 * 1024 * 1024);
    assert_eq!(config.file_handle_count, 100);
    assert!(config.single_threaded);
}

#[test]
fn cache_config_without_stored_settings_is_all_zero() {
    let config = CacheConfig::from_raw(None);
    assert_eq!(config.cache_size, 0);
    assert_eq!(config.file_handle_count, 0);
    assert!(!config.single_threaded);
}

#[test]
fn cache_config_from_stored_settings() {
    let config = CacheConfig::from_raw(Some(RawCacheConfig {
        cache_size: 0x1000000,
        file_handle_count: 16,
        single_threaded: 7,
    }));
    assert_eq!(config.cache_size, 0x1000000);
    assert_eq!(config.file_handle_count, 16);
    assert!(config.single_threaded);
}

#[test]
fn cache_config_set_then_get_roundtrip() {
    let config = CacheConfig {
        cache_size: 16 * 1024 * 1024,
        file_handle_count: 50,
        single_threaded: false,
    };
    let raw = config.to_raw();
    assert_eq!(raw.single_threaded, 0);
    let back = CacheConfig::from_raw(Some(raw));
    assert_eq!(back, config);

    let threaded = CacheConfig { single_threaded: true, ..config };
    assert_eq!(threaded.to_raw().single_threaded, 1);
    assert_eq!(CacheConfig::from_raw(Some(threaded.to_raw())), threaded);
}
