use std::cell::Cell;

use translators::translators::offline::ctranslate2::model_management::{ModelCache, ModelLifetime};

#[test]
fn loader_runs_exactly_once_per_identifier() {
    let calls = Cell::new(0u32);
    let mut cache: ModelCache<u32> = ModelCache::new(ModelLifetime::KeepAlive);
    let a = *cache.get_or_load("m2m_100_418m_ct2", || {
        calls.set(calls.get() + 1);
        7
    });
    assert_eq!(a, 7);
    assert_eq!(calls.get(), 1);
    let b = *cache.get_or_load("m2m_100_418m_ct2", || {
        calls.set(calls.get() + 1);
        9
    });
    assert_eq!(b, 7);
    assert_eq!(calls.get(), 1);
    let c = *cache.get_or_load("nllb-200-distilled-1.3B-ct2", || {
        calls.set(calls.get() + 1);
        9
    });
    assert_eq!(c, 9);
    assert_eq!(calls.get(), 2);
    assert_eq!(cache.len(), 2);
}

#[test]
fn dispose_clears_and_keep_alive_retains() {
    let mut disposing: ModelCache<u32> = ModelCache::new(ModelLifetime::Dispose);
    disposing.get_or_load("a", || 1);
    assert_eq!(disposing.len(), 1);
    disposing.cleanup();
    assert_eq!(disposing.len(), 0);

    let mut keeping: ModelCache<u32> = ModelCache::new(ModelLifetime::KeepAlive);
    keeping.get_or_load("a", || 1);
    keeping.cleanup();
    assert_eq!(keeping.len(), 1);
    assert!(keeping.contains("a"));
}

#[test]
fn take_hands_out_and_put_returns() {
    let mut cache: ModelCache<String> = ModelCache::new(ModelLifetime::KeepAlive);
    cache.put("engine", "handle".to_string());
    assert!(cache.contains("engine"));
    let v = cache.take("engine").unwrap();
    assert_eq!(v, "handle");
    assert!(!cache.contains("engine"));
    assert!(cache.take("engine").is_none());
    cache.put("engine", v);
    assert_eq!(cache.len(), 1);
}
