use offline_wallet::webview_perf::{
    CacheManager, WebViewOptimizer, MEMORY_OPTIMIZATION_SCRIPT, RESOURCE_OPTIMIZATION_SCRIPT,
    SCROLL_OPTIMIZATION_SCRIPT,
};

#[test]
fn cached_resources_come_back_until_they_expire() {
    let mut cache = CacheManager::new();
    assert_eq!(cache.get_cached_at("a", 0), None);
    cache.cache_resource_at("a", vec![1, 2, 3], "text/css".to_string(), Some(10), 100);
    cache.cache_resource_at("b", vec![], "text/plain".to_string(), None, 100);
    assert_eq!(cache.get_cached_at("a", 100), Some((vec![1, 2, 3], "text/css".to_string())));
    assert_eq!(cache.get_cached_at("a", 110), Some((vec![1, 2, 3], "text/css".to_string())));
    assert_eq!(cache.get_cached_at("a", 111), None);
    assert_eq!(cache.get_cached_at("a", 100), None);
    assert_eq!(cache.get_cached_at("b", u64::MAX), Some((vec![], "text/plain".to_string())));
    assert_eq!(cache.get_cached_at("c", 100), None);
}

#[test]
fn caching_again_replaces() {
    let mut cache = CacheManager::new();
    cache.cache_resource_at("a", vec![1], "x".to_string(), Some(1), 10);
    cache.cache_resource_at("b", vec![2], "y".to_string(), Some(1), 10);
    cache.cache_resource_at("a", vec![9, 9], "z".to_string(), None, 20);
    assert_eq!(cache.get_cached_at("a", 1000), Some((vec![9, 9], "z".to_string())));
    assert_eq!(cache.get_cached_at("b", 11), Some((vec![2], "y".to_string())));
}

#[test]
fn a_clock_that_went_back_expires_nothing() {
    let mut cache = CacheManager::new();
    cache.cache_resource_at("a", vec![1], "x".to_string(), Some(0), 100);
    assert_eq!(cache.get_cached_at("a", 50), Some((vec![1], "x".to_string())));
    assert_eq!(cache.get_cached_at("a", 100), Some((vec![1], "x".to_string())));
    assert_eq!(cache.get_cached_at("a", 101), None);
}

#[test]
fn clearing_expired_keeps_the_rest() {
    let mut cache = CacheManager::new();
    cache.cache_resource_at("a", vec![1], "x".to_string(), Some(5), 100);
    cache.cache_resource_at("b", vec![2], "x".to_string(), Some(50), 100);
    cache.cache_resource_at("c", vec![3], "x".to_string(), None, 100);
    cache.cache_resource_at("d", vec![4], "x".to_string(), Some(5), 100);
    cache.clear_expired_at(120);
    assert_eq!(cache.get_cached_at("a", 100), None);
    assert_eq!(cache.get_cached_at("b", 100), Some((vec![2], "x".to_string())));
    assert_eq!(cache.get_cached_at("c", 100), Some((vec![3], "x".to_string())));
    assert_eq!(cache.get_cached_at("d", 100), None);
    cache.clear_all();
    assert_eq!(cache.get_cached_at("b", 100), None);
    assert_eq!(cache.get_cached_at("c", 100), None);
}

#[test]
fn caching_by_the_clock() {
    let mut cache = CacheManager::default();
    cache.cache_resource("a", vec![7], "x".to_string(), Some(3600));
    cache.cache_resource("b", vec![8], "y".to_string(), None);
    assert_eq!(cache.get_cached("a"), Some((vec![7], "x".to_string())));
    cache.clear_expired();
    assert_eq!(cache.get_cached("a"), Some((vec![7], "x".to_string())));
    assert_eq!(cache.get_cached("b"), Some((vec![8], "y".to_string())));
    assert_eq!(cache.get_cached("c"), None);
}

#[test]
fn optimization_scripts() {
    let scroll = WebViewOptimizer::get_scroll_optimization_script();
    let memory = WebViewOptimizer::get_memory_optimization_script();
    let resource = WebViewOptimizer::get_resource_optimization_script();
    assert_eq!(scroll, SCROLL_OPTIMIZATION_SCRIPT);
    assert_eq!(memory, MEMORY_OPTIMIZATION_SCRIPT);
    assert_eq!(resource, RESOURCE_OPTIMIZATION_SCRIPT);
    assert!(scroll.contains("WebView scroll optimization scripts injected"));
    assert!(memory.contains("WebView memory optimization scripts injected"));
    assert!(resource.contains("WebView resource optimization scripts injected"));
    assert!(scroll.trim_start().starts_with("(function() {"));
    assert!(scroll.trim_end().ends_with("})();"));
    assert_eq!(
        WebViewOptimizer::get_all_optimization_scripts(),
        format!("{}\n{}\n{}", scroll, memory, resource)
    );
}
