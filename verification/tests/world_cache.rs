use vsm_core::errors::ApiError;
use vsm_core::world::{sentinel_record, FetchResolution, LocalResolution, WorldCache, WorldRecord};

fn expect_sentinel(cache: &WorldCache, id: &str, display_name: &str, thumbnail_url: &str) {
    match cache.resolve_local(id) {
        LocalResolution::Sentinel(w) => {
            assert_eq!(w.id, id);
            assert_eq!(w.display_name, display_name);
            assert_eq!(w.thumbnail_url, thumbnail_url);
        }
        LocalResolution::Cached(_) => panic!("sentinel {} must not come from the cache", id),
        LocalResolution::NeedsFetch => panic!("sentinel {} must not ask for a fetch", id),
    }
}

const PRIVATE_THUMB: &str = "https://assets.vrchat.com/www/images/user-location-private-world.png";
const OFFLINE_THUMB: &str = "https://assets.vrchat.com/www/images/user-location-offline.png";

#[test]
fn sentinels_resolve_fixed_records_before_any_population() {
    let cache = WorldCache::new();
    expect_sentinel(&cache, "private", "In a private world", PRIVATE_THUMB);
    expect_sentinel(&cache, "web_or_mobile", "On Web or Mobile", PRIVATE_THUMB);
    expect_sentinel(&cache, "offline", "Offline", OFFLINE_THUMB);
    expect_sentinel(&cache, "traveling", "In a traveling world", PRIVATE_THUMB);
}

#[test]
fn sentinels_resolve_fixed_records_after_population() {
    let mut cache = WorldCache::new();
    cache
        .apply_fetch(
            "wrld_1",
            200,
            "{\"id\":\"wrld_1\",\"name\":\"Hub\",\"thumbnailImageUrl\":\"https://img/hub.png\"}"
                .to_string(),
        )
        .unwrap();
    expect_sentinel(&cache, "offline", "Offline", OFFLINE_THUMB);
}

#[test]
fn sentinel_record_is_none_for_real_identifiers() {
    assert!(sentinel_record("wrld_123").is_none());
    assert!(sentinel_record("").is_none());
    assert!(sentinel_record("Private").is_none());
}

#[test]
fn first_resolution_fetches_second_is_served_from_cache() {
    let mut cache = WorldCache::new();
    // first call: miss, the caller must fetch
    assert!(matches!(
        cache.resolve_local("wrld_1"),
        LocalResolution::NeedsFetch
    ));
    // the fetched reply parses and is cached
    let body = "{\"id\":\"wrld_1\",\"name\":\"Hub\",\"thumbnailImageUrl\":\"https://img/hub.png\",\"capacity\":32}";
    match cache.apply_fetch("wrld_1", 200, body.to_string()) {
        Ok(FetchResolution::Parsed(w)) => {
            assert_eq!(w.id, "wrld_1");
            assert_eq!(w.display_name, "Hub");
            assert_eq!(w.thumbnail_url, "https://img/hub.png");
        }
        other => panic!("expected a parsed record, got {:?}", other),
    }
    // second call: served from the cache, identical record, no fetch
    match cache.resolve_local("wrld_1") {
        LocalResolution::Cached(w) => {
            assert_eq!(w.id, "wrld_1");
            assert_eq!(w.display_name, "Hub");
            assert_eq!(w.thumbnail_url, "https://img/hub.png");
        }
        other => panic!("expected a cache hit, got {:?}", other),
    }
}

#[test]
fn malformed_payload_degrades_to_raw_and_caches_nothing() {
    let mut cache = WorldCache::new();
    let body = "{\"id\":\"wrld_2\",\"name\":\"NoThumb\"}";
    match cache.apply_fetch("wrld_2", 200, body.to_string()) {
        Ok(FetchResolution::Raw(text)) => assert_eq!(text, body),
        other => panic!("expected the raw payload, got {:?}", other),
    }
    assert!(matches!(
        cache.resolve_local("wrld_2"),
        LocalResolution::NeedsFetch
    ));
}

#[test]
fn unparseable_text_degrades_to_raw() {
    let mut cache = WorldCache::new();
    let body = "service unavailable";
    match cache.apply_fetch("wrld_3", 200, body.to_string()) {
        Ok(FetchResolution::Raw(text)) => assert_eq!(text, body),
        other => panic!("expected the raw payload, got {:?}", other),
    }
    assert!(cache.lookup("wrld_3").is_none());
}

#[test]
fn remote_error_reports_fetch_failure_and_caches_nothing() {
    let mut cache = WorldCache::new();
    match cache.apply_fetch("wrld_4", 404, "not found".to_string()) {
        Err(ApiError::FetchFailed) => {}
        other => panic!("expected a fetch failure, got {:?}", other),
    }
    assert!(cache.lookup("wrld_4").is_none());
}

#[test]
fn cached_record_keeps_requested_key_even_if_payload_id_differs() {
    let mut cache = WorldCache::new();
    // the cache is keyed by the identifier that was asked for
    let body = "{\"id\":\"wrld_other\",\"name\":\"Alias\",\"thumbnailImageUrl\":\"https://img/a.png\"}";
    cache.apply_fetch("wrld_asked", 200, body.to_string()).unwrap();
    let w = cache.lookup("wrld_asked").expect("cached under the requested id");
    assert_eq!(w.id, "wrld_other");
    assert!(cache.lookup("wrld_other").is_none());
}

#[test]
fn insert_and_lookup_last_writer_wins() {
    let mut cache = WorldCache::new();
    cache.insert(
        "wrld_9".to_string(),
        WorldRecord {
            id: "wrld_9".to_string(),
            display_name: "First".to_string(),
            thumbnail_url: "https://img/1.png".to_string(),
        },
    );
    cache.insert(
        "wrld_9".to_string(),
        WorldRecord {
            id: "wrld_9".to_string(),
            display_name: "Second".to_string(),
            thumbnail_url: "https://img/2.png".to_string(),
        },
    );
    let w = cache.lookup("wrld_9").expect("the record must be cached");
    assert_eq!(w.display_name, "Second");
    assert!(cache.lookup("wrld_8").is_none());
}
