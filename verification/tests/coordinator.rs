use libaoc::cache::{
    saved_timestamp_round_trips, ExampleKey, InputKey, MemoryCacheProvider,
    PersistentCacheProvider,
};
use libaoc::AocClient;

#[test]
fn repeat_input_lookup_hits_memory() {
    let mut client =
        AocClient::new_with_custom_cache("token".to_string(), MemoryCacheProvider::new());
    assert_eq!(client.get_input_cached(2022, 25), None);
    client.record_input_fetch(2022, 25, "fetched text".to_string());
    assert_eq!(
        client.get_input_cached(2022, 25).as_deref(),
        Some("fetched text")
    );
    assert_eq!(
        client.get_input_cached(2022, 25).as_deref(),
        Some("fetched text")
    );
    assert_eq!(
        client.get_input_memory(2022, 25).as_deref(),
        Some("fetched text")
    );
}

#[test]
fn durable_prefill_served_and_promoted() {
    let mut store = MemoryCacheProvider::new();
    store.save(
        InputKey {
            year: 2022,
            day: 25,
        },
        "stored text".to_string(),
    );
    let mut client = AocClient::new_with_custom_cache("token".to_string(), store);
    assert_eq!(client.get_input_memory(2022, 25), None);
    assert_eq!(
        client.get_input_cached(2022, 25).as_deref(),
        Some("stored text")
    );
    assert_eq!(
        client.get_input_memory(2022, 25).as_deref(),
        Some("stored text"),
        "a durable hit must be promoted into the memory tier"
    );
}

#[test]
fn full_miss_returns_none_for_other_keys() {
    let mut store = MemoryCacheProvider::new();
    store.save(
        InputKey {
            year: 2021,
            day: 1,
        },
        "other".to_string(),
    );
    let mut client = AocClient::new_with_custom_cache("token".to_string(), store);
    assert_eq!(client.get_input_cached(2022, 25), None);
    assert_eq!(client.get_input_cached(2021, 2), None);
    assert_eq!(client.get_input_cached(2021, 1).as_deref(), Some("other"));
}

#[test]
fn timestamp_round_trip() {
    let mut store = MemoryCacheProvider::new();
    assert_eq!(store.load_throttle_timestamp(), None);
    assert_eq!(
        saved_timestamp_round_trips(&mut store, 1700000000123),
        Some(1700000000123)
    );
    store.save_throttle_timestamp(42);
    assert_eq!(store.load_throttle_timestamp(), Some(42));
}

#[test]
fn constructor_reads_persisted_timestamp() {
    let mut store = MemoryCacheProvider::new();
    store.save_throttle_timestamp(987654321);
    let client = AocClient::new_with_custom_cache("token".to_string(), store);
    assert_eq!(client.throttle.last_request_ms, 987654321);
    assert_eq!(
        client.throttle.min_interval_ms,
        libaoc::MIN_TIME_BETWEEN_REQUESTS_MS
    );

    let client = AocClient::new_with_custom_cache("token".to_string(), MemoryCacheProvider::new());
    assert_eq!(
        client.throttle.last_request_ms, 0,
        "an absent timestamp defaults to the epoch"
    );
}

#[test]
fn shutdown_flushes_both_tiers_and_timestamp() {
    let mut client =
        AocClient::new_with_custom_cache("token".to_string(), MemoryCacheProvider::new());
    client.record_input_fetch(2022, 25, "input text".to_string());
    let page = "<html><body><article class=\"day-desc\"><p>For example:</p>\
<pre><code>sample</code></pre></article></body></html>";
    let parsed = client.record_example_fetch(2022, 25, 1, page.to_string());
    assert_eq!(parsed.expect("example should parse").data, "sample");

    let store = client.shutdown();
    assert_eq!(
        store
            .load(InputKey {
                year: 2022,
                day: 25,
            })
            .as_deref(),
        Some("input text")
    );
    assert_eq!(
        store
            .load_example(ExampleKey {
                year: 2022,
                day: 25,
                part: 1,
            })
            .as_deref(),
        Some(page)
    );
    assert!(store.load_throttle_timestamp().is_some());
}

#[test]
fn example_lookup_reparses_cached_html() {
    let mut client =
        AocClient::new_with_custom_cache("token".to_string(), MemoryCacheProvider::new());
    assert!(client.get_example_cached(2022, 25, 1).is_none());
    let page = "<html><body><article class=\"day-desc\"><p>For example:</p>\
<pre><code>abc</code></pre><p><code><em>9</em></code></p></article></body></html>";
    client.record_example_fetch(2022, 25, 1, page.to_string());
    let hit = client
        .get_example_cached(2022, 25, 1)
        .expect("memory tier should hold the page");
    let example = hit.expect("cached page should parse");
    assert_eq!(example.data, "abc");
    assert_eq!(example.part1_answer.as_deref(), Some("9"));
    let hit = client
        .get_example_memory(2022, 25, 1)
        .expect("memory tier should hold the page");
    assert_eq!(hit.expect("cached page should parse").data, "abc");
}

#[test]
fn example_durable_prefill_served() {
    let mut store = MemoryCacheProvider::new();
    let page = "<html><body><article class=\"day-desc\"><p>For example:</p>\
<pre><code>persisted</code></pre></article></body></html>";
    store.save_example(
        ExampleKey {
            year: 2020,
            day: 3,
            part: 2,
        },
        page.to_string(),
    );
    let mut client = AocClient::new_with_custom_cache("token".to_string(), store);
    let hit = client
        .get_example_cached(2020, 3, 2)
        .expect("durable tier should serve the page");
    assert_eq!(hit.expect("page should parse").data, "persisted");
    assert!(
        client.get_example_memory(2020, 3, 2).is_some(),
        "a durable hit must be promoted into the memory tier"
    );
}

#[test]
fn unparsable_cached_page_yields_absent_example() {
    let mut client =
        AocClient::new_with_custom_cache("token".to_string(), MemoryCacheProvider::new());
    let parsed = client.record_example_fetch(2022, 1, 1, "<html><body></body></html>".to_string());
    assert!(parsed.is_none());
    let hit = client
        .get_example_cached(2022, 1, 1)
        .expect("memory tier should hold the page");
    assert!(hit.is_none(), "absence of an example is not an error");
}
