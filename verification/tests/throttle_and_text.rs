use libaoc::cache::{ExampleKey, FileCacheProvider, InputKey, MemoryCacheProvider};
use libaoc::text::{contains_phrase, fmt_i32, fmt_u32, strip_all};
use libaoc::throttle::{ThrottleGate, ThrottleStep, CLOCK_ANOMALY_BACKOFF_MS};
use libaoc::{input_url, puzzle_url, AocClient, MIN_TIME_BETWEEN_REQUESTS_MS};

#[test]
fn second_acquire_blocks_for_remainder_of_interval() {
    let minimum = MIN_TIME_BETWEEN_REQUESTS_MS;
    let mut gate = ThrottleGate::new(0, minimum);
    let now1: u64 = 1_000_000_000;
    assert_eq!(gate.acquire_step(now1), ThrottleStep::Proceed);
    assert_eq!(gate.last_request_ms, now1);

    let now2 = now1 + 50;
    match gate.acquire_step(now2) {
        ThrottleStep::Wait(wait_ms) => {
            assert_eq!(wait_ms, minimum - 50);
            assert!(wait_ms >= minimum - 50 && wait_ms <= minimum);
            let now3 = now2 + wait_ms;
            assert_eq!(now3, now1 + minimum);
            assert_eq!(gate.acquire_step(now3), ThrottleStep::Proceed);
            assert_eq!(gate.last_request_ms, now3);
        }
        other => panic!("expected a wait, got {:?}", other),
    }
}

#[test]
fn elapsed_interval_proceeds_immediately() {
    let mut gate = ThrottleGate::new(500, 180_000);
    assert_eq!(gate.acquire_step(500 + 180_000), ThrottleStep::Proceed);

    let mut gate = ThrottleGate::new(500, 180_000);
    assert_eq!(gate.acquire_step(500 + 180_001), ThrottleStep::Proceed);
}

#[test]
fn future_timestamp_is_an_anomaly_and_changes_nothing() {
    let mut gate = ThrottleGate::new(10_000, 180_000);
    assert_eq!(gate.acquire_step(9_999), ThrottleStep::Anomaly);
    assert_eq!(gate.last_request_ms, 10_000);
    assert_eq!(gate.min_interval_ms, 180_000);
    assert_eq!(CLOCK_ANOMALY_BACKOFF_MS, 1_000);
    assert_eq!(gate.acquire_step(10_000 + 180_000), ThrottleStep::Proceed);
}

#[test]
fn request_urls() {
    assert_eq!(
        input_url(2022, 25),
        "https://adventofcode.com/2022/day/25/input"
    );
    assert_eq!(puzzle_url(2022, 25), "https://adventofcode.com/2022/day/25");
    assert_eq!(puzzle_url(2015, 1), "https://adventofcode.com/2015/day/1");
}

#[test]
fn cookie_header_carries_session_token() {
    let client =
        AocClient::new_with_custom_cache("53616c7465645f5f".to_string(), MemoryCacheProvider::new());
    assert_eq!(client.cookie_header(), "session=53616c7465645f5f");
}

#[test]
fn decimal_formatting() {
    assert_eq!(fmt_u32(0), "0");
    assert_eq!(fmt_u32(7), "7");
    assert_eq!(fmt_u32(120), "120");
    assert_eq!(fmt_u32(4294967295), "4294967295");
    assert_eq!(fmt_i32(0), "0");
    assert_eq!(fmt_i32(-1), "-1");
    assert_eq!(fmt_i32(2022), "2022");
    assert_eq!(fmt_i32(-2147483648), "-2147483648");
}

#[test]
fn cache_file_paths() {
    let provider = FileCacheProvider::new_with_dir("/home/someone/.cache".to_string());
    assert_eq!(
        provider.input_path(InputKey {
            year: 2022,
            day: 3,
        }),
        "/home/someone/.cache/libaoc/2022/3.txt"
    );
    assert_eq!(
        provider.example_path(ExampleKey {
            year: 2022,
            day: 3,
            part: 2,
        }),
        "/home/someone/.cache/libaoc/examples/2022/3_2.html"
    );
    assert_eq!(
        provider.timestamp_path(),
        "/home/someone/.cache/libaoc/throttle_timestamp"
    );
}

#[test]
fn phrase_containment_is_case_insensitive() {
    assert!(contains_phrase("For example, suppose this.", "for example"));
    assert!(contains_phrase("FOR EXAMPLE", "for example"));
    assert!(contains_phrase("xxFoR ExAmPlExx", "for example"));
    assert!(!contains_phrase("for instance", "for example"));
    assert!(!contains_phrase("", "for example"));
    assert!(contains_phrase("anything", ""));
}

#[test]
fn pattern_stripping() {
    assert_eq!(strip_all("ab<em>cd</em>ef", "<em>"), "abcd</em>ef");
    assert_eq!(strip_all("ab<em>cd<em>ef", "<em>"), "abcdef");
    assert_eq!(strip_all("no match", "<em>"), "no match");
    assert_eq!(strip_all("", "<em>"), "");
    assert_eq!(strip_all("aaa", "aa"), "a");
}
