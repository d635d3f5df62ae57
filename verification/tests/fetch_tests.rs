use catbot::fetcher::{
    exponential_backoff, FetchErrorKind, RetryDecision, RetrySettings,
};
use catbot::jup::{dedup_keys, take_price, PriceEntry, PriceFetcher, PriceResponse};

fn entry(address: &str, price: &str) -> PriceEntry {
    PriceEntry {
        address: String::from(address),
        price: String::from(price),
        price_type: String::from("derivedPrice"),
    }
}

fn requested(keys: &[&str]) -> Vec<String> {
    keys.iter().map(|k| String::from(*k)).collect()
}

#[test]
fn urls_name_ids_and_comparison_currency() {
    let fetcher = PriceFetcher::new();
    assert_eq!(
        fetcher.single_url("AAA"),
        "https://api.jup.ag/price/v2?ids=AAA"
    );
    assert_eq!(
        fetcher.pair_url("AAA", "BBB"),
        "https://api.jup.ag/price/v2?ids=AAA&vsToken=BBB"
    );
    let many = requested(&["AAA", "BBB", "CCC"]);
    assert_eq!(
        fetcher.many_url(&many),
        "https://api.jup.ag/price/v2?ids=AAA,BBB,CCC"
    );
}

#[test]
fn token_list_url_dispatches_on_pair() {
    let fetcher = PriceFetcher::new();
    let registry = catbot::token_registry::TokenRegistry::new();
    let jlp = registry
        .get_by_symbol(&catbot::jup::TokenSymbol::JLP)
        .unwrap()
        .duplicate();
    let sol = registry
        .get_by_symbol(&catbot::jup::TokenSymbol::SOL)
        .unwrap()
        .duplicate();
    let single = fetcher.url_for_tokens(&vec![sol.duplicate()]);
    assert_eq!(
        single,
        format!("https://api.jup.ag/price/v2?ids={}", sol.address)
    );
    let pair = fetcher.url_for_tokens(&vec![jlp.duplicate(), sol.duplicate()]);
    assert_eq!(
        pair,
        format!(
            "https://api.jup.ag/price/v2?ids={}&vsToken={}",
            jlp.address, sol.address
        )
    );
}

#[test]
fn batch_round_trip_yields_exactly_the_requested_keys() {
    let fetcher = PriceFetcher::new();
    let response = PriceResponse {
        entries: vec![entry("A", "1.5"), entry("B", "2.25"), entry("C", "0.003")],
    };
    let m = fetcher
        .process_response(&requested(&["A", "B", "C"]), &response)
        .unwrap();
    assert_eq!(m.len(), 3);
    assert_eq!(m.get("A").unwrap().as_str(), "1.5");
    assert_eq!(m.get("B").unwrap().as_str(), "2.25");
    assert_eq!(m.get("C").unwrap().as_str(), "0.003");
    assert!(m.get("D").is_none());
}

#[test]
fn missing_key_fails_the_whole_batch() {
    let fetcher = PriceFetcher::new();
    let response = PriceResponse {
        entries: vec![entry("A", "1.5"), entry("B", "2.25")],
    };
    let err = fetcher
        .process_response(&requested(&["A", "B", "C"]), &response)
        .unwrap_err();
    assert_eq!(err, FetchErrorKind::NotFound(String::from("C")));
}

#[test]
fn unparsable_price_is_a_parse_error_with_the_raw_text() {
    let fetcher = PriceFetcher::new();
    let response = PriceResponse {
        entries: vec![entry("A", "1.5"), entry("B", "not-a-number")],
    };
    let err = fetcher
        .process_response(&requested(&["A", "B"]), &response)
        .unwrap_err();
    assert_eq!(
        err,
        FetchErrorKind::ParseError(String::from("B"), String::from("not-a-number"))
    );
}

#[test]
fn duplicate_request_keys_are_deduplicated() {
    let fetcher = PriceFetcher::new();
    let response = PriceResponse {
        entries: vec![entry("A", "1.5"), entry("B", "2.25")],
    };
    let m = fetcher
        .process_response(&requested(&["A", "A", "B", "A"]), &response)
        .unwrap();
    assert_eq!(m.len(), 2);
}

#[test]
fn request_keys_are_deduplicated_before_querying() {
    let keys = requested(&["A", "B", "A", "C", "B"]);
    let unique = dedup_keys(&keys);
    assert_eq!(unique, requested(&["A", "B", "C"]));
    let fetcher = PriceFetcher::new();
    assert_eq!(
        fetcher.many_url(&unique),
        "https://api.jup.ag/price/v2?ids=A,B,C"
    );
}

#[test]
fn take_price_reports_the_missing_key() {
    let fetcher = PriceFetcher::new();
    let response = PriceResponse {
        entries: vec![entry("A", "1.5")],
    };
    let m = fetcher.process_response(&requested(&["A"]), &response).unwrap();
    assert_eq!(take_price(&m, "A").unwrap().as_str(), "1.5");
    assert_eq!(
        take_price(&m, "Z").unwrap_err(),
        FetchErrorKind::NotFound(String::from("Z"))
    );
}

#[test]
fn attempt_backoff_doubles_each_retry() {
    assert_eq!(exponential_backoff(1), 2);
    assert_eq!(exponential_backoff(2), 4);
    assert_eq!(exponential_backoff(3), 8);
}

#[test]
fn transient_faults_are_retried_then_given_up() {
    let fetcher = PriceFetcher::new();
    let mut retry = fetcher.begin_attempts();

    match retry.on_attempt_failure(FetchErrorKind::Timeout) {
        RetryDecision::RetryAfter(d) => assert_eq!(d, 2),
        other => panic!("expected a retry, got {:?}", other),
    }
    match retry.on_attempt_failure(FetchErrorKind::Timeout) {
        RetryDecision::RetryAfter(d) => assert_eq!(d, 4),
        other => panic!("expected a retry, got {:?}", other),
    }
    match retry.on_attempt_failure(FetchErrorKind::Network) {
        RetryDecision::GiveUp(e) => {
            assert_eq!(e.kind, FetchErrorKind::Network);
            assert_eq!(e.attempts, 3);
        }
        other => panic!("expected to give up, got {:?}", other),
    }
}

#[test]
fn data_faults_are_not_retried() {
    let fetcher = PriceFetcher::with_settings(RetrySettings {
        max_attempts: 3,
        timeout_secs: 10,
    });
    let mut retry = fetcher.begin_attempts();
    match retry.on_attempt_failure(FetchErrorKind::NotFound(String::from("A"))) {
        RetryDecision::GiveUp(e) => {
            assert_eq!(e.kind, FetchErrorKind::NotFound(String::from("A")));
            assert_eq!(e.attempts, 1);
        }
        other => panic!("expected to give up, got {:?}", other),
    }
}
