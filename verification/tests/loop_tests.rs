use catbot::address_map::AddressMap;
use catbot::channel::StateChannel;
use catbot::decimal::PriceValue;
use catbot::feeder::PairOrTokenPriceInfo;
use catbot::fetcher::{FetchError, FetchErrorKind};
use catbot::formatter::update_price_display;
use catbot::jup::{PriceEntry, PriceFetcher, PriceResponse, TokenSymbol};
use catbot::runner::{
    cycle_backoff_secs, partition_selection, process_cycle, CycleAction, LoopState,
};
use catbot::token_registry::{Token, TokenRegistry};
use catbot::PriceTarget;

const SOL: &str = "So11111111111111111111111111111111111111112";
const JLP: &str = "27G8MtK7VtTcCHkpASjSDdkWWYfoqT6ggEuKidVJidD4";

fn sol_token() -> Token {
    TokenRegistry::new()
        .get_by_symbol(&TokenSymbol::SOL)
        .unwrap()
        .duplicate()
}

fn jlp_token() -> Token {
    TokenRegistry::new()
        .get_by_symbol(&TokenSymbol::JLP)
        .unwrap()
        .duplicate()
}

fn results_for(pairs: &[(&str, &str)]) -> AddressMap<PriceValue> {
    let mut m = AddressMap::empty();
    for (key, price) in pairs {
        if !m.contains_key(key) {
            m.insert(String::from(*key), PriceValue::parse(price).unwrap());
        }
    }
    m
}

fn timeout_failure() -> FetchError {
    FetchError {
        kind: FetchErrorKind::Timeout,
        attempts: 3,
    }
}

#[test]
fn backoff_delays_are_monotone_and_capped() {
    let delays: Vec<u64> = (1..=6).map(cycle_backoff_secs).collect();
    assert_eq!(delays, vec![30, 60, 120, 240, 300, 300]);
    for w in delays.windows(2) {
        assert!(w[0] <= w[1]);
    }
}

#[test]
fn selection_partitions_into_fetch_groups() {
    let selection = vec![
        PriceTarget::Single(sol_token()),
        PriceTarget::Pair(jlp_token(), sol_token()),
        PriceTarget::Single(jlp_token()),
        PriceTarget::Position(String::from("WalletPublicKey111"), sol_token()),
    ];
    let (singles, pairs, positions) = partition_selection(&selection);
    assert_eq!(singles, vec![String::from(SOL), String::from(JLP)]);
    assert_eq!(pairs.len(), 1);
    assert!(matches!(&pairs[0], PriceTarget::Pair(a, b)
        if a.address == JLP && b.address == SOL));
    assert_eq!(positions.len(), 1);
    assert!(matches!(&positions[0], PriceTarget::Position(w, t)
        if w == "WalletPublicKey111" && t.address == SOL));
}

#[test]
fn happy_path_publishes_a_fresh_sol_price() {
    let sol = sol_token();
    let selection = vec![PriceTarget::Single(sol)];
    let fetcher = PriceFetcher::new();
    let response = PriceResponse {
        entries: vec![PriceEntry {
            address: String::from(SOL),
            price: String::from("150.25"),
            price_type: String::from("derivedPrice"),
        }],
    };
    let results = fetcher
        .process_response(&vec![String::from(SOL)], &response)
        .unwrap();

    let mut state = LoopState::new();
    let mut channel = StateChannel::new(AddressMap::empty());
    let mut observer = channel.subscribe();

    let action = process_cycle(&mut state, &mut channel, &selection, Ok(results), 1234);
    assert_eq!(action, CycleAction::Publish { wait_secs: 5 });
    assert_eq!(state.failures, 0);

    let snapshot = channel.poll_change(&mut observer).unwrap();
    assert_eq!(snapshot.len(), 1);
    match snapshot.get(SOL).unwrap() {
        PairOrTokenPriceInfo::Token(tp) => {
            assert_eq!(tp.token.symbol, TokenSymbol::SOL);
            assert_eq!(tp.price_info.price.as_ref().unwrap().as_str(), "150.25");
            assert_eq!(tp.price_info.failure_count, 0);
            assert_eq!(tp.price_info.updated_at, 1234);
            assert_eq!(tp.price_info.formatted_price, "150.25");
            let (label, text) = update_price_display(snapshot.get(SOL).unwrap());
            assert_eq!(label, "SOL");
            assert_eq!(text, "$150.25");
        }
        other => panic!("expected a single-token entry, got {:?}", other),
    }
}

#[test]
fn pair_selection_publishes_under_the_joined_key() {
    let selection = vec![PriceTarget::Pair(jlp_token(), sol_token())];
    let pair_key = format!("{}_{}", JLP, SOL);
    let results = results_for(&[(pair_key.as_str(), "0.0213")]);

    let mut state = LoopState::new();
    let mut channel = StateChannel::new(AddressMap::empty());

    process_cycle(&mut state, &mut channel, &selection, Ok(results), 99);
    match channel.latest().get(&pair_key).unwrap() {
        PairOrTokenPriceInfo::Pair(pp) => {
            assert_eq!(pp.token_a.symbol, TokenSymbol::JLP);
            assert_eq!(pp.token_b.symbol, TokenSymbol::SOL);
            assert_eq!(pp.price_info.price.as_ref().unwrap().as_str(), "0.0213");
        }
        other => panic!("expected a pair entry, got {:?}", other),
    }
}

#[test]
fn failure_then_recovery_moves_the_failure_count() {
    let sol = sol_token();
    let selection = vec![PriceTarget::Single(sol)];
    let mut state = LoopState::new();
    let mut channel = StateChannel::new(AddressMap::empty());

    let action = process_cycle(
        &mut state,
        &mut channel,
        &selection,
        Err(timeout_failure()),
        0,
    );
    assert_eq!(action, CycleAction::Backoff { delay_secs: 30 });
    assert_eq!(state.failures, 1);
    match channel.latest().get(SOL).unwrap() {
        PairOrTokenPriceInfo::Token(tp) => {
            assert!(tp.price_info.price.is_none());
            assert_eq!(tp.price_info.failure_count, 1);
        }
        other => panic!("expected a single-token entry, got {:?}", other),
    }

    let results = results_for(&[(SOL, "150.25")]);
    let action = process_cycle(&mut state, &mut channel, &selection, Ok(results), 77);
    assert_eq!(action, CycleAction::Publish { wait_secs: 5 });
    assert_eq!(state.failures, 0);
    match channel.latest().get(SOL).unwrap() {
        PairOrTokenPriceInfo::Token(tp) => {
            assert_eq!(tp.price_info.price.as_ref().unwrap().as_str(), "150.25");
            assert_eq!(tp.price_info.failure_count, 0);
        }
        other => panic!("expected a single-token entry, got {:?}", other),
    }
}

#[test]
fn second_failure_backs_off_longer_and_keeps_last_known_price() {
    let selection = vec![PriceTarget::Single(sol_token())];
    let mut state = LoopState::new();
    let mut channel = StateChannel::new(AddressMap::empty());

    process_cycle(
        &mut state,
        &mut channel,
        &selection,
        Ok(results_for(&[(SOL, "150.25")])),
        1,
    );
    process_cycle(
        &mut state,
        &mut channel,
        &selection,
        Err(timeout_failure()),
        2,
    );
    let action = process_cycle(
        &mut state,
        &mut channel,
        &selection,
        Err(timeout_failure()),
        3,
    );
    assert_eq!(action, CycleAction::Backoff { delay_secs: 60 });
    assert_eq!(state.failures, 2);
    match channel.latest().get(SOL).unwrap() {
        PairOrTokenPriceInfo::Token(tp) => {
            assert_eq!(tp.price_info.price.as_ref().unwrap().as_str(), "150.25");
            assert_eq!(tp.price_info.failure_count, 2);
        }
        other => panic!("expected a single-token entry, got {:?}", other),
    }
}

#[test]
fn selection_race_discards_stale_results() {
    let jlp_selection = vec![PriceTarget::Single(jlp_token())];
    let mut state = LoopState::new();
    let mut channel = StateChannel::new(AddressMap::empty());

    state.on_selection_change();
    assert_eq!(state.failures, 0);

    let stale_sol_results = results_for(&[(SOL, "150.25")]);
    process_cycle(&mut state, &mut channel, &jlp_selection, Ok(stale_sol_results), 5);
    assert_eq!(channel.latest().len(), 0);
    assert!(channel.latest().get(SOL).is_none());

    let fresh = results_for(&[(JLP, "4.56")]);
    process_cycle(&mut state, &mut channel, &jlp_selection, Ok(fresh), 6);
    assert_eq!(channel.latest().len(), 1);
    assert!(channel.latest().get(JLP).is_some());
    assert!(channel.latest().get(SOL).is_none());
}

#[test]
fn duplicate_selection_entries_publish_once() {
    let selection = vec![
        PriceTarget::Single(sol_token()),
        PriceTarget::Single(sol_token()),
    ];
    let mut state = LoopState::new();
    let mut channel = StateChannel::new(AddressMap::empty());
    process_cycle(
        &mut state,
        &mut channel,
        &selection,
        Ok(results_for(&[(SOL, "1.5")])),
        9,
    );
    assert_eq!(channel.latest().len(), 1);
}

#[test]
fn empty_selection_publishes_an_empty_snapshot() {
    let selection: Vec<PriceTarget> = Vec::new();
    let mut state = LoopState::new();
    let mut channel = StateChannel::new(AddressMap::empty());
    process_cycle(
        &mut state,
        &mut channel,
        &selection,
        Ok(results_for(&[(SOL, "1.5")])),
        9,
    );
    assert_eq!(channel.latest().len(), 0);
}

#[test]
fn position_target_publishes_a_perp_entry() {
    let selection = vec![PriceTarget::Position(
        String::from("WalletPublicKey111"),
        sol_token(),
    )];
    let perp_key = format!("{}_PERPS", SOL);
    let results = results_for(&[(perp_key.as_str(), "-12.3")]);

    let mut state = LoopState::new();
    let mut channel = StateChannel::new(AddressMap::empty());
    process_cycle(&mut state, &mut channel, &selection, Ok(results), 11);
    match channel.latest().get(&perp_key).unwrap() {
        PairOrTokenPriceInfo::Perp(pv) => {
            assert_eq!(pv.id, "SOL_PERPS");
            assert_eq!(pv.pnl_after_fees_usd.price.as_ref().unwrap().as_str(), "-12.3");
            let (label, text) = update_price_display(channel.latest().get(&perp_key).unwrap());
            assert_eq!(label, "SOL\u{1F13F}");
            assert_eq!(text, "-$12.3");
        }
        other => panic!("expected a position entry, got {:?}", other),
    }
}

#[test]
fn concurrent_observers_see_the_same_snapshot() {
    let selection = vec![PriceTarget::Single(sol_token())];
    let mut state = LoopState::new();
    let mut channel = StateChannel::new(AddressMap::empty());
    let mut o1 = channel.subscribe();
    let mut o2 = channel.subscribe();

    process_cycle(
        &mut state,
        &mut channel,
        &selection,
        Ok(results_for(&[(SOL, "150.25")])),
        4,
    );

    let s1 = channel.poll_change(&mut o1).unwrap();
    let s2 = channel.poll_change(&mut o2).unwrap();
    assert_eq!(s1.len(), s2.len());
    let (l1, t1) = update_price_display(s1.get(SOL).unwrap());
    let (l2, t2) = update_price_display(s2.get(SOL).unwrap());
    assert_eq!(l1, l2);
    assert_eq!(t1, t2);

    assert!(channel.poll_change(&mut o1).is_none());
}

#[test]
fn bursts_coalesce_to_the_latest_snapshot() {
    let selection = vec![PriceTarget::Single(sol_token())];
    let mut state = LoopState::new();
    let mut channel = StateChannel::new(AddressMap::empty());
    let mut observer = channel.subscribe();

    process_cycle(
        &mut state,
        &mut channel,
        &selection,
        Ok(results_for(&[(SOL, "150.25")])),
        1,
    );
    process_cycle(
        &mut state,
        &mut channel,
        &selection,
        Ok(results_for(&[(SOL, "151.00")])),
        2,
    );

    let snapshot = channel.poll_change(&mut observer).unwrap();
    match snapshot.get(SOL).unwrap() {
        PairOrTokenPriceInfo::Token(tp) => {
            assert_eq!(tp.price_info.price.as_ref().unwrap().as_str(), "151.00");
        }
        other => panic!("expected a single-token entry, got {:?}", other),
    }
    assert!(channel.poll_change(&mut observer).is_none());
}
