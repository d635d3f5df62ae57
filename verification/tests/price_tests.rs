use catbot::decimal::PriceValue;
use catbot::feeder::{PairOrTokenPriceInfo, PriceInfo, TokenPriceInfo};
use catbot::fetcher::{FetchError, FetchErrorKind};
use catbot::formatter::{
    format_price, format_price_result, format_price_with_dollar,
    format_price_with_signed_dollar, update_price_display,
};
use catbot::jup::TokenSymbol;
use catbot::token_registry::TokenRegistry;

#[test]
fn parse_accepts_finite_decimals() {
    for ok in ["150.25", "0.0213", "-12.5", "0", "7", "-0.0001", "123456789.000000001"] {
        let v = PriceValue::parse(ok).expect(ok);
        assert_eq!(v.as_str(), ok);
    }
}

#[test]
fn parse_rejects_non_decimals() {
    for bad in ["", "-", ".", "1.", ".5", "1e5", "inf", "NaN", "12.3.4", "+5", "1 2", "--1"] {
        assert!(PriceValue::parse(bad).is_none(), "accepted {:?}", bad);
    }
}

#[test]
fn sign_is_read_from_the_leading_character() {
    assert!(PriceValue::parse("-0.5").unwrap().is_negative());
    assert!(!PriceValue::parse("0.5").unwrap().is_negative());
    assert!(!PriceValue::parse("0").unwrap().is_negative());
}

#[test]
fn every_entry_kind_carries_its_price_info() {
    let registry = TokenRegistry::new();
    let sol = registry.get_by_symbol(&TokenSymbol::SOL).unwrap().duplicate();
    let info = PriceInfo {
        price: Some(PriceValue::parse("1.25").unwrap()),
        formatted_price: String::from("1.25"),
        updated_at: 3,
        failure_count: 0,
    };
    let entry = PairOrTokenPriceInfo::Token(TokenPriceInfo {
        token: sol,
        price_info: info,
    });
    assert_eq!(entry.price_info().updated_at, 3);
    assert_eq!(entry.price_info().price.as_ref().unwrap().as_str(), "1.25");
}

#[test]
fn format_truncates_to_seven_characters() {
    let v = PriceValue::parse("123.456789").unwrap();
    assert_eq!(format_price(&v), "123.456");
    let v = PriceValue::parse("150.25").unwrap();
    assert_eq!(format_price(&v), "150.25");
}

#[test]
fn formatting_twice_is_identical() {
    let v = PriceValue::parse("150.25").unwrap();
    let first = format_price(&v);
    let second = format_price(&v);
    assert_eq!(first, second);
    let w = PriceValue::parse("150.25").unwrap();
    assert_eq!(format_price(&w), first);
}

#[test]
fn dollar_format_keeps_sign_rules() {
    let v = PriceValue::parse("150.25").unwrap();
    assert_eq!(format_price_with_dollar(&v), "$150.25");
    let neg = PriceValue::parse("-150.25").unwrap();
    assert_eq!(format_price_with_dollar(&neg), "$150.25");
}

#[test]
fn signed_dollar_format_marks_gain_and_loss() {
    let gain = PriceValue::parse("12.3").unwrap();
    assert_eq!(format_price_with_signed_dollar(&gain), "+$12.3");
    let loss = PriceValue::parse("-12.3").unwrap();
    assert_eq!(format_price_with_signed_dollar(&loss), "-$12.3");
}

#[test]
fn result_formatting_falls_back_to_ellipsis() {
    let ok = Ok(PriceValue::parse("1.5").unwrap());
    assert_eq!(format_price_result(ok).unwrap(), "1.5");
    let err: Result<PriceValue, FetchError> = Err(FetchError {
        kind: FetchErrorKind::Timeout,
        attempts: 3,
    });
    assert_eq!(format_price_result(err).unwrap(), "…");
}

#[test]
fn display_of_token_entry_uses_dollar_and_placeholder() {
    let registry = TokenRegistry::new();
    let sol = registry.get_by_symbol(&TokenSymbol::SOL).unwrap().duplicate();

    let priced = PairOrTokenPriceInfo::Token(TokenPriceInfo {
        token: sol.duplicate(),
        price_info: PriceInfo {
            price: Some(PriceValue::parse("150.25").unwrap()),
            formatted_price: String::from("150.25"),
            updated_at: 7,
            failure_count: 0,
        },
    });
    let (label, text) = update_price_display(&priced);
    assert_eq!(label, "SOL");
    assert_eq!(text, "$150.25");

    let pending = PairOrTokenPriceInfo::Token(TokenPriceInfo {
        token: sol,
        price_info: PriceInfo {
            price: None,
            formatted_price: String::new(),
            updated_at: 0,
            failure_count: 2,
        },
    });
    let (_, text) = update_price_display(&pending);
    assert_eq!(text, "…");
}
