//! Rendering prices for the tray title and menu labels.
//!
//! A price keeps its upstream decimal text; display truncates it to at most
//! seven characters and, depending on the kind of target, prefixes a dollar
//! sign or an explicit sign. While no price is known an ellipsis stands in.

use vstd::prelude::*;

use crate::decimal::PriceValue;
use crate::feeder::PairOrTokenPriceInfo;
use crate::fetcher::FetchError;

verus! {

/// The leading seven characters, or all of them when fewer.
pub open spec fn spec_truncate7(s: Seq<char>) -> Seq<char> {
    if s.len() <= 7 {
        s
    } else {
        s.subrange(0, 7)
    }
}

/// The text without its leading minus sign, if one stands there.
pub open spec fn spec_magnitude(s: Seq<char>) -> Seq<char> {
    if s.len() > 0 && s[0] == '-' {
        s.subrange(1, s.len() as int)
    } else {
        s
    }
}

/// Plain display: the decimal text cut to seven characters.
pub open spec fn spec_format_price(p: Seq<char>) -> Seq<char> {
    spec_truncate7(p)
}

/// Dollar display: `$` before the truncated magnitude.
pub open spec fn spec_format_price_with_dollar(p: Seq<char>) -> Seq<char> {
    if p.len() > 0 && p[0] == '-' {
        "$"@ + spec_truncate7(spec_magnitude(p))
    } else {
        "$"@ + spec_truncate7(p)
    }
}

/// Signed dollar display: `-$` or `+$` before the truncated magnitude.
pub open spec fn spec_format_price_with_signed_dollar(p: Seq<char>) -> Seq<char> {
    if p.len() > 0 && p[0] == '-' {
        "-$"@ + spec_truncate7(spec_magnitude(p))
    } else {
        "+$"@ + spec_truncate7(p)
    }
}

/// Formatting is a pure function of the price's text: the same numeric
/// price formatted twice yields the identical string.
pub proof fn lemma_format_deterministic(p1: Seq<char>, p2: Seq<char>)
    requires
        p1 == p2,
    ensures
        spec_format_price(p1) == spec_format_price(p2),
{
}

/// Formatting is idempotent: an already formatted price is short enough
/// that formatting it again changes nothing.
pub proof fn lemma_format_idempotent(p: Seq<char>)
    ensures
        spec_format_price(spec_format_price(p)) == spec_format_price(p),
{
}

/// Formats a price value into a user-friendly string.
pub fn format_price(price: &PriceValue) -> (r: String)
    ensures
        r@ == spec_format_price(price@),
{
    let s = price.as_str();
    let n = s.unicode_len();
    if n <= 7 {
        s.to_owned()
    } else {
        s.substring_char(0, 7).to_owned()
    }
}

/// Formats a price with a leading dollar sign; a minus sign is dropped.
pub fn format_price_with_dollar(price: &PriceValue) -> (r: String)
    ensures
        r@ == spec_format_price_with_dollar(price@),
{
    let s = price.as_str();
    let n = s.unicode_len();
    let neg = n > 0 && s.get_char(0) == '-';
    let mag = if neg {
        s.substring_char(1, n)
    } else {
        s
    };
    let m = mag.unicode_len();
    let trunc = if m <= 7 {
        mag
    } else {
        mag.substring_char(0, 7)
    };
    let mut out = String::from_str("$");
    out.append(trunc);
    out
}

/// Formats a signed value: `+$` for gains, `-$` for losses.
pub fn format_price_with_signed_dollar(price: &PriceValue) -> (r: String)
    ensures
        r@ == spec_format_price_with_signed_dollar(price@),
{
    let s = price.as_str();
    let n = s.unicode_len();
    let neg = n > 0 && s.get_char(0) == '-';
    let mag = if neg {
        s.substring_char(1, n)
    } else {
        s
    };
    let m = mag.unicode_len();
    let trunc = if m <= 7 {
        mag
    } else {
        mag.substring_char(0, 7)
    };
    let mut out = if neg {
        String::from_str("-$")
    } else {
        String::from_str("+$")
    };
    out.append(trunc);
    out
}

/// Formats a fetch outcome: the truncated price on success, an ellipsis
/// placeholder on failure.
pub fn format_price_result(result: Result<PriceValue, FetchError>) -> (r: Option<String>)
    ensures
        r is Some,
        result matches Ok(p) ==> (r matches Some(s) && s@ == spec_format_price(p@)),
        result is Err ==> (r matches Some(s) && s@ == "…"@),
{
    match result {
        Ok(p) => Some(format_price(&p)),
        Err(_) => Some(String::from_str("…")),
    }
}

/// The label of a published entry: `A/B` for a pair, the symbol for a
/// single token, the symbol with a position mark for a derived position.
pub open spec fn spec_label(info: PairOrTokenPriceInfo) -> Seq<char> {
    match info {
        PairOrTokenPriceInfo::Pair(p) => p.token_a.symbol.spec_str() + "/"@
            + p.token_b.symbol.spec_str(),
        PairOrTokenPriceInfo::Token(t) => t.token.symbol.spec_str(),
        PairOrTokenPriceInfo::Perp(p) => p.token.symbol.spec_str() + "\u{1F13F}"@,
    }
}

/// The display text of a published entry: the formatted price in the style
/// of its kind, or an ellipsis while no price is known.
pub open spec fn spec_price_text(info: PairOrTokenPriceInfo) -> Seq<char> {
    match info {
        PairOrTokenPriceInfo::Pair(p) => match p.price_info.price {
            Some(v) => spec_format_price(v@),
            None => "…"@,
        },
        PairOrTokenPriceInfo::Token(t) => match t.price_info.price {
            Some(v) => spec_format_price_with_dollar(v@),
            None => "…"@,
        },
        PairOrTokenPriceInfo::Perp(p) => match p.pnl_after_fees_usd.price {
            Some(v) => spec_format_price_with_signed_dollar(v@),
            None => "…"@,
        },
    }
}

/// The label and display text of one published entry.
pub fn update_price_display(price_info: &PairOrTokenPriceInfo) -> (r: (String, String))
    ensures
        r.0@ == spec_label(*price_info),
        r.1@ == spec_price_text(*price_info),
{
    match price_info {
        PairOrTokenPriceInfo::Pair(p) => {
            let mut label = String::from_str(p.token_a.symbol.as_str());
            label.append("/");
            label.append(p.token_b.symbol.as_str());
            let text = match &p.price_info.price {
                Some(v) => format_price(v),
                None => String::from_str("…"),
            };
            (label, text)
        },
        PairOrTokenPriceInfo::Token(t) => {
            let label = String::from_str(t.token.symbol.as_str());
            let text = match &t.price_info.price {
                Some(v) => format_price_with_dollar(v),
                None => String::from_str("…"),
            };
            (label, text)
        },
        PairOrTokenPriceInfo::Perp(p) => {
            let mut label = String::from_str(p.token.symbol.as_str());
            label.append("\u{1F13F}");
            let text = match &p.pnl_after_fees_usd.price {
                Some(v) => format_price_with_signed_dollar(v),
                None => String::from_str("…"),
            };
            (label, text)
        },
    }
}

} // verus!
