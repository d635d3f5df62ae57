//! The upstream quote API: request building and response checking.
//!
//! The transport itself (HTTP, JSON framing) lives outside the library;
//! what stands here is everything decidable about a quote exchange: which
//! URL a request takes, and what a well-formed response must carry for the
//! keys that were asked.

use vstd::prelude::*;

use crate::address_map::AddressMap;
use crate::decimal::{is_finite_decimal, PriceValue};
use crate::fetcher::{FetchErrorKind, RetrySettings, RetryState};
use crate::token_registry::Token;

verus! {

/// An upstream token identifier (a mint address).
#[derive(Debug, PartialEq, Eq, Hash)]
pub enum TokenAddress {
    Address(String),
}

/// The symbols of the built-in token catalog.
#[derive(Debug, Copy, Clone, PartialEq, Eq, Hash, Structural)]
#[allow(non_camel_case_types)]
pub enum TokenSymbol {
    SOL,
    JLP,
    JUP,
    USDC,
    laineSOL,
}

impl Default for TokenSymbol {
    fn default() -> (r: Self)
        ensures
            r == TokenSymbol::SOL,
    {
        TokenSymbol::SOL
    }
}

impl TokenSymbol {
    /// The display form of the symbol, upper-cased.
    pub open spec fn spec_str(self) -> Seq<char> {
        match self {
            TokenSymbol::SOL => "SOL"@,
            TokenSymbol::JLP => "JLP"@,
            TokenSymbol::JUP => "JUP"@,
            TokenSymbol::USDC => "USDC"@,
            TokenSymbol::laineSOL => "LAINESOL"@,
        }
    }

    /// The display form of the symbol, upper-cased.
    pub fn as_str(&self) -> (r: &'static str)
        ensures
            r@ == self.spec_str(),
    {
        match self {
            TokenSymbol::SOL => "SOL",
            TokenSymbol::JLP => "JLP",
            TokenSymbol::JUP => "JUP",
            TokenSymbol::USDC => "USDC",
            TokenSymbol::laineSOL => "LAINESOL",
        }
    }
}

/// One row of an upstream response: the quoted address, the price as a
/// decimal string, and the upstream's price-type tag.
#[derive(Debug)]
pub struct PriceEntry {
    pub address: String,
    pub price: String,
    pub price_type: String,
}

/// The body of an upstream response, reduced to its rows.
#[derive(Debug)]
pub struct PriceResponse {
    pub entries: Vec<PriceEntry>,
}

/// Some row quotes `k`.
pub open spec fn response_has(entries: Seq<PriceEntry>, k: Seq<char>) -> bool {
    exists|i: int| 0 <= i < entries.len() && (#[trigger] entries[i]).address@ == k
}

/// `entries[i]` is the first row quoting `k`.
pub open spec fn first_entry_match(entries: Seq<PriceEntry>, k: Seq<char>, i: int) -> bool {
    &&& 0 <= i < entries.len()
    &&& entries[i].address@ == k
    &&& forall|j: int| 0 <= j < i ==> (#[trigger] entries[j]).address@ != k
}

/// The raw price text of the first row quoting `k`.
pub open spec fn response_price(entries: Seq<PriceEntry>, k: Seq<char>) -> Seq<char> {
    entries[choose|i: int| first_entry_match(entries, k, i)].price@
}

/// The response serves `k`: a row quotes it and its price text is a finite
/// decimal.
pub open spec fn key_ok(entries: Seq<PriceEntry>, k: Seq<char>) -> bool {
    response_has(entries, k) && is_finite_decimal(response_price(entries, k))
}

/// The set of keys a request named.
pub open spec fn requested_keys(reqs: Seq<String>, n: int) -> Set<Seq<char>> {
    Set::new(|k: Seq<char>| exists|j: int| 0 <= j < n && (#[trigger] reqs[j])@ == k)
}

proof fn lemma_first_entry_unique(entries: Seq<PriceEntry>, k: Seq<char>, i1: int, i2: int)
    requires
        first_entry_match(entries, k, i1),
        first_entry_match(entries, k, i2),
    ensures
        i1 == i2,
{
}

/// Finds the first row quoting `k`.
fn find_entry<'a>(entries: &'a Vec<PriceEntry>, k: &str) -> (r: Option<&'a PriceEntry>)
    ensures
        match r {
            Some(e) => response_has(entries@, k@) && e.price@ == response_price(entries@, k@),
            None => !response_has(entries@, k@),
        },
{
    let n = entries.len();
    let mut i: usize = 0;
    while i < n
        invariant
            i <= n,
            n == entries@.len(),
            forall|j: int| 0 <= j < i ==> (#[trigger] entries@[j]).address@ != k@,
        decreases n - i,
    {
        if crate::strutil::str_eq(entries[i].address.as_str(), k) {
            proof {
                assert(first_entry_match(entries@, k@, i as int));
                let w = choose|w: int| first_entry_match(entries@, k@, w);
                lemma_first_entry_unique(entries@, k@, w, i as int);
            }
            return Some(&entries[i]);
        }
        i += 1;
    }
    None
}

/// A dedicated struct for fetching prices.
#[derive(Debug)]
pub struct PriceFetcher {
    pub settings: RetrySettings,
}

impl Default for PriceFetcher {
    /// A fetcher with the default retry settings.
    fn default() -> (r: Self)
        ensures
            r.settings.max_attempts == 3,
            r.settings.timeout_secs == 10,
    {
        PriceFetcher { settings: RetrySettings::default() }
    }
}

impl PriceFetcher {
    /// Creates a new `PriceFetcher` with default settings.
    pub fn new() -> (r: Self)
        ensures
            r.settings.max_attempts == 3,
            r.settings.timeout_secs == 10,
            r.settings.wf(),
    {
        PriceFetcher { settings: RetrySettings::default() }
    }

    /// Creates a new `PriceFetcher` with custom settings.
    pub fn with_settings(settings: RetrySettings) -> (r: Self)
        ensures
            r.settings == settings,
    {
        PriceFetcher { settings }
    }

    /// A fresh attempt budget under this fetcher's settings.
    pub fn begin_attempts(&self) -> (r: RetryState)
        ensures
            r.attempts_made == 0,
            r.max_attempts == self.settings.max_attempts,
            self.settings.wf() ==> r.wf(),
    {
        RetryState::begin(&self.settings)
    }

    /// The query URL asking for one token's price.
    pub fn single_url(&self, address: &str) -> (r: String)
        ensures
            r@ == "https://api.jup.ag/price/v2?ids="@ + address@,
    {
        let mut out = String::from_str("https://api.jup.ag/price/v2?ids=");
        out.append(address);
        out
    }

    /// The query URL asking for `base` priced in `vs` terms.
    pub fn pair_url(&self, base: &str, vs: &str) -> (r: String)
        ensures
            r@ == "https://api.jup.ag/price/v2?ids="@ + base@ + "&vsToken="@ + vs@,
    {
        let mut out = String::from_str("https://api.jup.ag/price/v2?ids=");
        out.append(base);
        out.append("&vsToken=");
        out.append(vs);
        out
    }

    /// The query URL asking for many tokens at once, comma-separated.
    pub fn many_url(&self, addresses: &Vec<String>) -> (r: String)
        ensures
            r@ == "https://api.jup.ag/price/v2?ids="@ + spec_join_comma(addresses.deep_view()),
    {
        let joined = join_comma(addresses);
        let mut out = String::from_str("https://api.jup.ag/price/v2?ids=");
        out.append(joined.as_str());
        out
    }

    /// The query URL a selected token list calls for: a single token's URL,
    /// or the pair URL with the second token as the comparison currency.
    pub fn url_for_tokens(&self, tokens: &Vec<Token>) -> (r: String)
        requires
            1 <= tokens@.len() <= 2,
        ensures
            tokens@.len() == 1 ==> r@ == "https://api.jup.ag/price/v2?ids="@
                + tokens@[0].address@,
            tokens@.len() == 2 ==> r@ == "https://api.jup.ag/price/v2?ids="@
                + tokens@[0].address@ + "&vsToken="@ + tokens@[1].address@,
    {
        if tokens.len() == 1 {
            self.single_url(tokens[0].address.as_str())
        } else {
            self.pair_url(tokens[0].address.as_str(), tokens[1].address.as_str())
        }
    }

    /// Checks an upstream response against the keys that were requested.
    ///
    /// Succeeds if and only if every requested key is quoted by a row whose
    /// price text is a finite decimal; the result then binds exactly the
    /// requested keys. Otherwise the first requested key in order that is
    /// not served decides the error: a missing row is `NotFound`, an
    /// unparsable price is `ParseError` with the raw text.
    pub fn process_response(&self, requested: &Vec<String>, response: &PriceResponse) -> (r:
        Result<AddressMap<PriceValue>, FetchErrorKind>)
        ensures
            match r {
                Ok(m) => {
                    &&& m.wf()
                    &&& forall|i: int|
                        0 <= i < requested@.len() ==> key_ok(
                            response.entries@,
                            (#[trigger] requested@[i])@,
                        )
                    &&& m@.dom() == requested_keys(requested@, requested@.len() as int)
                    &&& forall|k: Seq<char>|
                        m@.dom().contains(k) ==> (#[trigger] m@[k])@ == response_price(
                            response.entries@,
                            k,
                        ) && m@[k].wf()
                },
                Err(FetchErrorKind::NotFound(k)) => exists|i: int|
                    {
                        &&& 0 <= i < requested@.len()
                        &&& (#[trigger] requested@[i])@ == k@
                        &&& !response_has(response.entries@, k@)
                        &&& forall|j: int|
                            0 <= j < i ==> key_ok(response.entries@, (#[trigger] requested@[j])@)
                    },
                Err(FetchErrorKind::ParseError(k, raw)) => exists|i: int|
                    {
                        &&& 0 <= i < requested@.len()
                        &&& (#[trigger] requested@[i])@ == k@
                        &&& response_has(response.entries@, k@)
                        &&& !is_finite_decimal(response_price(response.entries@, k@))
                        &&& raw@ == response_price(response.entries@, k@)
                        &&& forall|j: int|
                            0 <= j < i ==> key_ok(response.entries@, (#[trigger] requested@[j])@)
                    },
                Err(_) => false,
            },
    {
        let n = requested.len();
        let mut m = AddressMap::<PriceValue>::empty();
        let mut i: usize = 0;
        while i < n
            invariant
                i <= n,
                n == requested@.len(),
                m.wf(),
                forall|j: int|
                    0 <= j < i ==> key_ok(response.entries@, (#[trigger] requested@[j])@),
                m@.dom() == requested_keys(requested@, i as int),
                forall|k: Seq<char>|
                    m@.dom().contains(k) ==> (#[trigger] m@[k])@ == response_price(
                        response.entries@,
                        k,
                    ) && m@[k].wf(),
            decreases n - i,
        {
            let key = &requested[i];
            if !m.contains_key(key.as_str()) {
                match find_entry(&response.entries, key.as_str()) {
                    None => {
                        return Err(FetchErrorKind::NotFound(key.clone()));
                    },
                    Some(e) => {
                        match PriceValue::parse(e.price.as_str()) {
                            None => {
                                return Err(
                                    FetchErrorKind::ParseError(key.clone(), e.price.clone()),
                                );
                            },
                            Some(v) => {
                                m.insert(key.clone(), v);
                            },
                        }
                    },
                }
            }
            proof {
                assert(m@.dom() =~= requested_keys(requested@, i + 1));
            }
            i += 1;
        }
        Ok(m)
    }
}

/// The price bound to `address`, or `NotFound` when the map lacks it.
pub fn take_price(m: &AddressMap<PriceValue>, address: &str) -> (r: Result<
    PriceValue,
    FetchErrorKind,
>)
    requires
        m.wf(),
    ensures
        m@.contains_key(address@) ==> (r matches Ok(v) && v == m@[address@]),
        !m@.contains_key(address@) ==> (r matches Err(FetchErrorKind::NotFound(k)) && k@
            == address@),
{
    match m.get(address) {
        Some(v) => Ok(v.duplicate()),
        None => Err(FetchErrorKind::NotFound(String::from_str(address))),
    }
}

/// Some element of `s` reads `k`.
pub open spec fn seq_has_key(s: Seq<String>, k: Seq<char>) -> bool {
    exists|i: int| 0 <= i < s.len() && (#[trigger] s[i])@ == k
}

/// The subsequence of the first `n` keys that keeps the first occurrence
/// of each key.
pub open spec fn spec_dedup(keys: Seq<String>, n: int) -> Seq<String>
    decreases n,
{
    if n <= 0 {
        Seq::empty()
    } else if seq_has_key(keys.take(n - 1), keys[n - 1]@) {
        spec_dedup(keys, n - 1)
    } else {
        spec_dedup(keys, n - 1).push(keys[n - 1])
    }
}

/// Drops repeated keys before a batch query: the first occurrence of each
/// key stays, in order, and the result binds the same keys, each exactly
/// once.
pub fn dedup_keys(keys: &Vec<String>) -> (r: Vec<String>)
    ensures
        r@ == spec_dedup(keys@, keys@.len() as int),
        forall|i1: int, i2: int| 0 <= i1 < i2 < r@.len() ==> (#[trigger] r@[i1])@ != (
        #[trigger] r@[i2])@,
        forall|i: int| 0 <= i < r@.len() ==> seq_has_key(keys@, (#[trigger] r@[i])@),
        forall|j: int| 0 <= j < keys@.len() ==> seq_has_key(r@, (#[trigger] keys@[j])@),
{
    let n = keys.len();
    let mut r: Vec<String> = Vec::new();
    let mut i: usize = 0;
    while i < n
        invariant
            i <= n,
            n == keys@.len(),
            r@ == spec_dedup(keys@, i as int),
            forall|i1: int, i2: int| 0 <= i1 < i2 < r@.len() ==> (#[trigger] r@[i1])@ != (
            #[trigger] r@[i2])@,
            forall|k: int| 0 <= k < r@.len() ==> seq_has_key(keys@.take(i as int), (#[trigger] r@[k])@),
            forall|j: int| 0 <= j < i ==> seq_has_key(r@, (#[trigger] keys@[j])@),
        decreases n - i,
    {
        let key = &keys[i];
        let ghost r0 = r@;
        let mut seen = false;
        let m = r.len();
        let mut k: usize = 0;
        while k < m
            invariant
                k <= m,
                m == r@.len(),
                r@ == r0,
                seen <==> exists|k2: int| 0 <= k2 < k && (#[trigger] r@[k2])@ == key@,
            decreases m - k,
        {
            if crate::strutil::str_eq(r[k].as_str(), key.as_str()) {
                seen = true;
            }
            k += 1;
        }
        proof {
            if seen {
                let w = choose|w: int| 0 <= w < r0.len() && (#[trigger] r0[w])@ == key@;
                let j = choose|j: int|
                    0 <= j < i && (#[trigger] keys@.take(i as int)[j])@ == key@;
                assert(keys@.take(i as int)[j] == keys@[j]);
                assert(seq_has_key(keys@.take(i as int), key@));
            } else if seq_has_key(keys@.take(i as int), key@) {
                let j = choose|j: int|
                    0 <= j < i && (#[trigger] keys@.take(i as int)[j])@ == key@;
                assert(keys@.take(i as int)[j] == keys@[j]);
                assert(seq_has_key(r@, keys@[j]@));
                assert(false);
            }
        }
        if !seen {
            r.push(key.clone());
        }
        proof {
            assert(r@ == spec_dedup(keys@, i + 1));
            assert forall|k: int| 0 <= k < r@.len() implies seq_has_key(
                keys@.take(i + 1),
                (#[trigger] r@[k])@,
            ) by {
                if k < r0.len() {
                    let w = choose|w: int|
                        0 <= w < i && (#[trigger] keys@.take(i as int)[w])@ == r0[k]@;
                    assert(keys@.take(i + 1)[w] == keys@[w]);
                    assert(keys@.take(i as int)[w] == keys@[w]);
                } else {
                    assert(keys@.take(i + 1)[i as int] == keys@[i as int]);
                }
            }
            assert forall|j: int| 0 <= j < i + 1 implies seq_has_key(
                r@,
                (#[trigger] keys@[j])@,
            ) by {
                if j < i {
                    let w = choose|w: int| 0 <= w < r0.len() && (#[trigger] r0[w])@ == keys@[j]@;
                    assert(r@[w]@ == keys@[j]@);
                } else {
                    if seen {
                        let w = choose|w: int| 0 <= w < r0.len() && (#[trigger] r0[w])@ == key@;
                        assert(r@[w]@ == key@);
                    } else {
                        assert(r@[r@.len() - 1]@ == key@);
                    }
                }
            }
        }
        i += 1;
    }
    proof {
        assert(keys@.take(n as int) =~= keys@);
        assert forall|k: int| 0 <= k < r@.len() implies seq_has_key(
            keys@,
            (#[trigger] r@[k])@,
        ) by {
            assert(seq_has_key(keys@.take(n as int), r@[k]@));
        }
    }
    r
}

/// The request's id list: the addresses joined with commas.
pub open spec fn spec_join_comma(ids: Seq<Seq<char>>) -> Seq<char>
    decreases ids.len(),
{
    if ids.len() == 0 {
        Seq::empty()
    } else if ids.len() == 1 {
        ids[0]
    } else {
        spec_join_comma(ids.drop_last()) + ","@ + ids.last()
    }
}

/// Joins addresses with commas.
pub fn join_comma(ids: &Vec<String>) -> (r: String)
    ensures
        r@ == spec_join_comma(ids.deep_view()),
{
    let n = ids.len();
    let mut out = String::new();
    let mut i: usize = 0;
    while i < n
        invariant
            i <= n,
            n == ids@.len(),
            out@ == spec_join_comma(ids.deep_view().take(i as int)),
        decreases n - i,
    {
        if i > 0 {
            out.append(",");
        }
        out.append(ids[i].as_str());
        proof {
            let dv = ids.deep_view();
            assert(dv.take(i + 1).drop_last() =~= dv.take(i as int));
            assert(dv.take(i + 1).last() == dv[i as int]);
            if i == 0 {
                assert(out@ =~= dv.take(1)[0]);
            }
        }
        i += 1;
    }
    proof {
        assert(ids.deep_view().take(n as int) =~= ids.deep_view());
    }
    out
}

} // verus!
