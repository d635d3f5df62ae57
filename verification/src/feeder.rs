//! What the polling loop publishes for each tracked target.

use vstd::prelude::*;

use crate::decimal::PriceValue;
use crate::token_registry::Token;

verus! {

/// The key of a single token, a pair, or a derived position.
pub type PairOrTokenAddress = String;

/// The latest knowledge about one tracked price.
#[derive(Debug)]
pub struct PriceInfo {
    /// The price from the last successful cycle; `None` until one
    /// succeeds.
    pub price: Option<PriceValue>,
    /// The price pre-rendered for display.
    pub formatted_price: String,
    /// When the price was produced, in milliseconds.
    pub updated_at: u64,
    /// How many cycles in a row have failed since the price was fresh.
    pub failure_count: u32,
}

impl PriceInfo {
    /// An equal copy.
    pub fn duplicate(&self) -> (r: PriceInfo)
        ensures
            r == *self,
    {
        PriceInfo {
            price: match &self.price {
                Some(p) => Some(p.duplicate()),
                None => None,
            },
            formatted_price: self.formatted_price.clone(),
            updated_at: self.updated_at,
            failure_count: self.failure_count,
        }
    }
}

impl Default for PriceInfo {
    /// No price yet: empty display text, epoch timestamp, no failures.
    fn default() -> (r: Self)
        ensures
            r.price is None,
            r.formatted_price@ == Seq::<char>::empty(),
            r.updated_at == 0,
            r.failure_count == 0,
    {
        PriceInfo {
            price: None,
            formatted_price: String::new(),
            updated_at: 0,
            failure_count: 0,
        }
    }
}

/// A single token and its price.
#[derive(Debug)]
pub struct TokenPriceInfo {
    pub token: Token,
    pub price_info: PriceInfo,
}

/// A pair and the price of the first token expressed in the second.
#[derive(Debug)]
pub struct PairPriceInfo {
    pub token_a: Token,
    pub token_b: Token,
    pub price_info: PriceInfo,
}

/// A derived position and its profit-and-loss value.
#[derive(Debug)]
pub struct PerpValueInfo {
    pub id: String,
    pub token: Token,
    pub pnl_after_fees_usd: PriceInfo,
}

/// One published entry, whatever kind of target produced it.
#[derive(Debug)]
pub enum PairOrTokenPriceInfo {
    Pair(PairPriceInfo),
    Token(TokenPriceInfo),
    Perp(PerpValueInfo),
}

impl PairOrTokenPriceInfo {
    /// The price information carried, whatever the kind.
    pub open spec fn spec_price_info(&self) -> PriceInfo {
        match self {
            PairOrTokenPriceInfo::Pair(p) => p.price_info,
            PairOrTokenPriceInfo::Token(t) => t.price_info,
            PairOrTokenPriceInfo::Perp(p) => p.pnl_after_fees_usd,
        }
    }

    /// The price information carried, whatever the kind.
    pub fn price_info(&self) -> (r: &PriceInfo)
        ensures
            *r == self.spec_price_info(),
    {
        match self {
            PairOrTokenPriceInfo::Pair(p) => &p.price_info,
            PairOrTokenPriceInfo::Token(t) => &t.price_info,
            PairOrTokenPriceInfo::Perp(p) => &p.pnl_after_fees_usd,
        }
    }

    /// An equal copy.
    pub fn duplicate(&self) -> (r: PairOrTokenPriceInfo)
        ensures
            r == *self,
    {
        match self {
            PairOrTokenPriceInfo::Pair(p) => PairOrTokenPriceInfo::Pair(
                PairPriceInfo {
                    token_a: p.token_a.duplicate(),
                    token_b: p.token_b.duplicate(),
                    price_info: p.price_info.duplicate(),
                },
            ),
            PairOrTokenPriceInfo::Token(t) => PairOrTokenPriceInfo::Token(
                TokenPriceInfo { token: t.token.duplicate(), price_info: t.price_info.duplicate() },
            ),
            PairOrTokenPriceInfo::Perp(p) => PairOrTokenPriceInfo::Perp(
                PerpValueInfo {
                    id: p.id.clone(),
                    token: p.token.duplicate(),
                    pnl_after_fees_usd: p.pnl_after_fees_usd.duplicate(),
                },
            ),
        }
    }
}

} // verus!
