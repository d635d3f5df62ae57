//! Core of a tray-style price ticker: a registry of known tokens, a price
//! fetch client with bounded retry, a polling-cycle state machine, and a
//! single-writer / multi-reader snapshot channel.

use vstd::prelude::*;

pub mod address_map;
pub mod channel;
pub mod commands;
pub mod decimal;
pub mod feeder;
pub mod fetcher;
pub mod formatter;
pub mod jup;
pub mod runner;
pub mod settings;
pub mod strutil;
pub mod time;
pub mod token_registry;

use token_registry::Token;

verus! {

/// What the user tracks: one token, a pair priced one in the other, or a
/// derived position keyed by a wallet.
#[derive(Debug)]
pub enum PriceTarget {
    Single(Token),
    Pair(Token, Token),
    Position(String, Token),
}

impl PriceTarget {
    /// The join key between fetch results and subscriptions: the single
    /// address, the pair's addresses joined with `'_'`, or the address
    /// with a position suffix.
    pub open spec fn spec_key(&self) -> Seq<char> {
        match self {
            PriceTarget::Single(t) => t.address@,
            PriceTarget::Pair(a, b) => a.address@ + "_"@ + b.address@,
            PriceTarget::Position(_wallet, t) => t.address@ + "_PERPS"@,
        }
    }

    /// The join key between fetch results and subscriptions.
    pub fn key(&self) -> (r: String)
        ensures
            r@ == self.spec_key(),
    {
        match self {
            PriceTarget::Single(t) => String::from_str(t.address.as_str()),
            PriceTarget::Pair(a, b) => {
                let mut s = String::from_str(a.address.as_str());
                s.append("_");
                s.append(b.address.as_str());
                s
            },
            PriceTarget::Position(_wallet, t) => {
                let mut s = String::from_str(t.address.as_str());
                s.append("_PERPS");
                s
            },
        }
    }

    /// An equal copy.
    pub fn duplicate(&self) -> (r: PriceTarget)
        ensures
            r == *self,
    {
        match self {
            PriceTarget::Single(t) => PriceTarget::Single(t.duplicate()),
            PriceTarget::Pair(a, b) => PriceTarget::Pair(a.duplicate(), b.duplicate()),
            PriceTarget::Position(wallet, t) => PriceTarget::Position(
                wallet.clone(),
                t.duplicate(),
            ),
        }
    }
}

/// A token address that holds no underscore, as mint addresses do; the
/// key scheme rests on it.
pub open spec fn spec_plain_address(t: Token) -> bool {
    forall|i: int| 0 <= i < t.address@.len() ==> t.address@[i] != '_'
}

/// Keys are collision-free across target kinds: with an underscore-free
/// address, a single token's key never reads like a pair's or a
/// position's key, whose underscore betrays them.
pub proof fn lemma_single_key_distinct(x: Token, t2: PriceTarget)
    requires
        spec_plain_address(x),
        !(t2 is Single),
    ensures
        PriceTarget::Single(x).spec_key() != t2.spec_key(),
{
    match t2 {
        PriceTarget::Single(_t) => {
        },
        PriceTarget::Pair(a, b) => {
            let k2 = a.address@ + "_"@ + b.address@;
            reveal_strlit("_");
            assert(k2[a.address@.len() as int] == '_');
            if PriceTarget::Single(x).spec_key() == k2 {
                assert(x.address@[a.address@.len() as int] == '_');
            }
        },
        PriceTarget::Position(_wallet, t) => {
            let k2 = t.address@ + "_PERPS"@;
            reveal_strlit("_PERPS");
            assert(k2[t.address@.len() as int] == '_');
            if PriceTarget::Single(x).spec_key() == k2 {
                assert(x.address@[t.address@.len() as int] == '_');
            }
        },
    }
}

/// The keys of the first `n` targets of a selection.
pub open spec fn selection_keys(sel: Seq<PriceTarget>, n: int) -> Set<Seq<char>> {
    Set::new(|k: Seq<char>| exists|i: int| 0 <= i < n && (#[trigger] sel[i]).spec_key() == k)
}

/// The composite key the tray currently follows.
#[derive(Debug)]
pub struct SelectedTokenOrPair {
    pub address: String,
}

impl Default for SelectedTokenOrPair {
    /// No selection yet.
    fn default() -> (r: Self)
        ensures
            r.address@ == Seq::<char>::empty(),
    {
        SelectedTokenOrPair { address: String::new() }
    }
}

} // verus!
