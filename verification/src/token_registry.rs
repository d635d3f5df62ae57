//! The catalog of known tokens and the composite-key conventions.
//!
//! A registry is built once and read only; composite keys join the parts of
//! a pair with `'_'`, so splitting a key at its underscores recovers the
//! member tokens.

use vstd::prelude::*;

use crate::jup::TokenSymbol;
use crate::strutil::{find_char_from, first_char_or_end, str_eq};

verus! {

/// One catalog entry; immutable once loaded.
#[derive(Debug)]
pub struct Token {
    pub address: String,
    pub symbol: TokenSymbol,
    pub name: String,
    pub decimals: u8,
}

impl Token {
    /// An equal copy.
    pub fn duplicate(&self) -> (t: Token)
        ensures
            t == *self,
    {
        Token {
            address: self.address.clone(),
            symbol: self.symbol,
            name: self.name.clone(),
            decimals: self.decimals,
        }
    }
}

/// Why a composite key could not be resolved.
#[derive(Debug, PartialEq, Eq, Structural)]
pub enum RegistryError {
    /// The key holds no `'_'`, so it does not name a pair.
    NotPair,
    /// A component of the key is not a known token address.
    Malformed,
}

/// `ts[i]` is the first token whose address reads `a`.
pub open spec fn first_address_match(ts: Seq<Token>, a: Seq<char>, i: int) -> bool {
    &&& 0 <= i < ts.len()
    &&& ts[i].address@ == a
    &&& forall|j: int| 0 <= j < i ==> (#[trigger] ts[j]).address@ != a
}

pub open spec fn has_address(ts: Seq<Token>, a: Seq<char>) -> bool {
    exists|i: int| 0 <= i < ts.len() && (#[trigger] ts[i]).address@ == a
}

/// `ts[i]` is the first token carrying symbol `sym`.
pub open spec fn first_symbol_match(ts: Seq<Token>, sym: TokenSymbol, i: int) -> bool {
    &&& 0 <= i < ts.len()
    &&& ts[i].symbol == sym
    &&& forall|j: int| 0 <= j < i ==> (#[trigger] ts[j]).symbol != sym
}

pub open spec fn has_symbol(ts: Seq<Token>, sym: TokenSymbol) -> bool {
    exists|i: int| 0 <= i < ts.len() && (#[trigger] ts[i]).symbol == sym
}

#[derive(Debug)]
pub struct TokenRegistry {
    pub tokens: Vec<Token>,
    pub stable_tokens: Vec<Token>,
}

impl TokenRegistry {
    /// Builds the registry over the built-in catalog.
    pub fn new() -> (r: TokenRegistry)
        ensures
            r.tokens@.len() == 5,
            r.tokens@[0].address@ == "So11111111111111111111111111111111111111112"@,
            r.tokens@[0].symbol == TokenSymbol::SOL,
            r.tokens@[1].address@ == "27G8MtK7VtTcCHkpASjSDdkWWYfoqT6ggEuKidVJidD4"@,
            r.tokens@[1].symbol == TokenSymbol::JLP,
            r.tokens@[2].address@ == "JUPyiwrYJFskUPiHa7hkeR8VUtAeFoSYbKedZNsDvCN"@,
            r.tokens@[2].symbol == TokenSymbol::JUP,
            r.tokens@[3].address@ == "EPjFWdd5AufqSSqeM2qN1xzybapC8G4wEGGkZwyTDt1v"@,
            r.tokens@[3].symbol == TokenSymbol::USDC,
            r.tokens@[4].address@ == "LAinEtNLgpmCP9Rvsf5Hn8W6EhNiKLZQti1xfWMLy6X"@,
            r.tokens@[4].symbol == TokenSymbol::laineSOL,
            r.stable_tokens@.len() == 1,
            r.stable_tokens@[0].address@ == "EPjFWdd5AufqSSqeM2qN1xzybapC8G4wEGGkZwyTDt1v"@,
            r.stable_tokens@[0].symbol == TokenSymbol::USDC,
    {
        let mut tokens: Vec<Token> = Vec::new();
        tokens.push(
            Token {
                address: String::from_str("So11111111111111111111111111111111111111112"),
                symbol: TokenSymbol::SOL,
                name: String::from_str("Solana"),
                decimals: 9,
            },
        );
        tokens.push(
            Token {
                address: String::from_str("27G8MtK7VtTcCHkpASjSDdkWWYfoqT6ggEuKidVJidD4"),
                symbol: TokenSymbol::JLP,
                name: String::from_str("Jupiter Perps LP"),
                decimals: 6,
            },
        );
        tokens.push(
            Token {
                address: String::from_str("JUPyiwrYJFskUPiHa7hkeR8VUtAeFoSYbKedZNsDvCN"),
                symbol: TokenSymbol::JUP,
                name: String::from_str("Jupiter"),
                decimals: 6,
            },
        );
        tokens.push(
            Token {
                address: String::from_str("EPjFWdd5AufqSSqeM2qN1xzybapC8G4wEGGkZwyTDt1v"),
                symbol: TokenSymbol::USDC,
                name: String::from_str("USD Coin"),
                decimals: 6,
            },
        );
        tokens.push(
            Token {
                address: String::from_str("LAinEtNLgpmCP9Rvsf5Hn8W6EhNiKLZQti1xfWMLy6X"),
                symbol: TokenSymbol::laineSOL,
                name: String::from_str("Laine Staked SOL"),
                decimals: 9,
            },
        );
        let mut stable_tokens: Vec<Token> = Vec::new();
        stable_tokens.push(
            Token {
                address: String::from_str("EPjFWdd5AufqSSqeM2qN1xzybapC8G4wEGGkZwyTDt1v"),
                symbol: TokenSymbol::USDC,
                name: String::from_str("USD Coin"),
                decimals: 6,
            },
        );
        TokenRegistry { tokens, stable_tokens }
    }

    /// Builds a registry over a caller-supplied catalog.
    pub fn from_catalog(tokens: Vec<Token>, stable_tokens: Vec<Token>) -> (r: TokenRegistry)
        ensures
            r.tokens == tokens,
            r.stable_tokens == stable_tokens,
    {
        TokenRegistry { tokens, stable_tokens }
    }

    /// The first token whose address reads `address`, if any.
    pub fn get_by_address(&self, address: &str) -> (r: Option<&Token>)
        ensures
            match r {
                Some(t) => exists|i: int|
                    #[trigger] first_address_match(self.tokens@, address@, i) && *t
                        == self.tokens@[i],
                None => !has_address(self.tokens@, address@),
            },
    {
        let n = self.tokens.len();
        let mut i: usize = 0;
        while i < n
            invariant
                i <= n,
                n == self.tokens@.len(),
                forall|j: int| 0 <= j < i ==> (#[trigger] self.tokens@[j]).address@ != address@,
            decreases n - i,
        {
            if str_eq(self.tokens[i].address.as_str(), address) {
                proof {
                    assert(first_address_match(self.tokens@, address@, i as int));
                }
                return Some(&self.tokens[i]);
            }
            i += 1;
        }
        None
    }

    /// The first token carrying `symbol`, if any.
    pub fn get_by_symbol(&self, symbol: &TokenSymbol) -> (r: Option<&Token>)
        ensures
            match r {
                Some(t) => exists|i: int|
                    #[trigger] first_symbol_match(self.tokens@, *symbol, i) && *t
                        == self.tokens@[i],
                None => !has_symbol(self.tokens@, *symbol),
            },
    {
        let n = self.tokens.len();
        let mut i: usize = 0;
        while i < n
            invariant
                i <= n,
                n == self.tokens@.len(),
                forall|j: int| 0 <= j < i ==> (#[trigger] self.tokens@[j]).symbol != *symbol,
            decreases n - i,
        {
            if self.tokens[i].symbol == *symbol {
                proof {
                    assert(first_symbol_match(self.tokens@, *symbol, i as int));
                }
                return Some(&self.tokens[i]);
            }
            i += 1;
        }
        None
    }

    /// Splits a pair key `base_quote` at its underscores and resolves both
    /// components against the catalog.
    pub fn get_by_pair_address(&self, address: &str) -> (r: Result<Vec<Token>, RegistryError>)
        ensures
            ({
                let fu = first_char_or_end(address@, '_', 0);
                let su = first_char_or_end(address@, '_', fu + 1);
                let base = address@.subrange(0, fu);
                let quote = address@.subrange(fu + 1, su);
                match r {
                    Err(RegistryError::NotPair) => fu == address@.len(),
                    Err(RegistryError::Malformed) => fu < address@.len() && (!has_address(
                        self.tokens@,
                        base,
                    ) || !has_address(self.tokens@, quote)),
                    Ok(v) => {
                        &&& fu < address@.len()
                        &&& v@.len() == 2
                        &&& exists|i: int|
                            #[trigger] first_address_match(self.tokens@, base, i) && v@[0]
                                == self.tokens@[i]
                        &&& exists|i: int|
                            #[trigger] first_address_match(self.tokens@, quote, i) && v@[1]
                                == self.tokens@[i]
                    },
                }
            }),
    {
        let n = address.unicode_len();
        let p1 = match find_char_from(address, '_', 0) {
            Some(p) => p,
            None => {
                return Err(RegistryError::NotPair);
            },
        };
        let p2 = match find_char_from(address, '_', p1 + 1) {
            Some(p) => p,
            None => n,
        };
        let base = address.substring_char(0, p1);
        let quote = address.substring_char(p1 + 1, p2);
        let first = match self.get_by_address(base) {
            Some(t) => t.duplicate(),
            None => {
                return Err(RegistryError::Malformed);
            },
        };
        let second = match self.get_by_address(quote) {
            Some(t) => t.duplicate(),
            None => {
                return Err(RegistryError::Malformed);
            },
        };
        let mut v: Vec<Token> = Vec::new();
        v.push(first);
        v.push(second);
        Ok(v)
    }

    /// Resolves a key that may name a single token or a pair: a key with an
    /// underscore resolves as a pair; otherwise the single token is looked
    /// up, yielding an empty list when unknown.
    pub fn get_tokens_from_pair_address(&self, address: &str) -> (r: Result<
        Vec<Token>,
        RegistryError,
    >)
        ensures
            ({
                let fu = first_char_or_end(address@, '_', 0);
                let su = first_char_or_end(address@, '_', fu + 1);
                let base = address@.subrange(0, fu);
                let quote = address@.subrange(fu + 1, su);
                match r {
                    Err(RegistryError::NotPair) => false,
                    Err(RegistryError::Malformed) => fu < address@.len() && (!has_address(
                        self.tokens@,
                        base,
                    ) || !has_address(self.tokens@, quote)),
                    Ok(v) => if fu < address@.len() {
                        &&& v@.len() == 2
                        &&& exists|i: int|
                            #[trigger] first_address_match(self.tokens@, base, i) && v@[0]
                                == self.tokens@[i]
                        &&& exists|i: int|
                            #[trigger] first_address_match(self.tokens@, quote, i) && v@[1]
                                == self.tokens@[i]
                    } else if has_address(self.tokens@, address@) {
                        &&& v@.len() == 1
                        &&& exists|i: int|
                            #[trigger] first_address_match(self.tokens@, address@, i) && v@[0]
                                == self.tokens@[i]
                    } else {
                        v@.len() == 0
                    },
                }
            }),
    {
        let has_pair = match find_char_from(address, '_', 0) {
            Some(_) => true,
            None => false,
        };
        if has_pair {
            self.get_by_pair_address(address)
        } else {
            match self.get_by_address(address) {
                Some(t) => {
                    let mut v: Vec<Token> = Vec::new();
                    v.push(t.duplicate());
                    Ok(v)
                },
                None => Ok(Vec::new()),
            }
        }
    }
}

/// The composite key of a selected token list: the single token's address,
/// or the pair's addresses joined with `'_'`.
pub fn get_pair_or_token_address_from_tokens(tokens: &Vec<Token>) -> (r: String)
    requires
        1 <= tokens@.len() <= 2,
    ensures
        tokens@.len() == 1 ==> r@ == tokens@[0].address@,
        tokens@.len() == 2 ==> r@ == tokens@[0].address@ + "_"@ + tokens@[1].address@,
{
    if tokens.len() == 1 {
        String::from_str(tokens[0].address.as_str())
    } else {
        let mut s = String::from_str(tokens[0].address.as_str());
        s.append("_");
        s.append(tokens[1].address.as_str());
        s
    }
}

} // verus!
