//! Decimal price values.
//!
//! Upstream quotes arrive as decimal strings (for example `"150.25"`). A
//! price is kept in its validated textual form: an optional leading minus,
//! one or more integer digits, and an optional fractional part introduced by
//! a single dot. Anything else — exponents, infinities, empty fields — is
//! rejected at parse time.

use vstd::prelude::*;

verus! {

pub open spec fn is_digit_char(c: char) -> bool {
    '0' <= c && c <= '9'
}

pub open spec fn digits_in(s: Seq<char>, lo: int, hi: int) -> bool {
    forall|i: int| lo <= i < hi ==> is_digit_char(#[trigger] s[i])
}

/// The characters of `s` from `start` on form `digits+ ('.' digits+)?`,
/// where `k` is the position one past the integer digit run.
pub open spec fn decimal_shape(s: Seq<char>, start: int, k: int) -> bool {
    &&& start < k <= s.len()
    &&& digits_in(s, start, k)
    &&& (k == s.len() || (s[k] == '.' && k + 1 < s.len() && digits_in(s, k + 1, s.len() as int)))
}

/// Index where the digits begin: 1 if a minus sign leads, else 0.
pub open spec fn decimal_start(s: Seq<char>) -> int {
    if s.len() > 0 && s[0] == '-' {
        1
    } else {
        0
    }
}

/// `s` matches `'-'? digits+ ('.' digits+)?`.
pub open spec fn is_finite_decimal(s: Seq<char>) -> bool {
    exists|k: int| decimal_shape(s, decimal_start(s), k)
}

/// A price as parsed from an upstream quote: a validated finite decimal
/// kept in its textual form.
#[derive(Debug)]
pub struct PriceValue {
    repr: String,
}

impl View for PriceValue {
    type V = Seq<char>;

    closed spec fn view(&self) -> Seq<char> {
        self.repr@
    }
}

/// Scans a run of digit characters starting at `from`.
fn scan_digits(s: &str, from: usize, n: usize) -> (j: usize)
    requires
        from <= n,
        n == s@.len(),
    ensures
        from <= j <= n,
        digits_in(s@, from as int, j as int),
        j < n ==> !is_digit_char(s@[j as int]),
{
    let mut j = from;
    while j < n
        invariant
            from <= j <= n,
            n == s@.len(),
            digits_in(s@, from as int, j as int),
        decreases n - j,
    {
        let c = s.get_char(j);
        if !('0' <= c && c <= '9') {
            return j;
        }
        j += 1;
    }
    j
}

impl PriceValue {
    pub open spec fn wf(&self) -> bool {
        is_finite_decimal(self@)
    }

    pub open spec fn spec_negative(&self) -> bool {
        self@.len() > 0 && self@[0] == '-'
    }

    /// Parses a decimal string; succeeds exactly on finite decimals of the
    /// form `'-'? digits+ ('.' digits+)?` and keeps the text unchanged.
    pub fn parse(s: &str) -> (r: Option<PriceValue>)
        ensures
            r is Some <==> is_finite_decimal(s@),
            r matches Some(v) ==> v@ == s@ && v.wf(),
    {
        let n = s.unicode_len();
        if n == 0 {
            assert(!is_finite_decimal(s@)) by {
                assert forall|k: int| !decimal_shape(s@, decimal_start(s@), k) by {}
            }
            return None;
        }
        let neg = s.get_char(0) == '-';
        let start: usize = if neg {
            1
        } else {
            0
        };
        assert(start as int == decimal_start(s@));
        let k = scan_digits(s, start, n);
        if k == start {
            assert(!is_finite_decimal(s@)) by {
                assert forall|k2: int| !decimal_shape(s@, start as int, k2) by {
                    if decimal_shape(s@, start as int, k2) {
                        assert(is_digit_char(s@[start as int]));
                    }
                }
            }
            return None;
        }
        if k == n {
            assert(decimal_shape(s@, start as int, k as int));
            return Some(PriceValue { repr: s.to_owned() });
        }
        let c = s.get_char(k);
        if c != '.' {
            assert(!is_finite_decimal(s@)) by {
                assert forall|k2: int| !decimal_shape(s@, start as int, k2) by {
                    if decimal_shape(s@, start as int, k2) {
                        if k2 < k {
                            assert(is_digit_char(s@[k2]));
                        } else if k2 > k {
                            assert(is_digit_char(s@[k as int]));
                        }
                    }
                }
            }
            return None;
        }
        if k + 1 == n {
            assert(!is_finite_decimal(s@)) by {
                assert forall|k2: int| !decimal_shape(s@, start as int, k2) by {
                    if decimal_shape(s@, start as int, k2) {
                        if k2 < k {
                            assert(is_digit_char(s@[k2]));
                        } else if k2 > k {
                            assert(is_digit_char(s@[k as int]));
                        }
                    }
                }
            }
            return None;
        }
        let j = scan_digits(s, k + 1, n);
        if j == n {
            assert(decimal_shape(s@, start as int, k as int));
            Some(PriceValue { repr: s.to_owned() })
        } else {
            assert(!is_finite_decimal(s@)) by {
                assert forall|k2: int| !decimal_shape(s@, start as int, k2) by {
                    if decimal_shape(s@, start as int, k2) {
                        if k2 < k {
                            assert(is_digit_char(s@[k2]));
                        } else if k2 == k {
                            assert(is_digit_char(s@[j as int]));
                        } else {
                            assert(is_digit_char(s@[k as int]));
                        }
                    }
                }
            }
            None
        }
    }

    /// The price's textual form.
    pub fn as_str(&self) -> (r: &str)
        ensures
            r@ == self@,
    {
        self.repr.as_str()
    }

    /// Whether the price is below zero (a leading minus sign).
    pub fn is_negative(&self) -> (b: bool)
        ensures
            b == self.spec_negative(),
    {
        let r = self.repr.as_str();
        if r.unicode_len() == 0 {
            false
        } else {
            r.get_char(0) == '-'
        }
    }

    /// An equal copy of the price.
    pub fn duplicate(&self) -> (r: PriceValue)
        ensures
            r == *self,
    {
        PriceValue { repr: self.repr.clone() }
    }
}

} // verus!
