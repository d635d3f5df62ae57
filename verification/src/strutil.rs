//! Small verified helpers on string slices.

use vstd::prelude::*;

verus! {

/// Compares two string slices character by character.
pub fn str_eq(a: &str, b: &str) -> (r: bool)
    ensures
        r == (a@ == b@),
{
    let na = a.unicode_len();
    let nb = b.unicode_len();
    if na != nb {
        assert(a@ != b@) by {
            assert(a@.len() != b@.len());
        }
        return false;
    }
    let mut i: usize = 0;
    while i < na
        invariant
            i <= na,
            na == a@.len(),
            na == b@.len(),
            forall|j: int| 0 <= j < i ==> a@[j] == b@[j],
        decreases na - i,
    {
        let ca = a.get_char(i);
        let cb = b.get_char(i);
        if ca != cb {
            assert(a@ != b@) by {
                assert(a@[i as int] != b@[i as int]);
            }
            return false;
        }
        i += 1;
    }
    proof {
        assert(a@ =~= b@);
    }
    true
}

/// `i` is the first index at or after `from` where `c` stands.
pub open spec fn is_first_char_from(s: Seq<char>, c: char, from: int, i: int) -> bool {
    &&& from <= i < s.len()
    &&& s[i] == c
    &&& forall|j: int| from <= j < i ==> s[j] != c
}

/// The first index at or after `from` where `c` stands, or the length of
/// `s` if `c` does not occur there.
pub open spec fn first_char_or_end(s: Seq<char>, c: char, from: int) -> int {
    if exists|i: int| is_first_char_from(s, c, from, i) {
        choose|i: int| is_first_char_from(s, c, from, i)
    } else {
        s.len() as int
    }
}

proof fn lemma_first_char_unique(s: Seq<char>, c: char, from: int, i1: int, i2: int)
    requires
        is_first_char_from(s, c, from, i1),
        is_first_char_from(s, c, from, i2),
    ensures
        i1 == i2,
{
}

/// Finds the first occurrence of `c` at or after `from`.
pub fn find_char_from(s: &str, c: char, from: usize) -> (r: Option<usize>)
    requires
        from <= s@.len(),
    ensures
        match r {
            Some(i) => is_first_char_from(s@, c, from as int, i as int) && first_char_or_end(
                s@,
                c,
                from as int,
            ) == i as int,
            None => first_char_or_end(s@, c, from as int) == s@.len(),
        },
{
    let n = s.unicode_len();
    let mut i = from;
    while i < n
        invariant
            from <= i <= n,
            n == s@.len(),
            forall|j: int| from <= j < i ==> s@[j] != c,
        decreases n - i,
    {
        if s.get_char(i) == c {
            proof {
                assert(is_first_char_from(s@, c, from as int, i as int));
                let w = choose|w: int| is_first_char_from(s@, c, from as int, w);
                lemma_first_char_unique(s@, c, from as int, w, i as int);
            }
            return Some(i);
        }
        i += 1;
    }
    proof {
        if exists|w: int| is_first_char_from(s@, c, from as int, w) {
            let w = choose|w: int| is_first_char_from(s@, c, from as int, w);
            assert(s@[w] != c);
        }
    }
    None
}

} // verus!
