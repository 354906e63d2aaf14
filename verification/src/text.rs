//! Character-level text manipulation used by the content extractor.
//!
//! The extractor removes the trimmed text of ignored elements from the
//! accumulated article text by plain substring removal, so the operations
//! here work on vectors of characters with exact sequence-level
//! specifications: whitespace trimming and removal of every occurrence of a
//! pattern, scanning left to right without overlap.

use vstd::prelude::*;
use vstd::string::StrSliceExecFns;

verus! {

/// Whether `c` has the White_Space property, as `char::is_whitespace`
/// documents it.
pub open spec fn is_ws_char(c: char) -> bool {
    ||| c == ' '
    ||| c == '\t'
    ||| c == '\n'
    ||| c == '\u{0b}'
    ||| c == '\u{0c}'
    ||| c == '\r'
    ||| c == '\u{85}'
    ||| c == '\u{a0}'
    ||| c == '\u{1680}'
    ||| c == '\u{2000}'
    ||| c == '\u{2001}'
    ||| c == '\u{2002}'
    ||| c == '\u{2003}'
    ||| c == '\u{2004}'
    ||| c == '\u{2005}'
    ||| c == '\u{2006}'
    ||| c == '\u{2007}'
    ||| c == '\u{2008}'
    ||| c == '\u{2009}'
    ||| c == '\u{200a}'
    ||| c == '\u{2028}'
    ||| c == '\u{2029}'
    ||| c == '\u{202f}'
    ||| c == '\u{205f}'
    ||| c == '\u{3000}'
}

fn is_ws(c: char) -> (r: bool)
    ensures
        r == is_ws_char(c),
{
    c == ' ' || c == '\t' || c == '\n' || c == '\u{0b}' || c == '\u{0c}' || c == '\r' || c
        == '\u{85}' || c == '\u{a0}' || c == '\u{1680}' || c == '\u{2000}' || c == '\u{2001}' || c
        == '\u{2002}' || c == '\u{2003}' || c == '\u{2004}' || c == '\u{2005}' || c == '\u{2006}'
        || c == '\u{2007}' || c == '\u{2008}' || c == '\u{2009}' || c == '\u{200a}' || c
        == '\u{2028}' || c == '\u{2029}' || c == '\u{202f}' || c == '\u{205f}' || c == '\u{3000}'
}

/// `s` without its leading whitespace.
pub open spec fn trim_start_spec(s: Seq<char>) -> Seq<char>
    decreases s.len(),
{
    if s.len() > 0 && is_ws_char(s[0]) {
        trim_start_spec(s.drop_first())
    } else {
        s
    }
}

/// `s` without its trailing whitespace.
pub open spec fn trim_end_spec(s: Seq<char>) -> Seq<char>
    decreases s.len(),
{
    if s.len() > 0 && is_ws_char(s.last()) {
        trim_end_spec(s.drop_last())
    } else {
        s
    }
}

/// `s` without leading and trailing whitespace, as `str::trim` documents it.
pub open spec fn trim_spec(s: Seq<char>) -> Seq<char> {
    trim_end_spec(trim_start_spec(s))
}

/// `s` with every occurrence of `p` removed, scanning left to right without
/// overlap; an empty pattern removes nothing.
pub open spec fn remove_all_spec(s: Seq<char>, p: Seq<char>) -> Seq<char>
    decreases s.len(),
{
    if p.len() == 0 {
        s
    } else if s.len() < p.len() {
        s
    } else if s.subrange(0, p.len() as int) == p {
        remove_all_spec(s.skip(p.len() as int), p)
    } else {
        seq![s[0]] + remove_all_spec(s.skip(1), p)
    }
}

/// The characters of `s`, one vector entry per character.
pub fn str_to_chars(s: &str) -> (r: Vec<char>)
    ensures
        r@ == s@,
{
    let n = s.unicode_len();
    let mut r: Vec<char> = Vec::new();
    let mut i: usize = 0;
    while i < n
        invariant
            n == s@.len(),
            i <= n,
            r@ == s@.subrange(0, i as int),
        decreases n - i,
    {
        r.push(s.get_char(i));
        proof {
            assert(r@ =~= s@.subrange(0, i + 1));
        }
        i += 1;
    }
    proof {
        assert(s@.subrange(0, n as int) =~= s@);
    }
    r
}

/// Relies on `String`'s `FromIterator` of `char`: collecting characters
/// yields the string of exactly those characters.
#[verifier::external_body]
pub fn chars_to_string(v: &Vec<char>) -> (r: String)
    ensures
        r@ == v@,
{
    v.iter().collect()
}

/// Trim leading and trailing whitespace.
pub fn trim_chars(s: &Vec<char>) -> (r: Vec<char>)
    ensures
        r@ == trim_spec(s@),
{
    let n = s.len();
    proof {
        assert(s@.subrange(0, n as int) =~= s@);
    }
    let mut lo: usize = 0;
    while lo < n && is_ws(s[lo])
        invariant
            n == s@.len(),
            lo <= n,
            trim_start_spec(s@) == trim_start_spec(s@.subrange(lo as int, n as int)),
        decreases n - lo,
    {
        proof {
            assert(s@.subrange(lo as int, n as int).drop_first() =~= s@.subrange(
                lo + 1,
                n as int,
            ));
        }
        lo += 1;
    }
    proof {
        if lo < n {
            assert(trim_start_spec(s@) == s@.subrange(lo as int, n as int));
        } else {
            assert(s@.subrange(lo as int, n as int) =~= Seq::<char>::empty());
            assert(trim_start_spec(s@) == s@.subrange(lo as int, n as int));
        }
    }
    let mut hi: usize = n;
    while hi > lo && is_ws(s[hi - 1])
        invariant
            n == s@.len(),
            lo <= hi <= n,
            trim_start_spec(s@) == s@.subrange(lo as int, n as int),
            trim_end_spec(s@.subrange(lo as int, n as int)) == trim_end_spec(
                s@.subrange(lo as int, hi as int),
            ),
        decreases hi,
    {
        proof {
            assert(s@.subrange(lo as int, hi as int).drop_last() =~= s@.subrange(
                lo as int,
                hi - 1,
            ));
        }
        hi -= 1;
    }
    proof {
        assert(trim_end_spec(s@.subrange(lo as int, hi as int)) == s@.subrange(
            lo as int,
            hi as int,
        ));
    }
    let mut r: Vec<char> = Vec::new();
    let mut i: usize = lo;
    while i < hi
        invariant
            n == s@.len(),
            lo <= i <= hi <= n,
            r@ == s@.subrange(lo as int, i as int),
        decreases hi - i,
    {
        r.push(s[i]);
        proof {
            assert(r@ =~= s@.subrange(lo as int, i + 1));
        }
        i += 1;
    }
    r
}

/// Whether `p` occurs in `s` starting at position `at`.
fn matches_at(s: &Vec<char>, p: &Vec<char>, at: usize) -> (r: bool)
    requires
        at + p@.len() <= s@.len(),
    ensures
        r == (s@.subrange(at as int, at + p@.len()) == p@),
{
    let n = s.len();
    let m = p.len();
    let mut k: usize = 0;
    while k < m
        invariant
            n == s@.len(),
            m == p@.len(),
            at + m <= n,
            k <= m,
            forall|t: int| 0 <= t < k ==> s@[at + t] == p@[t],
        decreases m - k,
    {
        if s[at + k] != p[k] {
            proof {
                assert(s@.subrange(at as int, at + p@.len())[k as int] != p@[k as int]);
            }
            return false;
        }
        k += 1;
    }
    proof {
        assert(s@.subrange(at as int, at + p@.len()) =~= p@);
    }
    true
}

/// Remove every occurrence of `p` from `s`, scanning left to right.
pub fn remove_all(s: &Vec<char>, p: &Vec<char>) -> (r: Vec<char>)
    ensures
        r@ == remove_all_spec(s@, p@),
{
    let n = s.len();
    let m = p.len();
    let mut r: Vec<char> = Vec::new();
    if m == 0 {
        let mut i: usize = 0;
        while i < n
            invariant
                n == s@.len(),
                i <= n,
                r@ == s@.subrange(0, i as int),
            decreases n - i,
        {
            r.push(s[i]);
            proof {
                assert(r@ =~= s@.subrange(0, i + 1));
            }
            i += 1;
        }
        proof {
            assert(s@.subrange(0, n as int) =~= s@);
        }
        return r;
    }
    let mut i: usize = 0;
    proof {
        assert(s@.skip(0) =~= s@);
        assert(r@ + remove_all_spec(s@, p@) =~= remove_all_spec(s@, p@));
    }
    while i < n
        invariant
            n == s@.len(),
            m == p@.len(),
            m > 0,
            i <= n,
            remove_all_spec(s@, p@) == r@ + remove_all_spec(s@.skip(i as int), p@),
        decreases n - i,
    {
        let ghost tail = s@.skip(i as int);
        if m <= n - i && matches_at(s, p, i) {
            proof {
                assert(tail.subrange(0, m as int) =~= s@.subrange(i as int, i + m));
                assert(tail.skip(m as int) =~= s@.skip(i + m));
            }
            i += m;
        } else {
            proof {
                if m <= n - i {
                    assert(tail.subrange(0, m as int) =~= s@.subrange(i as int, i + m));
                }
                assert(tail.skip(1) =~= s@.skip(i + 1));
                assert(r@ + seq![s@[i as int]] =~= r@.push(s@[i as int]));
                assert(r@ + remove_all_spec(tail, p@) == r@.push(s@[i as int])
                    + remove_all_spec(s@.skip(i + 1), p@));
            }
            r.push(s[i]);
            i += 1;
        }
    }
    proof {
        assert(s@.skip(n as int) =~= Seq::<char>::empty());
    }
    r
}

} // verus!
