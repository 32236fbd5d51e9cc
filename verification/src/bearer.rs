//! The `Authorization` header grammar: the scheme word `bearer` (any case),
//! optional whitespace, the token, optional trailing whitespace.
//!
//! The grammar is the one of the pattern `^(?i)bearer(?-i)\s*(.+)\s*$`,
//! where `\s` is a Unicode white-space character and `.` any character but
//! a line feed. Where several ways of reading the header fit the grammar,
//! the token is the one that a left-to-right, greedy reading picks: the
//! longest leading white-space run first, then the longest token.

use vstd::prelude::*;

verus! {

/// Number of characters in the scheme word `bearer`.
pub const SCHEME_LEN: usize = 6;

/// A Unicode white-space character (the property `White_Space`).
pub open spec fn is_space(c: char) -> bool {
    let v = c as u32;
    ||| (0x09 <= v && v <= 0x0d)
    ||| v == 0x20
    ||| v == 0x85
    ||| v == 0xa0
    ||| v == 0x1680
    ||| (0x2000 <= v && v <= 0x200a)
    ||| v == 0x2028
    ||| v == 0x2029
    ||| v == 0x202f
    ||| v == 0x205f
    ||| v == 0x3000
}

/// `c` is the letter given in its two cases.
pub open spec fn same_letter(c: char, lower: char, upper: char) -> bool {
    c == lower || c == upper
}

/// `s` starts with the word `bearer`, in any mix of cases.
pub open spec fn has_scheme(s: Seq<char>) -> bool {
    &&& s.len() >= SCHEME_LEN
    &&& same_letter(s[0], 'b', 'B')
    &&& same_letter(s[1], 'e', 'E')
    &&& same_letter(s[2], 'a', 'A')
    &&& same_letter(s[3], 'r', 'R')
    &&& same_letter(s[4], 'e', 'E')
    &&& same_letter(s[5], 'r', 'R')
}

/// What follows the scheme word.
pub open spec fn after_scheme(s: Seq<char>) -> Seq<char> {
    s.subrange(SCHEME_LEN as int, s.len() as int)
}

pub open spec fn all_space(s: Seq<char>) -> bool {
    forall|k: int| 0 <= k < s.len() ==> #[trigger] is_space(s[k])
}

pub open spec fn no_line_feed(s: Seq<char>) -> bool {
    forall|k: int| 0 <= k < s.len() ==> #[trigger] s[k] != '\n'
}

/// One way of reading `r` (the text after the scheme word) by the grammar:
/// white space `r[..i]`, a token `r[i..i + j]` of at least one character
/// and no line feed, white space `r[i + j..]`.
pub open spec fn token_split(r: Seq<char>, i: int, j: int) -> bool {
    &&& 0 <= i
    &&& 1 <= j
    &&& i + j <= r.len()
    &&& all_space(r.subrange(0, i))
    &&& no_line_feed(r.subrange(i, i + j))
    &&& all_space(r.subrange(i + j, r.len() as int))
}

/// The reading that the greedy, left-to-right match picks: no other reading
/// has a longer leading white-space run, nor, with the same run, a longer token.
pub open spec fn preferred_split(r: Seq<char>, i: int, j: int) -> bool {
    &&& token_split(r, i, j)
    &&& forall|i2: int, j2: int|
        #[trigger] token_split(r, i2, j2) ==> (i2 < i || (i2 == i && j2 <= j))
}

/// The header holds a bearer token.
pub open spec fn has_token(s: Seq<char>) -> bool {
    has_scheme(s) && exists|i: int, j: int| token_split(after_scheme(s), i, j)
}

/// `t` is the token that the header `s` carries.
pub open spec fn is_token_of(s: Seq<char>, t: Seq<char>) -> bool {
    has_scheme(s) && exists|i: int, j: int|
        preferred_split(after_scheme(s), i, j) && t == after_scheme(s).subrange(i, i + j)
}

/// Two preferred readings of one text are the same reading.
pub proof fn lemma_preferred_split_unique(r: Seq<char>, i1: int, j1: int, i2: int, j2: int)
    requires
        preferred_split(r, i1, j1),
        preferred_split(r, i2, j2),
    ensures
        i1 == i2 && j1 == j2,
{
    assert(token_split(r, i2, j2));
    assert(token_split(r, i1, j1));
}

/// A token is never empty and never holds a line feed.
pub proof fn lemma_token_shape(s: Seq<char>, t: Seq<char>)
    requires
        is_token_of(s, t),
    ensures
        t.len() >= 1,
        forall|k: int| 0 <= k < t.len() ==> #[trigger] t[k] != '\n',
{
    let (i, j) = choose|i: int, j: int|
        preferred_split(after_scheme(s), i, j) && t == after_scheme(s).subrange(i, i + j);
    assert(token_split(after_scheme(s), i, j));
}

fn is_space_char(c: char) -> (b: bool)
    ensures
        b == is_space(c),
{
    let v = c as u32;
    (0x09 <= v && v <= 0x0d) || v == 0x20 || v == 0x85 || v == 0xa0 || v == 0x1680 || (0x2000
        <= v && v <= 0x200a) || v == 0x2028 || v == 0x2029 || v == 0x202f || v == 0x205f || v
        == 0x3000
}

fn starts_with_scheme(cs: &Vec<char>) -> (b: bool)
    ensures
        b == has_scheme(cs@),
{
    cs.len() >= SCHEME_LEN && (cs[0] == 'b' || cs[0] == 'B') && (cs[1] == 'e' || cs[1] == 'E') && (
    cs[2] == 'a' || cs[2] == 'A') && (cs[3] == 'r' || cs[3] == 'R') && (cs[4] == 'e' || cs[4]
        == 'E') && (cs[5] == 'r' || cs[5] == 'R')
}

fn chars_of(s: &str) -> (cs: Vec<char>)
    ensures
        cs@ == s@,
{
    let n = s.unicode_len();
    let mut cs: Vec<char> = Vec::new();
    let mut x: usize = 0;
    while x < n
        invariant
            x <= n,
            n == s@.len(),
            cs@ == s@.subrange(0, x as int),
        decreases n - x,
    {
        cs.push(s.get_char(x));
        x += 1;
    }
    cs
}

/// Takes the token out of an `Authorization` header value.
pub fn extract(key: &str) -> (token: Option<&str>)
    ensures
        token is None <==> !has_token(key@),
        token matches Some(t) ==> is_token_of(key@, t@),
{
    let cs = chars_of(key);
    let n = cs.len();
    if !starts_with_scheme(&cs) {
        return None;
    }
    let ghost s = key@;
    let ghost r = after_scheme(s);
    assert(forall|z: int| 0 <= z < r.len() ==> r[z] == s[z + SCHEME_LEN]);
    // first character after the scheme that is not white space
    let mut k: usize = SCHEME_LEN;
    while k < n && is_space_char(cs[k])
        invariant
            SCHEME_LEN <= k <= n,
            n == cs.len(),
            cs@ == s,
            forall|p: int| SCHEME_LEN <= p < k ==> is_space(#[trigger] s[p]),
        decreases n - k,
    {
        k += 1;
    }
    if k < n {
        // the token runs up to the first line feed
        let mut q: usize = k;
        while q < n && cs[q] != '\n'
            invariant
                k <= q <= n,
                n == cs.len(),
                cs@ == s,
                forall|p: int| k <= p < q ==> #[trigger] s[p] != '\n',
            decreases n - q,
        {
            q += 1;
        }
        // and only white space may follow it
        let mut t: usize = q;
        while t < n && is_space_char(cs[t])
            invariant
                q <= t <= n,
                n == cs.len(),
                cs@ == s,
                forall|p: int| q <= p < t ==> is_space(#[trigger] s[p]),
            decreases n - t,
        {
            t += 1;
        }
        let ghost i = k - SCHEME_LEN;
        if t < n {
            proof {
                assert forall|i2: int, j2: int| !token_split(r, i2, j2) by {
                    if token_split(r, i2, j2) {
                        let pos = t - SCHEME_LEN;
                        if i2 > i {
                            assert(r.subrange(0, i2)[i] == r[i]);
                            assert(is_space(r.subrange(0, i2)[i]));
                        } else if i2 + j2 <= pos {
                            assert(r.subrange(i2 + j2, r.len() as int)[pos - (i2 + j2)] == r[pos]);
                            assert(is_space(r.subrange(i2 + j2, r.len() as int)[pos - (i2 + j2)]));
                        } else {
                            let qq = q - SCHEME_LEN;
                            assert(r.subrange(i2, i2 + j2)[qq - i2] == r[qq]);
                            assert(r.subrange(i2, i2 + j2)[qq - i2] != '\n');
                        }
                    }
                }
            }
            None
        } else {
            let ghost j = q - k;
            proof {
                assert(s[k as int] != '\n');
                assert(j >= 1);
                assert forall|z: int| 0 <= z < i implies #[trigger] is_space(
                    r.subrange(0, i)[z],
                ) by {
                    assert(r.subrange(0, i)[z] == s[z + SCHEME_LEN]);
                }
                assert forall|z: int| 0 <= z < j implies #[trigger] r.subrange(i, i + j)[z]
                    != '\n' by {
                    assert(r.subrange(i, i + j)[z] == s[z + k]);
                }
                assert forall|z: int| 0 <= z < r.len() - (i + j) implies #[trigger] is_space(
                    r.subrange(i + j, r.len() as int)[z],
                ) by {
                    assert(r.subrange(i + j, r.len() as int)[z] == s[z + q]);
                }
                assert(token_split(r, i, j));
                assert forall|i2: int, j2: int| #[trigger]
                    token_split(r, i2, j2) implies (i2 < i || (i2 == i && j2 <= j)) by {
                    if i2 > i {
                        assert(r.subrange(0, i2)[i] == r[i]);
                        assert(is_space(r.subrange(0, i2)[i]));
                    } else if i2 == i && j2 > j {
                        assert(r.subrange(i2, i2 + j2)[j] == r[i + j]);
                        assert(r.subrange(i2, i2 + j2)[j] != '\n');
                    }
                }
                assert(preferred_split(r, i, j));
            }
            let tok = key.substring_char(k, q);
            assert(tok@ == r.subrange(i, i + j));
            Some(tok)
        }
    } else {
        // the header holds only white space after the scheme: the token is
        // the last character that is not a line feed
        let mut p: usize = n;
        while p > SCHEME_LEN && cs[p - 1] == '\n'
            invariant
                SCHEME_LEN <= p <= n,
                n == cs.len(),
                cs@ == s,
                forall|z: int| p <= z < n ==> #[trigger] s[z] == '\n',
            decreases p,
        {
            p -= 1;
        }
        if p == SCHEME_LEN {
            proof {
                assert forall|i2: int, j2: int| !token_split(r, i2, j2) by {
                    if token_split(r, i2, j2) {
                        assert(r.subrange(i2, i2 + j2)[0] == r[i2]);
                        assert(r.subrange(i2, i2 + j2)[0] != '\n');
                    }
                }
            }
            None
        } else {
            let ghost i = p - 1 - SCHEME_LEN;
            proof {
                assert forall|z: int| 0 <= z < i implies #[trigger] is_space(
                    r.subrange(0, i)[z],
                ) by {
                    assert(r.subrange(0, i)[z] == s[z + SCHEME_LEN]);
                }
                assert forall|z: int| 0 <= z < 1 implies #[trigger] r.subrange(i, i + 1)[z]
                    != '\n' by {
                    assert(r.subrange(i, i + 1)[z] == s[p - 1]);
                }
                assert forall|z: int| 0 <= z < r.len() - (i + 1) implies #[trigger] is_space(
                    r.subrange(i + 1, r.len() as int)[z],
                ) by {
                    assert(r.subrange(i + 1, r.len() as int)[z] == s[z + p]);
                }
                assert(token_split(r, i, 1));
                assert forall|i2: int, j2: int| #[trigger]
                    token_split(r, i2, j2) implies (i2 < i || (i2 == i && j2 <= 1)) by {
                    if i2 > i {
                        assert(r.subrange(i2, i2 + j2)[0] == r[i2]);
                        assert(r.subrange(i2, i2 + j2)[0] != '\n');
                    } else if i2 == i && j2 > 1 {
                        assert(r.subrange(i2, i2 + j2)[1] == r[i + 1]);
                        assert(r.subrange(i2, i2 + j2)[1] != '\n');
                    }
                }
                assert(preferred_split(r, i, 1));
            }
            let tok = key.substring_char(p - 1, p);
            assert(tok@ == r.subrange(i, i + 1));
            Some(tok)
        }
    }
}

} // verus!
