//! Small verified string and number helpers shared across the crate:
//! equality, lexicographic ordering and substring search on strings, and
//! decimal rendering of temperatures stored as tenths of a degree.
use vstd::prelude::*;

verus! {

/// Equality of two string slices, pinned to equality of their views.
pub fn str_eq(a: &str, b: &str) -> (r: bool)
    ensures
        r == (a@ == b@),
{
    let a_owned: String = a.to_owned();
    let b_owned: String = b.to_owned();
    a_owned == b_owned
}

/// Strict lexicographic order on character sequences, by code point; a
/// proper prefix sorts before every extension of it. This is the order
/// timestamps are ranked by.
pub open spec fn lex_lt(a: Seq<char>, b: Seq<char>) -> bool
    decreases a.len(),
{
    if b.len() == 0 {
        false
    } else if a.len() == 0 {
        true
    } else if a[0] != b[0] {
        (a[0] as u32) < (b[0] as u32)
    } else {
        lex_lt(a.drop_first(), b.drop_first())
    }
}

/// Compare two strings in the lexicographic order of their characters.
pub fn str_lt(a: &str, b: &str) -> (r: bool)
    ensures
        r == lex_lt(a@, b@),
{
    let len_a = a.unicode_len();
    let len_b = b.unicode_len();
    let mut i: usize = 0;
    proof {
        assert(a@.skip(0) =~= a@);
        assert(b@.skip(0) =~= b@);
    }
    loop
        invariant
            len_a == a@.len(),
            len_b == b@.len(),
            i <= len_a,
            i <= len_b,
            lex_lt(a@, b@) == lex_lt(a@.skip(i as int), b@.skip(i as int)),
        decreases len_a - i,
    {
        if i == len_a || i == len_b {
            return i == len_a && i < len_b;
        }
        let ca = a.get_char(i);
        let cb = b.get_char(i);
        proof {
            assert(a@.skip(i as int)[0] == a@[i as int]);
            assert(b@.skip(i as int)[0] == b@[i as int]);
        }
        if ca != cb {
            return (ca as u32) < (cb as u32);
        }
        proof {
            assert(a@.skip(i as int).drop_first() =~= a@.skip(i + 1));
            assert(b@.skip(i as int).drop_first() =~= b@.skip(i + 1));
        }
        i = i + 1;
    }
}

/// Two distinct characters have distinct code points.
proof fn lemma_char_code_injective(c1: char, c2: char)
    ensures
        c1 != c2 ==> (c1 as u32) != (c2 as u32),
{
}

/// The lexicographic order is asymmetric: of two sequences at most one is
/// strictly below the other.
pub proof fn lemma_lex_lt_asymmetric(a: Seq<char>, b: Seq<char>)
    ensures
        lex_lt(a, b) ==> !lex_lt(b, a),
    decreases a.len(),
{
    if a.len() > 0 && b.len() > 0 && a[0] == b[0] {
        lemma_lex_lt_asymmetric(a.drop_first(), b.drop_first());
    }
}

/// The lexicographic order is total: two sequences are equal or one is
/// strictly below the other.
pub proof fn lemma_lex_lt_total(a: Seq<char>, b: Seq<char>)
    ensures
        lex_lt(a, b) || lex_lt(b, a) || a == b,
    decreases a.len(),
{
    if a.len() == 0 && b.len() == 0 {
        assert(a =~= b);
    } else if a.len() == 0 {
        assert(lex_lt(a, b));
    } else if b.len() == 0 {
        assert(lex_lt(b, a));
    } else if a[0] != b[0] {
        lemma_char_code_injective(a[0], b[0]);
        assert(lex_lt(a, b) || lex_lt(b, a));
    } else if a.len() > 0 && b.len() > 0 && a[0] == b[0] {
        lemma_lex_lt_total(a.drop_first(), b.drop_first());
        if a.drop_first() == b.drop_first() {
            assert forall|i: int| 1 <= i < a.len() implies a[i] == b[i] by {
                assert(a.drop_first() == a.subrange(1, a.len() as int));
                assert(b.drop_first() == b.subrange(1, b.len() as int));
                assert(a.subrange(1, a.len() as int).len() == a.len() - 1);
                assert(b.subrange(1, b.len() as int).len() == b.len() - 1);
                assert(a.len() == b.len());
                assert(a.subrange(1, a.len() as int)[i - 1] == a[i]);
                assert(b.subrange(1, b.len() as int)[i - 1] == b[i]);
            };
            assert(a =~= b);
        }
    }
}

/// The lexicographic order is transitive.
pub proof fn lemma_lex_lt_transitive(a: Seq<char>, b: Seq<char>, c: Seq<char>)
    ensures
        lex_lt(a, b) && lex_lt(b, c) ==> lex_lt(a, c),
    decreases a.len(), b.len(), c.len(),
{
    if lex_lt(a, b) && lex_lt(b, c) {
        if a.len() > 0 && b.len() > 0 && c.len() > 0 && a[0] == b[0] && b[0] == c[0] {
            lemma_lex_lt_transitive(a.drop_first(), b.drop_first(), c.drop_first());
        }
    }
}

/// The non-strict order is transitive: what is not below b, with b not
/// below c, is not below c.
pub proof fn lemma_lex_ge_transitive(a: Seq<char>, b: Seq<char>, c: Seq<char>)
    ensures
        !lex_lt(a, b) && !lex_lt(b, c) ==> !lex_lt(a, c),
{
    if !lex_lt(a, b) && !lex_lt(b, c) && lex_lt(a, c) {
        lemma_lex_lt_total(a, b);
        lemma_lex_lt_total(b, c);
        if a != b && b != c {
            lemma_lex_lt_transitive(c, b, a);
            lemma_lex_lt_asymmetric(a, c);
        }
    }
}

/// The code point a character counts as when ASCII case is ignored: the
/// upper-case letters A through Z fold onto their lower-case forms.
pub open spec fn ascii_lower_code(c: char) -> int {
    if 65 <= c as u32 <= 90 {
        c as u32 + 32
    } else {
        c as u32 as int
    }
}

/// Equality of two character sequences up to ASCII case.
pub open spec fn eq_ignore_ascii_case_seq(a: Seq<char>, b: Seq<char>) -> bool {
    &&& a.len() == b.len()
    &&& forall|i: int| 0 <= i < a.len() ==> ascii_lower_code(a[i]) == ascii_lower_code(b[i])
}

/// Compare two strings, ignoring ASCII case.
pub fn str_eq_ignore_ascii_case(a: &str, b: &str) -> (r: bool)
    ensures
        r == eq_ignore_ascii_case_seq(a@, b@),
{
    let len_a = a.unicode_len();
    let len_b = b.unicode_len();
    if len_a != len_b {
        return false;
    }
    let mut i: usize = 0;
    while i < len_a
        invariant
            len_a == a@.len(),
            len_a == b@.len(),
            i <= len_a,
            forall|j: int| 0 <= j < i ==> ascii_lower_code(a@[j]) == ascii_lower_code(b@[j]),
        decreases len_a - i,
    {
        let ca = a.get_char(i) as u32;
        let cb = b.get_char(i) as u32;
        let la = if 65 <= ca && ca <= 90 {
            ca + 32
        } else {
            ca
        };
        let lb = if 65 <= cb && cb <= 90 {
            cb + 32
        } else {
            cb
        };
        if la != lb {
            return false;
        }
        i = i + 1;
    }
    true
}

/// The needle occurs in the haystack starting at position `i`.
pub open spec fn contains_at(s: Seq<char>, sub: Seq<char>, i: int) -> bool {
    &&& 0 <= i
    &&& i + sub.len() <= s.len()
    &&& s.subrange(i, i + sub.len()) == sub
}

/// The needle occurs somewhere in the haystack.
pub open spec fn spec_contains(s: Seq<char>, sub: Seq<char>) -> bool {
    exists|i: int| contains_at(s, sub, i)
}

/// Substring search: whether `sub` occurs anywhere in `s`.
pub fn str_contains(s: &str, sub: &str) -> (r: bool)
    ensures
        r == spec_contains(s@, sub@),
{
    let n = s.unicode_len();
    let m = sub.unicode_len();
    if m > n {
        return false;
    }
    if m == 0 {
        proof {
            assert(s@.subrange(0, 0) =~= sub@);
            assert(contains_at(s@, sub@, 0));
        }
        return true;
    }
    let mut i: usize = 0;
    while i <= n - m
        invariant
            n == s@.len(),
            m == sub@.len(),
            1 <= m <= n,
            i <= n - m + 1,
            forall|j: int| 0 <= j < i ==> !contains_at(s@, sub@, j),
        decreases n - i,
    {
        let mut k: usize = 0;
        let mut mismatch = false;
        while k < m
            invariant
                n == s@.len(),
                m == sub@.len(),
                i + m <= n,
                k <= m,
                !mismatch ==> forall|l: int| 0 <= l < k ==> s@[i + l] == sub@[l],
                mismatch ==> !contains_at(s@, sub@, i as int),
            decreases m - k,
        {
            if !mismatch {
                let cs = s.get_char(i + k);
                let cb = sub.get_char(k);
                if cs != cb {
                    proof {
                        assert(!contains_at(s@, sub@, i as int)) by {
                            if contains_at(s@, sub@, i as int) {
                                assert(s@.subrange(i as int, i + m)[k as int] == sub@[k as int]);
                            }
                        };
                    }
                    mismatch = true;
                }
            }
            k = k + 1;
        }
        if !mismatch {
            proof {
                assert(s@.subrange(i as int, i + m) =~= sub@);
                assert(contains_at(s@, sub@, i as int));
            }
            return true;
        }
        i = i + 1;
    }
    proof {
        assert forall|j: int| !contains_at(s@, sub@, j) by {
            if 0 <= j && j < i {
                assert(!contains_at(s@, sub@, j));
            } else if j < 0 {
            } else {
                assert(j + m > n);
            }
        };
    }
    false
}

/// The character for one decimal digit.
pub open spec fn digit_char(d: int) -> char {
    if d == 0 {
        '0'
    } else if d == 1 {
        '1'
    } else if d == 2 {
        '2'
    } else if d == 3 {
        '3'
    } else if d == 4 {
        '4'
    } else if d == 5 {
        '5'
    } else if d == 6 {
        '6'
    } else if d == 7 {
        '7'
    } else if d == 8 {
        '8'
    } else {
        '9'
    }
}

/// Decimal representation of a natural number, most significant digit
/// first, without leading zeroes (except for zero itself).
pub open spec fn spec_decimal(n: int) -> Seq<char>
    decreases n,
{
    if n < 10 {
        seq![digit_char(n)]
    } else {
        spec_decimal(n / 10).push(digit_char(n % 10))
    }
}

/// The one-character string for a decimal digit.
fn digit_str(d: u64) -> (s: &'static str)
    requires
        d < 10,
    ensures
        s@ =~= seq![digit_char(d as int)],
{
    if d == 0 {
        proof {
            reveal_strlit("0");
        }
        "0"
    } else if d == 1 {
        proof {
            reveal_strlit("1");
        }
        "1"
    } else if d == 2 {
        proof {
            reveal_strlit("2");
        }
        "2"
    } else if d == 3 {
        proof {
            reveal_strlit("3");
        }
        "3"
    } else if d == 4 {
        proof {
            reveal_strlit("4");
        }
        "4"
    } else if d == 5 {
        proof {
            reveal_strlit("5");
        }
        "5"
    } else if d == 6 {
        proof {
            reveal_strlit("6");
        }
        "6"
    } else if d == 7 {
        proof {
            reveal_strlit("7");
        }
        "7"
    } else if d == 8 {
        proof {
            reveal_strlit("8");
        }
        "8"
    } else {
        proof {
            reveal_strlit("9");
        }
        "9"
    }
}

/// Render a number in decimal.
pub fn u64_to_string(n: u64) -> (s: String)
    ensures
        s@ == spec_decimal(n as int),
    decreases n,
{
    if n < 10 {
        digit_str(n).to_owned()
    } else {
        let mut s = u64_to_string(n / 10);
        s.append(digit_str(n % 10));
        proof {
            assert(spec_decimal(n as int) =~= spec_decimal(n as int / 10).push(
                digit_char(n as int % 10),
            ));
        }
        s
    }
}

/// Rendering of a temperature held as tenths of a degree, with one
/// fractional digit, as in `65.3` for the value 653.
pub open spec fn spec_tenths_nonneg(t: int) -> Seq<char> {
    spec_decimal(t / 10) + seq!['.'] + seq![digit_char(t % 10)]
}

/// Rendering of a temperature held as tenths of a degree, with an optional
/// leading sign.
pub open spec fn spec_tenths(t: int) -> Seq<char> {
    if t < 0 {
        seq!['-'] + spec_tenths_nonneg(-t)
    } else {
        spec_tenths_nonneg(t)
    }
}

/// Render a temperature stored as tenths of a degree with one fractional
/// digit.
pub fn format_tenths(t: i32) -> (s: String)
    ensures
        s@ == spec_tenths(t as int),
{
    let wide: i64 = t as i64;
    let magnitude: u64 = if wide < 0 {
        (-wide) as u64
    } else {
        wide as u64
    };
    let mut s = if wide < 0 {
        "-".to_owned()
    } else {
        String::new()
    };
    s.append(u64_to_string(magnitude / 10).as_str());
    s.append(".");
    s.append(digit_str(magnitude % 10));
    proof {
        reveal_strlit("-");
        reveal_strlit(".");
        assert(s@ =~= spec_tenths(t as int));
    }
    s
}

} // verus!
