//! Verified text helpers: substring search, decimal rendering of an
//! index, and joining a list of strings with a separator.

use vstd::prelude::*;
use vstd::string::StrSliceExecFns;
use vstd::string::StringExecFns;

verus! {

/// `needle` occurs in `hay` starting at position `i`.
pub open spec fn is_match_at(hay: Seq<char>, needle: Seq<char>, i: int) -> bool {
    0 <= i && i + needle.len() <= hay.len() && hay.subrange(i, i + needle.len()) == needle
}

/// `needle` occurs somewhere in `hay`.
pub open spec fn contains_seq(hay: Seq<char>, needle: Seq<char>) -> bool {
    exists|i: int| is_match_at(hay, needle, i)
}

/// `needle` occurs in `hay` starting exactly at position `i`.
fn match_at(hay: &str, needle: &str, i: usize) -> (r: bool)
    requires
        i + needle@.len() <= hay@.len(),
        i + needle@.len() <= usize::MAX,
    ensures
        r == is_match_at(hay@, needle@, i as int),
{
    let m = needle.unicode_len();
    let mut j: usize = 0;
    while j < m
        invariant
            j <= m,
            m == needle@.len(),
            i + m <= hay@.len(),
            i + m <= usize::MAX,
            forall|t: int| 0 <= t < j ==> hay@[i + t] == needle@[t],
        decreases m - j,
    {
        if hay.get_char(i + j) != needle.get_char(j) {
            proof {
                assert(hay@.subrange(i as int, i + m)[j as int] == hay@[i + j]);
            }
            return false;
        }
        j += 1;
    }
    proof {
        assert(hay@.subrange(i as int, i + m) =~= needle@);
    }
    true
}

/// Whether `needle` occurs anywhere in `hay`.
pub fn str_contains(hay: &str, needle: &str) -> (r: bool)
    ensures
        r == contains_seq(hay@, needle@),
{
    let n = hay.unicode_len();
    let m = needle.unicode_len();
    if m > n {
        proof {
            assert(forall|i: int| !is_match_at(hay@, needle@, i));
        }
        return false;
    }
    if m == 0 {
        proof {
            assert(hay@.subrange(0, 0) =~= needle@);
            assert(is_match_at(hay@, needle@, 0));
        }
        return true;
    }
    let mut i: usize = 0;
    while i <= n - m
        invariant
            n == hay@.len(),
            m == needle@.len(),
            1 <= m <= n,
            i <= n - m + 1,
            forall|k: int| 0 <= k < i ==> !is_match_at(hay@, needle@, k),
        decreases n - m + 1 - i,
    {
        if match_at(hay, needle, i) {
            return true;
        }
        i += 1;
    }
    proof {
        assert(forall|k: int| k >= i ==> !is_match_at(hay@, needle@, k));
    }
    false
}

/// The decimal digit `d` as a character, for `0 <= d <= 9`.
pub open spec fn digit_view(d: nat) -> Seq<char> {
    if d == 0 {
        "0"@
    } else if d == 1 {
        "1"@
    } else if d == 2 {
        "2"@
    } else if d == 3 {
        "3"@
    } else if d == 4 {
        "4"@
    } else if d == 5 {
        "5"@
    } else if d == 6 {
        "6"@
    } else if d == 7 {
        "7"@
    } else if d == 8 {
        "8"@
    } else {
        "9"@
    }
}

/// The usual decimal rendering of `n`, most significant digit first,
/// without leading zeros (except for `n == 0` itself).
pub open spec fn decimal_view(n: nat) -> Seq<char>
    decreases n,
{
    if n < 10 {
        digit_view(n)
    } else {
        decimal_view(n / 10) + digit_view(n % 10)
    }
}

/// One decimal digit as a string slice.
fn digit_str(d: u64) -> (r: &'static str)
    requires
        d < 10,
    ensures
        r@ == digit_view(d as nat),
{
    match d {
        0 => "0",
        1 => "1",
        2 => "2",
        3 => "3",
        4 => "4",
        5 => "5",
        6 => "6",
        7 => "7",
        8 => "8",
        _ => "9",
    }
}

/// Render `n` in decimal.
pub fn decimal_string(n: u64) -> (r: String)
    ensures
        r@ == decimal_view(n as nat),
    decreases n,
{
    if n < 10 {
        digit_str(n).to_owned()
    } else {
        let mut s = decimal_string(n / 10);
        s.append(digit_str(n % 10));
        s
    }
}

/// `c` is one of the ten decimal digit characters.
pub open spec fn is_digit_char(c: char) -> bool {
    c == '0' || c == '1' || c == '2' || c == '3' || c == '4' || c == '5' || c == '6' || c == '7'
        || c == '8' || c == '9'
}

/// A rendered digit is one character, and a digit character.
proof fn lemma_digit_view_chars(d: nat)
    requires
        d < 10,
    ensures
        digit_view(d).len() == 1,
        is_digit_char(digit_view(d)[0]),
{
    reveal_strlit("0");
    reveal_strlit("1");
    reveal_strlit("2");
    reveal_strlit("3");
    reveal_strlit("4");
    reveal_strlit("5");
    reveal_strlit("6");
    reveal_strlit("7");
    reveal_strlit("8");
    reveal_strlit("9");
}

/// Distinct digits render to distinct characters.
proof fn lemma_digit_view_injective(a: nat, b: nat)
    requires
        a < 10,
        b < 10,
        digit_view(a) == digit_view(b),
    ensures
        a == b,
{
    reveal_strlit("0");
    reveal_strlit("1");
    reveal_strlit("2");
    reveal_strlit("3");
    reveal_strlit("4");
    reveal_strlit("5");
    reveal_strlit("6");
    reveal_strlit("7");
    reveal_strlit("8");
    reveal_strlit("9");
    assert(digit_view(0)[0] == '0');
    assert(digit_view(1)[0] == '1');
    assert(digit_view(2)[0] == '2');
    assert(digit_view(3)[0] == '3');
    assert(digit_view(4)[0] == '4');
    assert(digit_view(5)[0] == '5');
    assert(digit_view(6)[0] == '6');
    assert(digit_view(7)[0] == '7');
    assert(digit_view(8)[0] == '8');
    assert(digit_view(9)[0] == '9');
    assert(digit_view(a)[0] == digit_view(b)[0]);
}

/// A decimal rendering is never empty and consists of digit characters
/// alone.
pub proof fn lemma_decimal_view_digits(n: nat)
    ensures
        decimal_view(n).len() >= 1,
        forall|k: int|
            0 <= k < decimal_view(n).len() ==> is_digit_char(#[trigger] decimal_view(n)[k]),
    decreases n,
{
    if n < 10 {
        lemma_digit_view_chars(n);
    } else {
        lemma_decimal_view_digits(n / 10);
        lemma_digit_view_chars(n % 10);
        assert forall|k: int| 0 <= k < decimal_view(n).len() implies is_digit_char(
            #[trigger] decimal_view(n)[k],
        ) by {
            if k < decimal_view(n / 10).len() {
                assert(decimal_view(n)[k] == decimal_view(n / 10)[k]);
            } else {
                assert(decimal_view(n)[k] == digit_view(n % 10)[k - decimal_view(n / 10).len()]);
            }
        }
    }
}

/// Distinct numbers render to distinct decimal strings.
pub proof fn lemma_decimal_view_injective(a: nat, b: nat)
    requires
        decimal_view(a) == decimal_view(b),
    ensures
        a == b,
    decreases a,
{
    if a < 10 && b < 10 {
        lemma_digit_view_injective(a, b);
    } else if a < 10 && b >= 10 {
        lemma_digit_view_chars(a);
        lemma_decimal_view_digits(b / 10);
        lemma_digit_view_chars(b % 10);
        assert(decimal_view(b).len() >= 2);
    } else if a >= 10 && b < 10 {
        lemma_digit_view_chars(b);
        lemma_decimal_view_digits(a / 10);
        lemma_digit_view_chars(a % 10);
        assert(decimal_view(a).len() >= 2);
    } else {
        lemma_decimal_view_digits(a / 10);
        lemma_decimal_view_digits(b / 10);
        lemma_digit_view_chars(a % 10);
        lemma_digit_view_chars(b % 10);
        let pa = decimal_view(a / 10);
        let pb = decimal_view(b / 10);
        assert(decimal_view(a) == pa + digit_view(a % 10));
        assert(decimal_view(b) == pb + digit_view(b % 10));
        assert(pa.len() + 1 == pb.len() + 1);
        assert(digit_view(a % 10) =~= digit_view(b % 10)) by {
            assert(decimal_view(a)[pa.len() as int] == digit_view(a % 10)[0]);
            assert(decimal_view(b)[pb.len() as int] == digit_view(b % 10)[0]);
        }
        lemma_digit_view_injective(a % 10, b % 10);
        assert(pa =~= pb) by {
            assert forall|k: int| 0 <= k < pa.len() implies pa[k] == pb[k] by {
                assert(decimal_view(a)[k] == pa[k]);
                assert(decimal_view(b)[k] == pb[k]);
            }
        }
        lemma_decimal_view_injective(a / 10, b / 10);
    }
}

/// A string of the shape `prefix + "_" + digits` decomposes uniquely:
/// the digit suffix holds no underscore, so the last underscore fixes
/// the split.
pub proof fn lemma_underscore_tagged_unique(
    t1: Seq<char>,
    d1: Seq<char>,
    t2: Seq<char>,
    d2: Seq<char>,
)
    requires
        t1 + "_"@ + d1 == t2 + "_"@ + d2,
        d1.len() >= 1,
        d2.len() >= 1,
        forall|k: int| 0 <= k < d1.len() ==> is_digit_char(#[trigger] d1[k]),
        forall|k: int| 0 <= k < d2.len() ==> is_digit_char(#[trigger] d2[k]),
    ensures
        t1 == t2,
        d1 == d2,
{
    reveal_strlit("_");
    let s = t1 + "_"@ + d1;
    assert(s.len() == t1.len() + 1 + d1.len());
    assert(s.len() == t2.len() + 1 + d2.len());
    assert(!is_digit_char('_'));
    if d1.len() < d2.len() {
        let p = t1.len() as int;
        assert(s[p] == "_"@[0]);
        assert(s[p] == d2[p - (t2.len() + 1)]);
        assert(false);
    } else if d2.len() < d1.len() {
        let p = t2.len() as int;
        assert(s[p] == "_"@[0]);
        assert(s[p] == d1[p - (t1.len() + 1)]);
        assert(false);
    } else {
        assert(t1.len() == t2.len());
        assert(t1 =~= t2) by {
            assert forall|k: int| 0 <= k < t1.len() implies t1[k] == t2[k] by {
                assert(s[k] == t1[k]);
                assert(s[k] == t2[k]);
            }
        }
        assert(d1 =~= d2) by {
            assert forall|k: int| 0 <= k < d1.len() implies d1[k] == d2[k] by {
                assert(s[t1.len() + 1 + k] == d1[k]);
                assert(s[t2.len() + 1 + k] == d2[k]);
            }
        }
    }
}

/// The parts joined with `sep` between consecutive parts.
pub open spec fn joined(parts: Seq<Seq<char>>, sep: Seq<char>) -> Seq<char>
    decreases parts.len(),
{
    if parts.len() == 0 {
        Seq::empty()
    } else if parts.len() == 1 {
        parts[0]
    } else {
        joined(parts.drop_last(), sep) + sep + parts.last()
    }
}

/// Join the parts with `sep` between consecutive parts.
pub fn join_all(parts: &Vec<String>, sep: &str) -> (r: String)
    ensures
        r@ == joined(parts.deep_view(), sep@),
{
    let mut out = String::new();
    let mut i: usize = 0;
    while i < parts.len()
        invariant
            i <= parts.len(),
            out@ == joined(parts.deep_view().take(i as int), sep@),
        decreases parts.len() - i,
    {
        if i > 0 {
            out.append(sep);
        }
        out.append(parts[i].as_str());
        proof {
            let dv = parts.deep_view();
            assert(dv.take(i + 1).drop_last() =~= dv.take(i as int));
            assert(dv.take(i + 1).last() == dv[i as int]);
            assert(dv[i as int] == parts@[i as int]@);
        }
        i += 1;
    }
    proof {
        assert(parts.deep_view().take(parts@.len() as int) =~= parts.deep_view());
    }
    out
}

} // verus!
