//! Small text helpers shared by the modules: defaults for missing text, the
//! date in front of a timestamp, and whole numbers in decimal.

use vstd::prelude::*;
use vstd::string::*;

verus! {

broadcast use vstd::string::group_string_axioms;

/// `value` when present, otherwise `fallback`.
pub open spec fn or_text(value: Option<String>, fallback: Seq<char>) -> Seq<char> {
    match value {
        Some(s) => s@,
        None => fallback,
    }
}

/// `value` when present, otherwise `fallback`.
pub fn text_or(value: &Option<String>, fallback: &str) -> (r: String)
    ensures
        r@ == or_text(*value, fallback@),
{
    match value {
        Some(s) => s.clone(),
        None => String::from_str(fallback),
    }
}

/// `value` when present, otherwise the empty text.
pub fn text_or_empty(value: &Option<String>) -> (r: String)
    ensures
        r@ == or_text(*value, Seq::empty()),
{
    match value {
        Some(s) => s.clone(),
        None => String::new(),
    }
}

/// The position of the first `marker` in `s`, or the length of `s` where it
/// holds none.
pub open spec fn first_position(s: Seq<char>, marker: char) -> int
    decreases s.len(),
{
    if s.len() == 0 || s[0] == marker {
        0
    } else {
        1 + first_position(s.drop_first(), marker)
    }
}

/// `first_position` is within `s`, no `marker` stands before it, and one
/// stands at it unless it is the end.
pub proof fn lemma_first_position(s: Seq<char>, marker: char)
    ensures
        0 <= first_position(s, marker) <= s.len(),
        forall|i: int| 0 <= i < first_position(s, marker) ==> s[i] != marker,
        first_position(s, marker) < s.len() ==> s[first_position(s, marker)] == marker,
    decreases s.len(),
{
    if s.len() != 0 && s[0] != marker {
        lemma_first_position(s.drop_first(), marker);
        let k = first_position(s.drop_first(), marker);
        assert forall|i: int| 0 <= i < k + 1 implies s[i] != marker by {
            if i > 0 {
                assert(s[i] == s.drop_first()[i - 1]);
            }
        }
        if k + 1 < s.len() {
            assert(s[k + 1] == s.drop_first()[k]);
        }
    }
}

/// A position is `first_position` when no `marker` stands before it and one
/// stands at it, or it is the end.
pub proof fn lemma_first_position_is(s: Seq<char>, marker: char, k: int)
    requires
        0 <= k <= s.len(),
        forall|i: int| 0 <= i < k ==> s[i] != marker,
        k < s.len() ==> s[k] == marker,
    ensures
        first_position(s, marker) == k,
{
    lemma_first_position(s, marker);
}

/// The part of `s` in front of its first `marker`; all of `s` where it holds
/// none.
pub open spec fn before(s: Seq<char>, marker: char) -> Seq<char> {
    s.take(first_position(s, marker))
}

/// The part of `s` in front of its first `marker`; all of `s` where it holds
/// none.
pub fn text_before(s: &str, marker: char) -> (r: String)
    ensures
        r@ == before(s@, marker),
{
    let n = s.unicode_len();
    let mut k: usize = 0;
    while k < n && s.get_char(k) != marker
        invariant
            k <= n,
            n == s@.len(),
            forall|i: int| 0 <= i < k ==> s@[i] != marker,
        decreases n - k,
    {
        k = k + 1;
    }
    proof {
        lemma_first_position_is(s@, marker, k as int);
    }
    String::from_str(s.substring_char(0, k))
}

/// The date in front of a timestamp: what stands before its first `T`.
pub fn date_part(timestamp: &str) -> (r: String)
    ensures
        r@ == before(timestamp@, 'T'),
{
    text_before(timestamp, 'T')
}

/// `a`, `b` and `c` one after the other.
pub fn join3(a: &str, b: &str, c: &str) -> (r: String)
    ensures
        r@ == a@ + b@ + c@,
{
    let mut out = String::from_str(a);
    out.append(b);
    out.append(c);
    out
}

/// The character of a decimal digit.
pub open spec fn digit_char(d: int) -> char {
    if d == 0 {
        '0'
    } else if d == 1 {
        '1'
    } else if d == 2 {
        '2'
    } else if d == 3 {
        '3'
    } else if d == 4 {
        '4'
    } else if d == 5 {
        '5'
    } else if d == 6 {
        '6'
    } else if d == 7 {
        '7'
    } else if d == 8 {
        '8'
    } else {
        '9'
    }
}

/// The decimal digits of a natural number, most significant first, without
/// leading zeros.
pub open spec fn natural_digits(n: nat) -> Seq<char>
    decreases n,
{
    if n < 10 {
        seq![digit_char(n as int)]
    } else {
        natural_digits(n / 10).push(digit_char((n % 10) as int))
    }
}

/// A whole number in decimal, with a minus sign in front where it is
/// negative.
pub open spec fn decimal(n: int) -> Seq<char> {
    if n < 0 {
        seq!['-'] + natural_digits((-n) as nat)
    } else {
        natural_digits(n as nat)
    }
}

fn digit_text(d: u64) -> (r: &'static str)
    requires
        d < 10,
    ensures
        r@ == seq![digit_char(d as int)],
{
    proof {
        reveal_strlit("0");
        reveal_strlit("1");
        reveal_strlit("2");
        reveal_strlit("3");
        reveal_strlit("4");
        reveal_strlit("5");
        reveal_strlit("6");
        reveal_strlit("7");
        reveal_strlit("8");
        reveal_strlit("9");
    }
    let r = if d == 0 {
        "0"
    } else if d == 1 {
        "1"
    } else if d == 2 {
        "2"
    } else if d == 3 {
        "3"
    } else if d == 4 {
        "4"
    } else if d == 5 {
        "5"
    } else if d == 6 {
        "6"
    } else if d == 7 {
        "7"
    } else if d == 8 {
        "8"
    } else {
        "9"
    };
    assert(r@ =~= seq![digit_char(d as int)]);
    r
}

fn natural_text(n: u64) -> (r: String)
    ensures
        r@ == natural_digits(n as nat),
{
    let mut rest: u64 = n / 10;
    let mut out = String::from_str(digit_text(n % 10));
    // `out` holds the digits of `n` below those of `rest`
    let ghost mut low: Seq<char> = out@;
    while rest != 0
        invariant
            out@ == low,
            low.len() > 0,
            natural_digits(n as nat) == (if rest == 0 {
                low
            } else {
                natural_digits(rest as nat) + low
            }),
        decreases rest,
    {
        let d = rest % 10;
        let next = rest / 10;
        let head = String::from_str(digit_text(d));
        proof {
            let ghost ds = seq![digit_char(d as int)];
            if next == 0 {
                assert(natural_digits(rest as nat) == ds);
            } else {
                assert(natural_digits(rest as nat) == natural_digits(next as nat).push(
                    digit_char(d as int),
                ));
                assert(natural_digits(next as nat).push(digit_char(d as int)) + low
                    =~= natural_digits(next as nat) + (ds + low));
            }
            low = ds + low;
        }
        out = head.concat(out.as_str());
        rest = next;
    }
    out
}

/// A whole number in decimal.
pub fn decimal_text(n: i64) -> (r: String)
    ensures
        r@ == decimal(n as int),
{
    if n < 0 {
        let magnitude: u64 = ((-(n + 1)) as u64) + 1;
        let digits = natural_text(magnitude);
        proof {
            reveal_strlit("-");
            assert("-"@ =~= seq!['-']);
        }
        String::from_str("-").concat(digits.as_str())
    } else {
        natural_text(n as u64)
    }
}

/// The characters of each of `texts`.
pub open spec fn views(texts: Seq<String>) -> Seq<Seq<char>> {
    texts.map_values(|t: String| t@)
}

/// The pieces of `s` between its separators `sep`: one more piece than there
/// are separators, of which any may be empty.
pub open spec fn pieces(s: Seq<char>, sep: char) -> Seq<Seq<char>>
    decreases s.len(),
{
    let k = first_position(s, sep);
    if k < 0 || k >= s.len() {
        seq![s]
    } else {
        seq![s.take(k)] + pieces(s.skip(k + 1), sep)
    }
}

/// The pieces of `s` between its separators `sep`.
pub fn split(s: &str, sep: char) -> (r: Vec<String>)
    ensures
        views(r@) == pieces(s@, sep),
{
    let n = s.unicode_len();
    let mut out: Vec<String> = Vec::new();
    let mut start: usize = 0;
    let mut i: usize = 0;
    assert(s@.skip(0) =~= s@);
    assert(views(out@) + pieces(s@, sep) =~= pieces(s@, sep));
    while i < n
        invariant
            start <= i <= n,
            n == s@.len(),
            forall|j: int| start <= j < i ==> s@[j] != sep,
            pieces(s@, sep) == views(out@) + pieces(s@.skip(start as int), sep),
        decreases n - i,
    {
        if s.get_char(i) == sep {
            let piece = String::from_str(s.substring_char(start, i));
            proof {
                let tail = s@.skip(start as int);
                lemma_first_position_is(tail, sep, i - start);
                assert(tail.take(i - start) =~= s@.subrange(start as int, i as int));
                assert(tail.skip(i - start + 1) =~= s@.skip(i + 1));
                assert(views(out@.push(piece)) =~= views(out@).push(piece@));
                assert(views(out@).push(piece@) + pieces(s@.skip(i + 1), sep) =~= views(out@) + (
                seq![piece@] + pieces(s@.skip(i + 1), sep)));
            }
            out.push(piece);
            start = i + 1;
        }
        i = i + 1;
    }
    let last = String::from_str(s.substring_char(start, n));
    proof {
        let tail = s@.skip(start as int);
        lemma_first_position_is(tail, sep, tail.len() as int);
        assert(tail =~= s@.subrange(start as int, n as int));
        assert(views(out@.push(last)) =~= views(out@).push(last@));
        assert(views(out@).push(last@) =~= views(out@) + seq![tail]);
    }
    out.push(last);
    out
}

} // verus!
