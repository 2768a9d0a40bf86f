//! Character-level helpers on strings: equality of contents and decimal
//! integers as the command line writes them.
use vstd::prelude::*;

verus! {

/// The text of an optional string.
pub open spec fn opt_text(o: Option<String>) -> Option<Seq<char>> {
    match o {
        Some(s) => Some(s@),
        None => None,
    }
}

/// The characters of `s`, in order.
pub fn chars_of(s: &str) -> (v: Vec<char>)
    ensures
        v@ == s@,
{
    let mut v: Vec<char> = Vec::new();
    for c in it: s.chars()
        invariant
            v@ == it.seq().take(it.index() as int),
    {
        v.push(c);
    }
    v
}

/// Whether two character vectors hold the same characters.
pub fn same_chars(a: &Vec<char>, b: &Vec<char>) -> (r: bool)
    ensures
        r == (a@ == b@),
{
    if a.len() != b.len() {
        return false;
    }
    let n = a.len();
    let mut i: usize = 0;
    while i < n
        invariant
            n == a.len(),
            n == b.len(),
            i <= n,
            forall|j: int| 0 <= j < i ==> a@[j] == b@[j],
        decreases n - i,
    {
        if a[i] != b[i] {
            return false;
        }
        i = i + 1;
    }
    assert(a@ =~= b@);
    true
}

/// Whether `a` and `b` hold the same text.
pub fn text_eq(a: &str, b: &str) -> (r: bool)
    ensures
        r == (a@ == b@),
{
    let va = chars_of(a);
    let vb = chars_of(b);
    same_chars(&va, &vb)
}

/// Whether `c` is one of the ASCII digits `0` to `9`.
pub open spec fn is_digit(c: char) -> bool {
    '0' <= c && c <= '9'
}

/// The value of the digit `c`.
pub open spec fn digit_value(c: char) -> int {
    c as int - '0' as int
}

/// Whether `ds` is a non-empty run of ASCII digits.
pub open spec fn all_digits(ds: Seq<char>) -> bool {
    ds.len() > 0 && forall|i: int| 0 <= i < ds.len() ==> is_digit(#[trigger] ds[i])
}

/// The value of the decimal numeral `ds`, most significant digit first.
pub open spec fn decimal_value(ds: Seq<char>) -> int
    decreases ds.len(),
{
    if ds.len() == 0 {
        0
    } else {
        decimal_value(ds.drop_last()) * 10 + digit_value(ds.last())
    }
}

/// The value of `s` read as a decimal `i32`: an optional `+` or `-` sign
/// followed by one or more ASCII digits, whose value fits in an `i32`.
/// Anything else (an empty string, a lone sign, any other character,
/// surrounding blanks, a value out of range) has no value.
pub open spec fn decimal_i32(s: Seq<char>) -> Option<i32> {
    let negative = s.len() > 0 && s[0] == '-';
    let signed = s.len() > 0 && (s[0] == '-' || s[0] == '+');
    let ds = if signed { s.drop_first() } else { s };
    if !all_digits(ds) {
        None
    } else {
        let v = if negative { -decimal_value(ds) } else { decimal_value(ds) };
        if i32::MIN <= v <= i32::MAX {
            Some(v as i32)
        } else {
            None
        }
    }
}

/// The ASCII digit for `d`, from 0 to 9.
pub open spec fn digit_char(d: nat) -> char {
    if d == 0 {
        '0'
    } else if d == 1 {
        '1'
    } else if d == 2 {
        '2'
    } else if d == 3 {
        '3'
    } else if d == 4 {
        '4'
    } else if d == 5 {
        '5'
    } else if d == 6 {
        '6'
    } else if d == 7 {
        '7'
    } else if d == 8 {
        '8'
    } else {
        '9'
    }
}

/// The decimal numeral of `n`, without leading zeros.
pub open spec fn decimal_text(n: nat) -> Seq<char>
    decreases n,
{
    if n < 10 {
        seq![digit_char(n)]
    } else {
        decimal_text(n / 10).push(digit_char(n % 10))
    }
}

/// The usual decimal writing of `v`: a minus sign before negative numbers.
pub open spec fn i32_text(v: i32) -> Seq<char> {
    if v < 0 {
        seq!['-'] + decimal_text((-v) as nat)
    } else {
        decimal_text(v as nat)
    }
}

proof fn lemma_decimal_text(n: nat)
    ensures
        all_digits(decimal_text(n)),
        decimal_value(decimal_text(n)) == n,
    decreases n,
{
    if n < 10 {
        let t = decimal_text(n);
        assert(t.drop_last() =~= Seq::<char>::empty());
        assert(decimal_value(Seq::<char>::empty()) == 0);
    } else {
        lemma_decimal_text(n / 10);
        let t = decimal_text(n);
        assert(t.drop_last() =~= decimal_text(n / 10));
        assert(n == (n / 10) * 10 + n % 10) by (nonlinear_arith);
        assert forall|i: int| 0 <= i < t.len() implies is_digit(#[trigger] t[i]) by {
            if i < t.len() - 1 {
                assert(t[i] == decimal_text(n / 10)[i]);
            }
        }
    }
}

/// Every `i32`, written in decimal as usual, reads back as itself: no value
/// of the type is refused.
pub proof fn law_decimal_i32_round_trip(v: i32)
    ensures
        decimal_i32(i32_text(v)) == Some(v),
{
    if v < 0 {
        let m = (-v) as nat;
        lemma_decimal_text(m);
        let t = i32_text(v);
        assert(t.drop_first() =~= decimal_text(m));
        assert(t[0] == '-');
    } else {
        lemma_decimal_text(v as nat);
        let t = i32_text(v);
        assert(is_digit(t[0]));
    }
}

proof fn lemma_decimal_nonneg(ds: Seq<char>)
    requires
        forall|i: int| 0 <= i < ds.len() ==> is_digit(#[trigger] ds[i]),
    ensures
        decimal_value(ds) >= 0,
    decreases ds.len(),
{
    if ds.len() > 0 {
        let p = ds.drop_last();
        assert forall|i: int| 0 <= i < p.len() implies is_digit(#[trigger] p[i]) by {
            assert(p[i] == ds[i]);
        }
        lemma_decimal_nonneg(p);
        assert(is_digit(ds[ds.len() - 1]));
    }
}

/// The `i32` that `s` spells in decimal, as `decimal_i32` defines it.
pub fn parse_i32(s: &str) -> (r: Option<i32>)
    ensures
        r == decimal_i32(s@),
{
    let cs = chars_of(s);
    let n = cs.len();
    let negative = n > 0 && cs[0] == '-';
    let signed = n > 0 && (cs[0] == '-' || cs[0] == '+');
    let start: usize = if signed { 1 } else { 0 };
    let ghost ds = if signed { s@.drop_first() } else { s@ };
    assert(ds =~= s@.subrange(start as int, n as int));
    if start >= n {
        return None;
    }
    // Magnitudes above this bound fit no `i32` of either sign.
    let limit: i64 = 2147483648;
    let mut acc: i64 = 0;
    let mut over = false;
    let mut i: usize = start;
    while i < n
        invariant
            n == cs.len(),
            cs@ == s@,
            start <= i <= n,
            signed == (s@.len() > 0 && (s@[0] == '-' || s@[0] == '+')),
            negative == (s@.len() > 0 && s@[0] == '-'),
            start == (if signed { 1usize } else { 0usize }),
            ds == (if signed { s@.drop_first() } else { s@ }),
            ds =~= s@.subrange(start as int, n as int),
            forall|j: int| 0 <= j < i - start ==> is_digit(#[trigger] ds[j]),
            !over ==> acc == decimal_value(ds.take(i - start)) && 0 <= acc <= limit,
            over ==> decimal_value(ds.take(i - start)) > limit,
            limit == 2147483648,
        decreases n - i,
    {
        let c = cs[i];
        assert(ds[i - start] == cs@[i as int]);
        if !('0' <= c && c <= '9') {
            assert(!is_digit(ds[i - start]));
            assert(!all_digits(ds));
            return None;
        }
        let ghost k: int = i - start;
        assert(ds.take(k + 1).drop_last() =~= ds.take(k));
        assert(ds.take(k + 1).last() == ds[k]);
        let d: i64 = (c as u32 - '0' as u32) as i64;
        assert(d == digit_value(ds[k]));
        if !over {
            let next = acc * 10 + d;
            if next > limit {
                over = true;
            } else {
                acc = next;
            }
        } else {
            assert(decimal_value(ds.take(k + 1)) == decimal_value(ds.take(k)) * 10 + d);
        }
        i = i + 1;
    }
    assert(ds.take(n - start) =~= ds);
    assert(all_digits(ds));
    if over {
        proof {
            lemma_decimal_nonneg(ds);
        }
        return None;
    }
    if negative {
        Some((0 - acc) as i32)
    } else if acc <= 2147483647 {
        Some(acc as i32)
    } else {
        None
    }
}

} // verus!
