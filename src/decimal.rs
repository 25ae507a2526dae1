//! Decimal text for unsigned integers: parsing identifiers and printing ids.
use vstd::prelude::*;
use vstd::string::*;

verus! {

pub open spec fn is_digit(c: char) -> bool {
    '0' <= c && c <= '9'
}

pub open spec fn digit_value(c: char) -> int {
    (c as int) - ('0' as int)
}

pub open spec fn all_digits(s: Seq<char>) -> bool {
    forall|i: int| 0 <= i < s.len() ==> is_digit(#[trigger] s[i])
}

/// The number that a string of decimal digits denotes (most significant first).
pub open spec fn decimal_value(s: Seq<char>) -> nat
    decreases s.len(),
{
    if s.len() == 0 {
        0
    } else {
        (decimal_value(s.drop_last()) * 10 + digit_value(s.last())) as nat
    }
}

/// The digits of an unsigned number's text: what follows an optional
/// leading `+`.
pub open spec fn unsigned_digits(s: Seq<char>) -> Seq<char> {
    if s.len() > 0 && s[0] == '+' { s.skip(1) } else { s }
}

/// An optional `+`, then a non-empty run of decimal digits whose value fits
/// in a `u64`.
pub open spec fn is_u64_decimal(s: Seq<char>) -> bool {
    let d = unsigned_digits(s);
    &&& d.len() > 0
    &&& all_digits(d)
    &&& decimal_value(d) <= u64::MAX
}

/// The number that such a text denotes.
pub open spec fn u64_text_value(s: Seq<char>) -> nat {
    decimal_value(unsigned_digits(s))
}

pub open spec fn digit_char(d: nat) -> char {
    if d == 0 { '0' }
    else if d == 1 { '1' }
    else if d == 2 { '2' }
    else if d == 3 { '3' }
    else if d == 4 { '4' }
    else if d == 5 { '5' }
    else if d == 6 { '6' }
    else if d == 7 { '7' }
    else if d == 8 { '8' }
    else { '9' }
}

/// The shortest decimal spelling of `n`.
pub open spec fn decimal_of(n: nat) -> Seq<char>
    decreases n,
{
    if n < 10 {
        seq![digit_char(n)]
    } else {
        decimal_of(n / 10).push(digit_char(n % 10))
    }
}

proof fn lemma_prefix_value_le(s: Seq<char>, n: int)
    requires
        all_digits(s),
        0 <= n <= s.len(),
    ensures
        decimal_value(s.take(n)) <= decimal_value(s),
    decreases s.len(),
{
    if n == s.len() {
        assert(s.take(n) =~= s);
    } else {
        let t = s.drop_last();
        assert(all_digits(t)) by {
            assert forall|i: int| 0 <= i < t.len() implies is_digit(#[trigger] t[i]) by {
                assert(t[i] == s[i]);
            }
        }
        lemma_prefix_value_le(t, n);
        assert(t.take(n) =~= s.take(n));
        assert(is_digit(s[s.len() - 1]));
    }
}

/// Parses an optional `+` and a non-empty run of ASCII digits into a `u64`;
/// `None` for anything else, including a value too large for a `u64`.
pub fn parse_u64(s: &str) -> (r: Option<u64>)
    ensures
        r.is_some() == is_u64_decimal(s@),
        r.is_some() ==> r.unwrap() as nat == u64_text_value(s@),
{
    let len = s.unicode_len();
    let start: usize = if len > 0 && s.get_char(0) == '+' { 1 } else { 0 };
    let ghost d = unsigned_digits(s@);
    assert(d =~= s@.subrange(start as int, len as int));
    if len == start {
        return None;
    }
    let mut acc: u64 = 0;
    let mut i: usize = start;
    while i < len
        invariant
            len == s@.len(),
            start <= i <= len,
            d == s@.subrange(start as int, len as int),
            d == unsigned_digits(s@),
            all_digits(s@.subrange(start as int, i as int)),
            acc as nat == decimal_value(s@.subrange(start as int, i as int)),
        decreases len - i,
    {
        let c = s.get_char(i);
        if !('0' <= c && c <= '9') {
            assert(d[i - start] == c);
            assert(!is_digit(d[i - start]));
            assert(!all_digits(d));
            return None;
        }
        let dv = (c as u32 - '0' as u32) as u64;
        assert(s@.subrange(start as int, i + 1).drop_last() =~= s@.subrange(start as int, i as int));
        if acc > (u64::MAX - dv) / 10 {
            assert(decimal_value(s@.subrange(start as int, i + 1)) > u64::MAX);
            proof {
                if all_digits(d) {
                    assert(d.take(i + 1 - start) =~= s@.subrange(start as int, i + 1));
                    lemma_prefix_value_le(d, i + 1 - start);
                    assert(decimal_value(d) > u64::MAX);
                }
            }
            return None;
        }
        acc = acc * 10 + dv;
        i = i + 1;
        assert(all_digits(s@.subrange(start as int, i as int))) by {
            assert forall|j: int| 0 <= j < i - start implies is_digit(
                #[trigger] s@.subrange(start as int, i as int)[j],
            ) by {
                if j < i - 1 - start {
                    assert(s@.subrange(start as int, i as int)[j] == s@.subrange(start as int, i - 1)[j]);
                }
            }
        }
    }
    assert(s@.subrange(start as int, len as int) =~= d);
    Some(acc)
}

fn digit_str(d: u64) -> (r: &'static str)
    requires
        d < 10,
    ensures
        r@ == seq![digit_char(d as nat)],
{
    proof {
        reveal_strlit("0");
        reveal_strlit("1");
        reveal_strlit("2");
        reveal_strlit("3");
        reveal_strlit("4");
        reveal_strlit("5");
        reveal_strlit("6");
        reveal_strlit("7");
        reveal_strlit("8");
        reveal_strlit("9");
    }
    if d == 0 { "0" }
    else if d == 1 { "1" }
    else if d == 2 { "2" }
    else if d == 3 { "3" }
    else if d == 4 { "4" }
    else if d == 5 { "5" }
    else if d == 6 { "6" }
    else if d == 7 { "7" }
    else if d == 8 { "8" }
    else { "9" }
}

/// Appends the decimal spelling of `n` to `out`.
pub fn push_decimal(out: &mut String, n: u64)
    ensures
        final(out)@ == old(out)@ + decimal_of(n as nat),
    decreases n,
{
    if n >= 10 {
        push_decimal(out, n / 10);
    }
    out.append(digit_str(n % 10));
    assert(old(out)@ + decimal_of(n as nat) =~= final(out)@) by {
        if n >= 10 {
            assert(decimal_of(n as nat) == decimal_of((n / 10) as nat).push(digit_char((n % 10) as nat)));
        }
    }
}

/// The decimal spelling of `n` as a new string.
pub fn decimal_string(n: u64) -> (r: String)
    ensures
        r@ == decimal_of(n as nat),
{
    let mut out = String::new();
    push_decimal(&mut out, n);
    assert(out@ =~= decimal_of(n as nat));
    out
}

} // verus!
