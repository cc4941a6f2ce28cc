//! Octal parsing of permission modes, with the semantics of
//! `u32::from_str_radix(text, 8)`.
use vstd::prelude::*;

use crate::error::ModeErrorKind;
use crate::text::chars_of;

verus! {

/// `c` is one of the digits `0` to `7`.
pub open spec fn is_octal_digit(c: char) -> bool {
    48 <= (c as u32) && (c as u32) <= 55
}

/// The value of an octal digit character.
pub open spec fn digit_value(c: char) -> nat {
    ((c as u32) - 48) as nat
}

/// Every character of `d` is an octal digit.
pub open spec fn all_octal(d: Seq<char>) -> bool {
    forall|i: int| 0 <= i < d.len() ==> #[trigger] is_octal_digit(d[i])
}

/// The number that the octal digits `d` denote (the empty sequence denotes 0).
pub open spec fn octal_value(d: Seq<char>) -> nat
    decreases d.len(),
{
    if d.len() == 0 {
        0
    } else {
        octal_value(d.drop_last()) * 8 + digit_value(d.last())
    }
}

/// Reads the digits `d` from left to right as `u32` does, reporting the first
/// failure met: a character that is not an octal digit, or a value past `u32::MAX`.
pub open spec fn spec_octal_digits(d: Seq<char>) -> Result<u32, ModeErrorKind>
    decreases d.len(),
{
    if d.len() == 0 {
        Ok(0)
    } else {
        match spec_octal_digits(d.drop_last()) {
            Err(e) => Err(e),
            Ok(v) => if !is_octal_digit(d.last()) {
                Err(ModeErrorKind::InvalidDigit)
            } else if v * 8 + digit_value(d.last()) > u32::MAX {
                Err(ModeErrorKind::PosOverflow)
            } else {
                Ok((v * 8 + digit_value(d.last())) as u32)
            },
        }
    }
}

/// The digits that follow an optional leading `+`.
pub open spec fn unsigned_digits(s: Seq<char>) -> Seq<char> {
    if s.len() > 0 && s[0] == '+' {
        s.drop_first()
    } else {
        s
    }
}

/// What `u32::from_str_radix(s, 8)` gives: `Empty` for the empty text, `InvalidDigit`
/// for a lone sign, otherwise the digits after an optional `+` read as above.
pub open spec fn spec_parse_octal_u32(s: Seq<char>) -> Result<u32, ModeErrorKind> {
    if s.len() == 0 {
        Err(ModeErrorKind::Empty)
    } else if s.len() == 1 && (s[0] == '+' || s[0] == '-') {
        Err(ModeErrorKind::InvalidDigit)
    } else {
        spec_octal_digits(unsigned_digits(s))
    }
}

/// Once a prefix of the digits fails, the whole sequence fails the same way.
proof fn lemma_prefix_failure(d: Seq<char>, k: int)
    requires
        0 <= k <= d.len(),
        spec_octal_digits(d.take(k)) is Err,
    ensures
        spec_octal_digits(d) == spec_octal_digits(d.take(k)),
    decreases d.len(),
{
    if k == d.len() {
        assert(d.take(k) =~= d);
    } else {
        assert(d.drop_last().take(k) =~= d.take(k));
        lemma_prefix_failure(d.drop_last(), k);
    }
}

/// Reading digits succeeds exactly when all of them are octal digits and their value
/// fits in a `u32`; the value read is then their value, and `Empty` never comes out.
pub proof fn lemma_octal_digits_ok_iff(d: Seq<char>)
    ensures
        spec_octal_digits(d) is Ok <==> (all_octal(d) && octal_value(d) <= u32::MAX),
        spec_octal_digits(d) matches Ok(v) ==> v == octal_value(d),
        spec_octal_digits(d) != Err::<u32, ModeErrorKind>(ModeErrorKind::Empty),
        spec_octal_digits(d) == Err::<u32, ModeErrorKind>(ModeErrorKind::InvalidDigit) ==> !all_octal(d),
    decreases d.len(),
{
    if d.len() > 0 {
        let p = d.drop_last();
        lemma_octal_digits_ok_iff(p);
        assert forall|i: int| 0 <= i < p.len() implies p[i] == d[i] by {}
        if !all_octal(p) {
            let i = choose|i: int| 0 <= i < p.len() && !is_octal_digit(p[i]);
            assert(!is_octal_digit(d[i]));
        }
        if all_octal(d) {
            assert forall|i: int| 0 <= i < p.len() implies #[trigger] is_octal_digit(p[i]) by {
                assert(is_octal_digit(d[i]));
            }
        }
        if !is_octal_digit(d.last()) {
            assert(!is_octal_digit(d[d.len() - 1]));
        }
        if all_octal(p) && is_octal_digit(d.last()) {
            assert forall|i: int| 0 <= i < d.len() implies #[trigger] is_octal_digit(d[i]) by {
                if i < d.len() - 1 {
                    assert(is_octal_digit(p[i]));
                }
            }
        }
    }
}

/// A mode text is accepted exactly when, after an optional leading `+`, it is a
/// non-empty run of octal digits whose value fits in a `u32`; the mode is that value.
/// Only the empty text is refused as `Empty`.
pub proof fn lemma_parse_octal_ok_iff(s: Seq<char>)
    ensures
        spec_parse_octal_u32(s) is Ok <==> ({
            let d = unsigned_digits(s);
            d.len() > 0 && all_octal(d) && octal_value(d) <= u32::MAX
        }),
        spec_parse_octal_u32(s) matches Ok(v) ==> v == octal_value(unsigned_digits(s)),
        spec_parse_octal_u32(s) == Err::<u32, ModeErrorKind>(ModeErrorKind::Empty) <==> s.len() == 0,
{
    let d = unsigned_digits(s);
    lemma_octal_digits_ok_iff(d);
    if s.len() == 1 && (s[0] == '+' || s[0] == '-') {
        if s[0] == '-' {
            assert(!is_octal_digit(d[0]));
        }
    }
}

proof fn lemma_leading_zero_digits(s: Seq<char>)
    ensures
        spec_octal_digits(seq!['0'] + s) == spec_octal_digits(s),
    decreases s.len(),
{
    let z = seq!['0'] + s;
    if s.len() == 0 {
        assert(z.drop_last() =~= Seq::<char>::empty());
        assert(spec_octal_digits(z.drop_last()) == Ok::<u32, ModeErrorKind>(0));
        assert(z.last() == '0');
        assert(('0' as u32) == 48);
        assert(is_octal_digit(z.last()));
        assert(digit_value(z.last()) == 0);
        assert(s =~= Seq::<char>::empty());
        assert(spec_octal_digits(s) == Ok::<u32, ModeErrorKind>(0));
    } else {
        lemma_leading_zero_digits(s.drop_last());
        assert(z.drop_last() =~= seq!['0'] + s.drop_last());
        assert(z.last() == s.last());
        assert(spec_octal_digits(z.drop_last()) == spec_octal_digits(s.drop_last()));
    }
}

/// A leading zero never changes what a mode text reads as: `0755` is `755`, and
/// `04755` keeps its setuid digit as `4755` does (any non-empty text not starting
/// with `+`).
pub proof fn lemma_leading_zero_ignored(s: Seq<char>)
    requires
        s.len() > 0,
        s[0] != '+',
    ensures
        spec_parse_octal_u32(seq!['0'] + s) == spec_parse_octal_u32(s),
{
    let z = seq!['0'] + s;
    assert(z[0] == '0');
    assert(unsigned_digits(z) == z);
    assert(unsigned_digits(s) == s);
    lemma_leading_zero_digits(s);
    if s.len() == 1 && s[0] == '-' {
        assert(s.drop_last() =~= Seq::<char>::empty());
        assert(!is_octal_digit(s.last()));
        assert(spec_octal_digits(s.drop_last()) == Ok::<u32, ModeErrorKind>(0));
    }
}

/// The octal digit character for `k < 8`.
pub open spec fn octal_digit_char(k: nat) -> char {
    seq!['0', '1', '2', '3', '4', '5', '6', '7'][k as int]
}

/// `n` written in octal without leading zeros (`0` is written `0`).
pub open spec fn octal_text(n: nat) -> Seq<char>
    decreases n,
{
    if n < 8 {
        seq![octal_digit_char(n)]
    } else {
        octal_text(n / 8).push(octal_digit_char(n % 8))
    }
}

proof fn lemma_octal_digit_char(k: nat)
    requires
        k < 8,
    ensures
        is_octal_digit(octal_digit_char(k)),
        digit_value(octal_digit_char(k)) == k,
        octal_digit_char(k) != '+',
{
    let s = seq!['0', '1', '2', '3', '4', '5', '6', '7'];
    assert(s[0] == '0' && s[1] == '1' && s[2] == '2' && s[3] == '3');
    assert(s[4] == '4' && s[5] == '5' && s[6] == '6' && s[7] == '7');
}

proof fn lemma_octal_text_digits(n: nat)
    ensures
        octal_text(n).len() > 0,
        all_octal(octal_text(n)),
        octal_value(octal_text(n)) == n,
        is_octal_digit(octal_text(n)[0]),
    decreases n,
{
    let t = octal_text(n);
    if n < 8 {
        lemma_octal_digit_char(n);
        assert(is_octal_digit(t[0]));
        assert(t.drop_last() =~= Seq::<char>::empty());
        assert(octal_value(t.drop_last()) == 0);
        assert(t.last() == octal_digit_char(n));
    } else {
        lemma_octal_text_digits(n / 8);
        let p = octal_text(n / 8);
        assert(t.drop_last() =~= p);
        lemma_octal_digit_char(n % 8);
        assert(is_octal_digit(t.last()));
        assert(t.last() == octal_digit_char(n % 8));
        assert(n == (n / 8) * 8 + n % 8);
        assert forall|i: int| 0 <= i < t.len() implies #[trigger] is_octal_digit(t[i]) by {
            if i < p.len() {
                assert(t[i] == p[i]);
            }
        }
        assert(t[0] == p[0]);
    }
}

/// Every `u32` mode written in octal parses back to itself.
pub proof fn lemma_octal_text_roundtrip(mode: u32)
    ensures
        spec_parse_octal_u32(octal_text(mode as nat)) == Ok::<u32, ModeErrorKind>(mode),
{
    let t = octal_text(mode as nat);
    lemma_octal_text_digits(mode as nat);
    assert(t[0] != '+') by {
        if t[0] == '+' {
            assert(!is_octal_digit(t[0]));
        }
    }
    assert(unsigned_digits(t) == t);
    lemma_parse_octal_ok_iff(t);
}

/// Parses a permission mode written in octal, as `u32::from_str_radix(text, 8)` does:
/// every digit is read, leading zeros and all, and a leading `+` is allowed.
pub fn parse_octal_mode(text: &str) -> (r: Result<u32, ModeErrorKind>)
    ensures
        r == spec_parse_octal_u32(text@),
        text@.len() == 0 <==> r == Err::<u32, ModeErrorKind>(ModeErrorKind::Empty),
        text@.len() > 0 && all_octal(text@) && octal_value(text@) <= u32::MAX ==> r == Ok::<
            u32,
            ModeErrorKind,
        >(octal_value(text@) as u32),
        text@.len() > 1 && text@[0] == '+' && all_octal(text@.drop_first()) && octal_value(
            text@.drop_first(),
        ) <= u32::MAX ==> r == Ok::<u32, ModeErrorKind>(octal_value(text@.drop_first()) as u32),
        r is Ok ==> (text@.len() > 0 && all_octal(text@) && octal_value(text@) <= u32::MAX) || (
        text@.len() > 1 && text@[0] == '+' && all_octal(text@.drop_first()) && octal_value(
            text@.drop_first(),
        ) <= u32::MAX),
        text@.len() > 0 && all_octal(text@) && octal_value(text@) > u32::MAX ==> r == Err::<
            u32,
            ModeErrorKind,
        >(ModeErrorKind::PosOverflow),
        text@.len() > 1 && text@[0] == '+' && all_octal(text@.drop_first()) && octal_value(
            text@.drop_first(),
        ) > u32::MAX ==> r == Err::<u32, ModeErrorKind>(ModeErrorKind::PosOverflow),
        r == Err::<u32, ModeErrorKind>(ModeErrorKind::InvalidDigit) ==> !all_octal(text@),
{
    let r = read_octal_mode(text);
    proof {
        let t = text@;
        lemma_parse_octal_ok_iff(t);
        lemma_octal_digits_ok_iff(unsigned_digits(t));
        if t.len() > 0 {
            assert(!is_octal_digit('+'));
            assert(!is_octal_digit('-'));
            if t[0] == '+' {
                assert(!all_octal(t));
            } else {
                assert(unsigned_digits(t) == t);
            }
        }
    }
    r
}

/// Reads the mode as `spec_parse_octal_u32` describes, character by character.
fn read_octal_mode(text: &str) -> (r: Result<u32, ModeErrorKind>)
    ensures
        r == spec_parse_octal_u32(text@),
{
    let chars = chars_of(text);
    let n = chars.len();
    if n == 0 {
        return Err(ModeErrorKind::Empty);
    }
    let first = chars[0];
    if n == 1 && (first == '+' || first == '-') {
        return Err(ModeErrorKind::InvalidDigit);
    }
    let start: usize = if first == '+' { 1 } else { 0 };
    let ghost d = unsigned_digits(chars@);
    assert(d =~= chars@.skip(start as int));
    assert(d.take(0) =~= Seq::<char>::empty());
    assert(spec_parse_octal_u32(text@) == spec_octal_digits(d));
    let mut acc: u32 = 0;
    let mut i: usize = start;
    while i < n
        invariant
            start <= i <= n,
            start <= 1,
            n == chars@.len(),
            d == chars@.skip(start as int),
            spec_parse_octal_u32(text@) == spec_octal_digits(d),
            spec_octal_digits(d.take(i - start)) == Ok::<u32, ModeErrorKind>(acc),
        decreases n - i,
    {
        let c = chars[i];
        let ghost k: int = i - start + 1;
        assert(d.take(k).drop_last() =~= d.take(k - 1));
        assert(d.take(k).last() == c);
        let code = c as u32;
        if code < 48 || code > 55 {
            proof {
                lemma_prefix_failure(d, k);
            }
            return Err(ModeErrorKind::InvalidDigit);
        }
        let next: u64 = (acc as u64) * 8 + ((code - 48) as u64);
        if next > (u32::MAX as u64) {
            proof {
                lemma_prefix_failure(d, k);
            }
            return Err(ModeErrorKind::PosOverflow);
        }
        acc = next as u32;
        i = i + 1;
    }
    assert(d.take(n - start) =~= d);
    Ok(acc)
}

} // verus!
