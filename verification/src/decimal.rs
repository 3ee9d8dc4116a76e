//! Decimal text for unsigned 32-bit numbers: the numbers that travel in
//! form fields (party ids, reservation ids, party sizes) and in the court
//! links that the handlers redirect to.

use vstd::prelude::*;

verus! {

/// A character is an ASCII decimal digit.
pub open spec fn is_digit(c: char) -> bool {
    48 <= (c as u32) && (c as u32) <= 57
}

/// The value of an ASCII decimal digit.
pub open spec fn digit_value(c: char) -> nat {
    ((c as u32) - 48) as nat
}

/// The ASCII character of the digit `d` (for `d < 10`).
pub open spec fn digit_char(d: nat) -> char {
    if d == 0 {
        '0'
    } else if d == 1 {
        '1'
    } else if d == 2 {
        '2'
    } else if d == 3 {
        '3'
    } else if d == 4 {
        '4'
    } else if d == 5 {
        '5'
    } else if d == 6 {
        '6'
    } else if d == 7 {
        '7'
    } else if d == 8 {
        '8'
    } else {
        '9'
    }
}

/// Every character of `s` is a decimal digit.
pub open spec fn all_digits(s: Seq<char>) -> bool {
    forall|i: int| 0 <= i < s.len() ==> #[trigger] is_digit(s[i])
}

/// The number that a string of decimal digits denotes, most significant first.
pub open spec fn digits_value(s: Seq<char>) -> nat
    decreases s.len(),
{
    if s.len() == 0 {
        0
    } else {
        digits_value(s.drop_last()) * 10 + digit_value(s.last())
    }
}

/// The shortest decimal text of `n`: no sign, no leading zero.
pub open spec fn decimal(n: nat) -> Seq<char>
    decreases n,
{
    if n < 10 {
        seq![digit_char(n)]
    } else {
        decimal(n / 10).push(digit_char(n % 10))
    }
}

/// The digits that follow an optional leading `+`.
pub open spec fn unsigned_body(s: Seq<char>) -> Seq<char> {
    if s.len() > 0 && s[0] == '+' {
        s.drop_first()
    } else {
        s
    }
}

/// What reading `s` as an unsigned 32-bit decimal number gives: an optional
/// `+`, then one or more ASCII digits (leading zeros allowed) whose value fits
/// in 32 bits. Anything else (empty text, a lone `+`, a `-`, blanks, any other
/// character, a value above `u32::MAX`) is refused.
pub open spec fn parse_u32_spec(s: Seq<char>) -> Option<u32> {
    let body = unsigned_body(s);
    if body.len() > 0 && all_digits(body) && digits_value(body) <= u32::MAX {
        Some(digits_value(body) as u32)
    } else {
        None
    }
}

proof fn lemma_digit_char(d: nat)
    requires
        d < 10,
    ensures
        is_digit(digit_char(d)),
        digit_value(digit_char(d)) == d,
        digit_char(d) != '+',
{
}

/// A prefix of a digit string never denotes more than the whole string.
proof fn lemma_prefix_value_le(s: Seq<char>, k: int)
    requires
        0 <= k <= s.len(),
    ensures
        digits_value(s.subrange(0, k)) <= digits_value(s),
    decreases s.len(),
{
    if k < s.len() {
        lemma_prefix_value_le(s.drop_last(), k);
        assert(s.drop_last().subrange(0, k) =~= s.subrange(0, k));
    } else {
        assert(s.subrange(0, k) =~= s);
    }
}

/// `decimal(n)` is a non-empty digit string without sign that denotes `n`.
pub proof fn lemma_decimal_digits(n: nat)
    ensures
        decimal(n).len() > 0,
        all_digits(decimal(n)),
        digits_value(decimal(n)) == n,
        decimal(n)[0] != '+',
    decreases n,
{
    if n < 10 {
        lemma_digit_char(n);
        assert(decimal(n).drop_last() =~= Seq::<char>::empty());
        assert(digits_value(decimal(n).drop_last()) == 0);
    } else {
        lemma_decimal_digits(n / 10);
        lemma_digit_char(n % 10);
        let s = decimal(n);
        assert(s.drop_last() =~= decimal(n / 10));
        assert forall|i: int| 0 <= i < s.len() implies #[trigger] is_digit(s[i]) by {
            if i < s.len() - 1 {
                assert(s[i] == decimal(n / 10)[i]);
            }
        }
    }
}

/// Reading back the decimal text of a 32-bit number gives that number.
pub proof fn lemma_parse_decimal_roundtrip(n: u32)
    ensures
        parse_u32_spec(decimal(n as nat)) == Some(n),
{
    lemma_decimal_digits(n as nat);
}

/// Digits are written with their ASCII codes: `0` is code 48, `9` is code 57.
pub proof fn lemma_digit_char_is_ascii(d: nat)
    requires
        d < 10,
    ensures
        digit_char(d) as u32 == 48 + d,
        is_digit(digit_char(d)),
        digit_value(digit_char(d)) == d,
{
}

/// A character is a digit exactly when its code lies between those of `0`
/// and `9`, and its value is its distance from `0`.
pub proof fn lemma_is_digit_ascii(c: char)
    ensures
        is_digit(c) <==> ('0' as u32 <= c as u32 && c as u32 <= '9' as u32),
        is_digit(c) ==> digit_value(c) + '0' as u32 == c as u32,
{
}

/// Text holding any character that is neither a digit nor a leading `+`
/// does not read as a number; nor does empty text or a lone `+`.
pub proof fn lemma_parse_rejects(s: Seq<char>, i: int)
    requires
        0 <= i < s.len(),
        !is_digit(s[i]),
        !(i == 0 && s[0] == '+'),
    ensures
        parse_u32_spec(s) is None,
{
    let body = unsigned_body(s);
    if s.len() > 0 && s[0] == '+' {
        assert(body[i - 1] == s[i]);
    } else {
        assert(body[i] == s[i]);
    }
}

/// Empty text and a lone `+` do not read as a number.
pub proof fn lemma_parse_rejects_empty()
    ensures
        parse_u32_spec(Seq::<char>::empty()) is None,
        parse_u32_spec(seq!['+']) is None,
{
    assert(seq!['+'].drop_first() =~= Seq::<char>::empty());
}

/// A leading `+` does not change what text reads as.
pub proof fn lemma_parse_plus(s: Seq<char>)
    requires
        s.len() > 0,
        s[0] != '+',
    ensures
        parse_u32_spec(seq!['+'] + s) == parse_u32_spec(s),
{
    assert((seq!['+'] + s).drop_first() =~= s);
}

/// Writing one more digit after a number multiplies it by ten and adds the
/// digit, as long as the result still fits in 32 bits.
pub proof fn lemma_parse_append_digit(s: Seq<char>, v: u32, d: nat)
    requires
        parse_u32_spec(s) == Some(v),
        d < 10,
        v * 10 + d <= u32::MAX,
    ensures
        parse_u32_spec(s.push(digit_char(d))) == Some((v * 10 + d) as u32),
{
    let c = digit_char(d);
    let t = s.push(c);
    let body = unsigned_body(s);
    assert(unsigned_body(t) =~= body.push(c));
    assert(body.push(c).drop_last() =~= body);
    assert forall|j: int| 0 <= j < body.push(c).len() implies #[trigger] is_digit(body.push(c)[j]) by {
        if j < body.len() {
            assert(body.push(c)[j] == body[j]);
        }
    }
}

/// The text of one decimal digit.
fn digit_str(d: u32) -> (s: &'static str)
    requires
        d < 10,
    ensures
        s@ == seq![digit_char(d as nat)],
{
    if d == 0 {
        proof { reveal_strlit("0"); }
        "0"
    } else if d == 1 {
        proof { reveal_strlit("1"); }
        "1"
    } else if d == 2 {
        proof { reveal_strlit("2"); }
        "2"
    } else if d == 3 {
        proof { reveal_strlit("3"); }
        "3"
    } else if d == 4 {
        proof { reveal_strlit("4"); }
        "4"
    } else if d == 5 {
        proof { reveal_strlit("5"); }
        "5"
    } else if d == 6 {
        proof { reveal_strlit("6"); }
        "6"
    } else if d == 7 {
        proof { reveal_strlit("7"); }
        "7"
    } else if d == 8 {
        proof { reveal_strlit("8"); }
        "8"
    } else {
        proof { reveal_strlit("9"); }
        "9"
    }
}

/// The decimal text of `n`, as `format!("{}", n)` writes it.
pub fn u32_to_decimal(n: u32) -> (s: String)
    ensures
        s@ == decimal(n as nat),
        s@.len() > 0,
        all_digits(s@),
        digits_value(s@) == n,
        parse_u32_spec(s@) == Some(n),
    decreases n,
{
    proof {
        lemma_decimal_digits(n as nat);
        lemma_parse_decimal_roundtrip(n);
    }
    if n < 10 {
        String::from_str(digit_str(n))
    } else {
        let mut s = u32_to_decimal(n / 10);
        s.append(digit_str(n % 10));
        s
    }
}

/// Reads `s` as an unsigned 32-bit decimal number, as `s.parse::<u32>()`
/// does: `Some` exactly when `parse_u32_spec` accepts the text.
pub fn parse_u32(s: &str) -> (r: Option<u32>)
    ensures
        r == parse_u32_spec(s@),
{
    let len = s.unicode_len();
    let mut start: usize = 0;
    if len > 0 && s.get_char(0) == '+' {
        start = 1;
    }
    let ghost body = unsigned_body(s@);
    assert(body =~= s@.subrange(start as int, len as int));
    if start == len {
        return None;
    }
    let mut i: usize = start;
    let mut acc: u32 = 0;
    assert(s@.subrange(start as int, start as int) =~= Seq::<char>::empty());
    while i < len
        invariant
            start <= i <= len,
            start < len,
            len == s@.len(),
            body == s@.subrange(start as int, len as int),
            body == unsigned_body(s@),
            all_digits(s@.subrange(start as int, i as int)),
            acc as nat == digits_value(s@.subrange(start as int, i as int)),
        decreases len - i,
    {
        let c = s.get_char(i);
        let ghost prefix = s@.subrange(start as int, i as int + 1);
        assert(prefix.drop_last() =~= s@.subrange(start as int, i as int));
        assert(prefix.last() == c);
        assert(body.subrange(0, i - start + 1) =~= prefix);
        let code = c as u32;
        if code < 48 || code > 57 {
            assert(body[i - start] == c);
            assert(!is_digit(body[i - start]));
            return None;
        }
        let d = code - 48;
        let next: u64 = acc as u64 * 10 + d as u64;
        if next > 0xffff_ffffu64 {
            proof {
                lemma_prefix_value_le(body, i - start + 1);
            }
            return None;
        }
        acc = next as u32;
        i = i + 1;
        assert(all_digits(prefix)) by {
            assert forall|j: int| 0 <= j < prefix.len() implies #[trigger] is_digit(prefix[j]) by {
                if j < prefix.len() - 1 {
                    assert(prefix[j] == prefix.drop_last()[j]);
                }
            }
        }
    }
    assert(body =~= s@.subrange(start as int, i as int));
    Some(acc)
}

} // verus!
