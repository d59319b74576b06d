//! Reading characters and numbers, decimal and hexadecimal, out of strings.
use vstd::arithmetic::power::pow;
use vstd::prelude::*;

verus! {

/// Whether `c` is one of `0`-`9`, `a`-`f`, `A`-`F`.
pub open spec fn is_hex_digit(c: char) -> bool {
    ('0' <= c && c <= '9') || ('a' <= c && c <= 'f') || ('A' <= c && c <= 'F')
}

/// The number that the hexadecimal digit `c` stands for; 0 for any other
/// character.
pub open spec fn hex_digit_value(c: char) -> nat {
    if '0' <= c && c <= '9' {
        (c as nat - '0' as nat) as nat
    } else if 'a' <= c && c <= 'f' {
        (c as nat - 'a' as nat + 10) as nat
    } else if 'A' <= c && c <= 'F' {
        (c as nat - 'A' as nat + 10) as nat
    } else {
        0
    }
}

/// The number written by `digits` in base 16, the first digit weighing most.
pub open spec fn hex_value(digits: Seq<char>) -> nat
    decreases digits.len(),
{
    if digits.len() == 0 {
        0
    } else {
        hex_value(digits.drop_last()) * 16 + hex_digit_value(digits.last())
    }
}

/// Whether `digits` is one hexadecimal digit or more, and nothing else.
pub open spec fn is_hex_number(digits: Seq<char>) -> bool {
    digits.len() > 0 && forall|i: int| 0 <= i < digits.len() ==> is_hex_digit(#[trigger] digits[i])
}

/// `s` without the one `+` that may lead it.
pub open spec fn without_plus(s: Seq<char>) -> Seq<char> {
    if s.len() > 0 && s[0] == '+' {
        s.skip(1)
    } else {
        s
    }
}

/// The `usize` that `s` writes in base 16: an optional `+`, then hexadecimal
/// digits whose value fits. `None` for every other string.
pub open spec fn hex_usize(s: Seq<char>) -> Option<usize> {
    let digits = without_plus(s);
    if is_hex_number(digits) && hex_value(digits) <= usize::MAX {
        Some(hex_value(digits) as usize)
    } else {
        None
    }
}

/// Whether `c` is one of `0`-`9`.
pub open spec fn is_dec_digit(c: char) -> bool {
    '0' <= c && c <= '9'
}

/// The number that the decimal digit `c` stands for; 0 for any other character.
pub open spec fn dec_digit_value(c: char) -> nat {
    if '0' <= c && c <= '9' {
        (c as nat - '0' as nat) as nat
    } else {
        0
    }
}

/// The number written by `digits` in base 10, the first digit weighing most.
pub open spec fn dec_value(digits: Seq<char>) -> nat
    decreases digits.len(),
{
    if digits.len() == 0 {
        0
    } else {
        dec_value(digits.drop_last()) * 10 + dec_digit_value(digits.last())
    }
}

/// Whether `digits` is one decimal digit or more, and nothing else.
pub open spec fn is_dec_number(digits: Seq<char>) -> bool {
    digits.len() > 0 && forall|i: int| 0 <= i < digits.len() ==> is_dec_digit(#[trigger] digits[i])
}

/// The `usize` that `s` writes in base 10: an optional `+`, then decimal digits
/// whose value fits. `None` for every other string.
pub open spec fn dec_usize(s: Seq<char>) -> Option<usize> {
    let digits = without_plus(s);
    if is_dec_number(digits) && dec_value(digits) <= usize::MAX {
        Some(dec_value(digits) as usize)
    } else {
        None
    }
}

/// A number never gets smaller when digits are written behind it.
pub proof fn lemma_hex_value_grows(digits: Seq<char>, k: int)
    requires
        0 <= k <= digits.len(),
    ensures
        hex_value(digits.take(k)) <= hex_value(digits),
    decreases digits.len() - k,
{
    if k == digits.len() {
        assert(digits.take(k) == digits);
    } else {
        lemma_hex_value_grows(digits, k + 1);
        assert(digits.take(k + 1).drop_last() == digits.take(k));
    }
}

/// The character that writes the digit `d`: `0`-`9`, then `a`-`f`.
pub open spec fn digit_char(d: nat) -> char {
    if d < 10 {
        ('0' as nat + d) as char
    } else {
        ('a' as nat + d - 10) as char
    }
}

/// `n` written in base 10 without leading zeros; `0` for zero.
pub open spec fn dec_digits(n: nat) -> Seq<char>
    decreases n,
{
    if n < 10 {
        seq![digit_char(n)]
    } else {
        dec_digits(n / 10).push(digit_char(n % 10))
    }
}

/// The last `width` digits of `n` written in base 16 with small letters, zeros
/// filling the front.
pub open spec fn hex_digits(n: nat, width: nat) -> Seq<char>
    decreases width,
{
    if width == 0 {
        Seq::empty()
    } else {
        hex_digits(n / 16, (width - 1) as nat).push(digit_char(n % 16))
    }
}

/// A number written in base 10 is read back as itself.
pub proof fn lemma_dec_digits_are_read(n: nat)
    ensures
        is_dec_number(dec_digits(n)),
        dec_value(dec_digits(n)) == n,
        n <= usize::MAX ==> dec_usize(dec_digits(n)) == Some(n as usize),
    decreases n,
{
    let digits = dec_digits(n);
    if n < 10 {
        assert(digits.drop_last() =~= Seq::<char>::empty());
        assert(digits.last() == digit_char(n));
        assert(dec_value(digits.drop_last()) == 0);
    } else {
        lemma_dec_digits_are_read(n / 10);
        assert(digits.drop_last() =~= dec_digits(n / 10));
        assert(digits.last() == digit_char(n % 10));
        assert forall|i: int| 0 <= i < digits.len() implies is_dec_digit(#[trigger] digits[i]) by {
            if i < digits.len() - 1 {
                assert(digits[i] == dec_digits(n / 10)[i]);
            }
        }
    }
    assert(is_dec_digit(digits[0]));
    assert(without_plus(digits) == digits);
}

/// A number written in base 16 on `width` digits is read back as itself, where
/// it is below the `width`th power of 16.
pub proof fn lemma_hex_digits_are_read(n: nat, width: nat)
    requires
        width > 0,
        n < pow(16, width),
    ensures
        hex_digits(n, width).len() == width,
        is_hex_number(hex_digits(n, width)),
        hex_value(hex_digits(n, width)) == n,
    decreases width,
{
    reveal(pow);
    let digits = hex_digits(n, width);
    assert(pow(16, width) == 16 * pow(16, (width - 1) as nat));
    assert(digits.drop_last() =~= hex_digits(n / 16, (width - 1) as nat));
    assert(digits.last() == digit_char(n % 16));
    assert(is_hex_digit(digit_char(n % 16)));
    assert(hex_digit_value(digit_char(n % 16)) == n % 16);
    if width == 1 {
        assert(n / 16 == 0);
        assert(hex_value(digits.drop_last()) == 0);
        assert(digits.len() == 1);
    } else {
        lemma_hex_digits_are_read(n / 16, (width - 1) as nat);
        assert forall|i: int| 0 <= i < digits.len() implies is_hex_digit(#[trigger] digits[i]) by {
            if i < digits.len() - 1 {
                assert(digits[i] == hex_digits(n / 16, (width - 1) as nat)[i]);
            }
        }
    }
}

/// A decimal number never gets smaller when digits are written behind it.
pub proof fn lemma_dec_value_grows(digits: Seq<char>, k: int)
    requires
        0 <= k <= digits.len(),
    ensures
        dec_value(digits.take(k)) <= dec_value(digits),
    decreases digits.len() - k,
{
    if k == digits.len() {
        assert(digits.take(k) == digits);
    } else {
        lemma_dec_value_grows(digits, k + 1);
        assert(digits.take(k + 1).drop_last() == digits.take(k));
    }
}

/// A number of `n` digits is below the `n`th power of 16.
pub proof fn lemma_hex_value_below(digits: Seq<char>)
    ensures
        hex_value(digits) < pow(16, digits.len()),
    decreases digits.len(),
{
    reveal(pow);
    if digits.len() > 0 {
        lemma_hex_value_below(digits.drop_last());
        assert(hex_digit_value(digits.last()) <= 15);
        assert(pow(16, digits.len()) == 16 * pow(16, (digits.len() - 1) as nat));
    }
}

/// A number of at most eight hexadecimal digits is read on every machine, and
/// is what its digits say.
pub proof fn lemma_short_hex_number_is_read(digits: Seq<char>)
    requires
        is_hex_number(digits),
        digits.len() <= 8,
    ensures
        hex_usize(digits) == Some(hex_value(digits) as usize),
        hex_value(digits) < pow(16, digits.len()) <= 0x1_0000_0000,
{
    assert(is_hex_digit(digits[0]));
    assert(without_plus(digits) == digits);
    lemma_hex_value_below(digits);
    vstd::arithmetic::power::lemma_pow_increases(16, digits.len(), 8);
    assert(pow(16, 8) == 0x1_0000_0000) by {
        reveal_with_fuel(pow, 9);
    }
}

/// The characters of `s`, in order.
pub fn chars_of(s: &str) -> (chars: Vec<char>)
    ensures
        chars@ == s@,
{
    let mut chars: Vec<char> = Vec::new();
    for c in it: s.chars()
        invariant
            it.seq() == s@,
            chars@ == it.seq().take(it.index()),
    {
        chars.push(c);
    }
    chars
}

/// Whether two strings hold the same characters.
pub fn same_text(a: &str, b: &str) -> (same: bool)
    ensures
        same == (a@ == b@),
{
    let x = chars_of(a);
    let y = chars_of(b);
    if x.len() != y.len() {
        return false;
    }
    let mut i: usize = 0;
    while i < x.len()
        invariant
            i <= x.len(),
            x.len() == y.len(),
            x@ == a@,
            y@ == b@,
            forall|j: int| 0 <= j < i ==> x@[j] == y@[j],
        decreases x.len() - i,
    {
        if x[i] != y[i] {
            return false;
        }
        i += 1;
    }
    assert(a@ =~= b@);
    true
}

/// The value of one hexadecimal digit, `None` for any other character.
pub fn hex_digit(c: char) -> (digit: Option<u8>)
    ensures
        digit is Some <==> is_hex_digit(c),
        digit matches Some(d) ==> d as nat == hex_digit_value(c) && d < 16,
{
    if c >= '0' && c <= '9' {
        Some((c as u32 - '0' as u32) as u8)
    } else if c >= 'a' && c <= 'f' {
        Some((c as u32 - 'a' as u32 + 10) as u8)
    } else if c >= 'A' && c <= 'F' {
        Some((c as u32 - 'A' as u32 + 10) as u8)
    } else {
        None
    }
}

/// The value of one decimal digit, `None` for any other character.
pub fn dec_digit(c: char) -> (digit: Option<u8>)
    ensures
        digit is Some <==> is_dec_digit(c),
        digit matches Some(d) ==> d as nat == dec_digit_value(c) && d < 10,
{
    if c >= '0' && c <= '9' {
        Some((c as u32 - '0' as u32) as u8)
    } else {
        None
    }
}

/// Reads a `usize` written in base 10.
///
/// The string is an optional `+` and then one decimal digit or more. Anything
/// else gives `None`: an empty string, a lone `+`, a character that is no
/// decimal digit, a value that does not fit.
pub fn parse_dec(s: &str) -> (value: Option<usize>)
    ensures
        value == dec_usize(s@),
{
    let chars = chars_of(s);
    let n = chars.len();
    let start: usize = if n > 0 && chars[0] == '+' {
        1
    } else {
        0
    };
    let ghost digits = without_plus(s@);
    assert(digits == chars@.skip(start as int));
    if start == n {
        return None;
    }
    let mut acc: usize = 0;
    let mut i: usize = start;
    assert(digits.take(0) =~= Seq::<char>::empty());
    while i < n
        invariant
            start <= i <= n,
            n == chars.len(),
            digits == without_plus(s@),
            digits == chars@.skip(start as int),
            digits.len() == n - start,
            forall|j: int| 0 <= j < i - start ==> is_dec_digit(#[trigger] digits[j]),
            acc as nat == dec_value(digits.take(i - start)),
        decreases n - i,
    {
        let c = chars[i];
        assert(c == digits[i - start]);
        let d = match dec_digit(c) {
            Some(d) => d,
            None => {
                return None;
            },
        };
        proof {
            assert(digits.take(i - start + 1).drop_last() == digits.take(i - start));
            assert(digits.take(i - start + 1).last() == c);
            lemma_dec_value_grows(digits, i - start + 1);
        }
        if acc > (usize::MAX - d as usize) / 10 {
            assert(dec_value(digits.take(i - start + 1)) > usize::MAX);
            return None;
        }
        acc = acc * 10 + d as usize;
        i += 1;
    }
    assert(digits.take(n - start) == digits);
    Some(acc)
}

/// Reads a `usize` written in base 16.
///
/// The string is an optional `+` and then one hexadecimal digit or more, in
/// either case of the letters. Anything else gives `None`: an empty string, a
/// lone `+`, a character that is no hexadecimal digit, a value that does not fit.
pub fn parse_hex(s: &str) -> (value: Option<usize>)
    ensures
        value == hex_usize(s@),
{
    let chars = chars_of(s);
    let n = chars.len();
    let start: usize = if n > 0 && chars[0] == '+' {
        1
    } else {
        0
    };
    let ghost digits = without_plus(s@);
    assert(digits == chars@.skip(start as int));
    if start == n {
        return None;
    }
    let mut acc: usize = 0;
    let mut i: usize = start;
    assert(digits.take(0) =~= Seq::<char>::empty());
    while i < n
        invariant
            start <= i <= n,
            n == chars.len(),
            digits == without_plus(s@),
            digits == chars@.skip(start as int),
            digits.len() == n - start,
            forall|j: int| 0 <= j < i - start ==> is_hex_digit(#[trigger] digits[j]),
            acc as nat == hex_value(digits.take(i - start)),
        decreases n - i,
    {
        let c = chars[i];
        assert(c == digits[i - start]);
        let d = match hex_digit(c) {
            Some(d) => d,
            None => {
                return None;
            },
        };
        proof {
            assert(digits.take(i - start + 1).drop_last() == digits.take(i - start));
            assert(digits.take(i - start + 1).last() == c);
            lemma_hex_value_grows(digits, i - start + 1);
        }
        if acc > (usize::MAX - d as usize) / 16 {
            assert(hex_value(digits.take(i - start + 1)) > usize::MAX);
            return None;
        }
        acc = acc * 16 + d as usize;
        i += 1;
    }
    assert(digits.take(n - start) == digits);
    Some(acc)
}

} // verus!
