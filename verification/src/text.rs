//! Decimal text.

use vstd::arithmetic::power::pow;
use vstd::prelude::*;

verus! {

/// The character of the decimal digit `d`.
pub open spec fn digit_char(d: nat) -> char {
    (48 + d) as char
}

/// The decimal text of `n`, without leading zeros.
pub open spec fn decimal(n: nat) -> Seq<char>
    decreases n,
{
    if n < 10 {
        seq![digit_char(n)]
    } else {
        decimal(n / 10).push(digit_char(n % 10))
    }
}

/// The decimal text of `n`, filled up with leading zeros to `width` characters.
pub open spec fn padded_decimal(n: nat, width: nat) -> Seq<char> {
    let digits = decimal(n);
    if digits.len() >= width {
        digits
    } else {
        Seq::new((width - digits.len()) as nat, |i: int| '0') + digits
    }
}

/// The decimal text of a signed number.
pub open spec fn signed_decimal(n: int) -> Seq<char> {
    if n < 0 {
        "-"@ + decimal((-n) as nat)
    } else {
        decimal(n as nat)
    }
}

/// The text of one decimal digit.
fn digit_text(d: u64) -> (text: &'static str)
    requires
        d < 10,
    ensures
        text@ == seq![digit_char(d as nat)],
{
    proof {
        reveal_strlit("0");
        reveal_strlit("1");
        reveal_strlit("2");
        reveal_strlit("3");
        reveal_strlit("4");
        reveal_strlit("5");
        reveal_strlit("6");
        reveal_strlit("7");
        reveal_strlit("8");
        reveal_strlit("9");
    }
    match d {
        0 => "0",
        1 => "1",
        2 => "2",
        3 => "3",
        4 => "4",
        5 => "5",
        6 => "6",
        7 => "7",
        8 => "8",
        _ => "9",
    }
}

/// Append the decimal text of `n` to `out`.
pub fn push_decimal(out: &mut String, n: u64)
    ensures
        final(out)@ == old(out)@ + decimal(n as nat),
    decreases n,
{
    if n >= 10 {
        push_decimal(out, n / 10);
    }
    out.append(digit_text(n % 10));
}

/// Append the decimal text of the signed number `n` to `out`.
pub fn push_signed(out: &mut String, n: i32)
    ensures
        final(out)@ == old(out)@ + signed_decimal(n as int),
{
    let wide: i64 = n as i64;
    if wide < 0 {
        out.append("-");
        push_decimal(out, (-wide) as u64);
    } else {
        push_decimal(out, wide as u64);
    }
}

/// Append the decimal text of `n`, filled up with leading zeros to `width` characters.
pub fn push_padded(out: &mut String, n: u64, width: usize)
    ensures
        final(out)@ == old(out)@ + padded_decimal(n as nat, width as nat),
{
    let mut digits = String::new();
    push_decimal(&mut digits, n);
    let len: usize = digits.as_str().unicode_len();
    let mut filled: usize = len;
    let ghost zeros = Seq::new(0, |i: int| '0');
    proof {
        assert(zeros =~= Seq::<char>::empty());
    }
    while filled < width
        invariant
            len <= filled,
            filled <= width || filled == len,
            zeros =~= Seq::new((filled - len) as nat, |i: int| '0'),
            out@ =~= old(out)@ + zeros,
        decreases width - filled,
    {
        proof {
            reveal_strlit("0");
            zeros = zeros.push('0');
        }
        out.append("0");
        filled = filled + 1;
    }
    out.append(digits.as_str());
}

/// Whether two texts are equal.
pub fn same_text(a: &str, b: &str) -> (same: bool)
    ensures
        same == (a@ == b@),
{
    let len: usize = a.unicode_len();
    if len != b.unicode_len() {
        return false;
    }
    let mut i: usize = 0;
    while i < len
        invariant
            i <= len,
            len == a@.len(),
            len == b@.len(),
            forall|j: int| 0 <= j < i ==> a@[j] == b@[j],
        decreases len - i,
    {
        if a.get_char(i) != b.get_char(i) {
            return false;
        }
        i = i + 1;
    }
    assert(a@ =~= b@);
    true
}

/// Whether a character is a decimal digit.
pub open spec fn is_digit(c: char) -> bool {
    '0' <= c <= '9'
}

/// The number that a text of decimal digits stands for.
pub open spec fn value_of(text: Seq<char>) -> nat
    decreases text.len(),
{
    if text.len() == 0 {
        0
    } else {
        value_of(text.drop_last()) * 10 + (text.last() as nat - 48) as nat
    }
}

/// The last `width` decimal digits of `n`.
pub open spec fn digits(n: nat, width: nat) -> Seq<char>
    decreases width,
{
    if width == 0 {
        Seq::empty()
    } else {
        digits(n / 10, (width - 1) as nat).push(digit_char(n % 10))
    }
}

/// The number that a text of at most 18 decimal digits stands for; none if
/// another character occurs in it.
pub fn read_digits(text: &str) -> (n: Option<u64>)
    requires
        text@.len() <= 18,
    ensures
        match n {
            Some(value) => value == value_of(text@) && forall|i: int|
                0 <= i < text@.len() ==> is_digit(#[trigger] text@[i]),
            None => exists|i: int| 0 <= i < text@.len() && !is_digit(#[trigger] text@[i]),
        },
{
    let len: usize = text.unicode_len();
    let mut value: u64 = 0;
    let mut i: usize = 0;
    proof {
        assert(text@.take(0) =~= Seq::<char>::empty());
        reveal_with_fuel(pow, 1);
    }
    while i < len
        invariant
            i <= len,
            len == text@.len(),
            len <= 18,
            value == value_of(text@.take(i as int)),
            value < pow(10, i as nat),
            forall|j: int| 0 <= j < i ==> is_digit(#[trigger] text@[j]),
        decreases len - i,
    {
        let c = text.get_char(i);
        if c < '0' || c > '9' {
            return None;
        }
        proof {
            lemma_pow10_bound(i as nat);
            assert(text@.take(i + 1).drop_last() =~= text@.take(i as int));
        }
        value = value * 10 + (c as u64 - 48);
        i = i + 1;
    }
    proof {
        assert(text@.take(i as int) =~= text@);
    }
    Some(value)
}

/// Powers of ten with fewer than 18 zeros leave room for one more digit.
proof fn lemma_pow10_bound(i: nat)
    requires
        i < 18,
    ensures
        pow(10, i) * 10 == pow(10, i + 1),
        pow(10, i) <= 100_000_000_000_000_000,
{
    vstd::arithmetic::power::lemma_pow_increases(10, i, 17);
    assert(pow(10, 17) == 100_000_000_000_000_000) by {
        reveal_with_fuel(pow, 18);
    }
    reveal_with_fuel(pow, 2);
}

/// Padding a number that fits its width yields its digits.
pub proof fn lemma_padded_is_digits(n: nat, width: nat)
    requires
        width > 0,
        n < pow(10, width),
    ensures
        padded_decimal(n, width) == digits(n, width),
    decreases width,
{
    reveal_with_fuel(pow, 2);
    if width == 1 {
        assert(digits(n / 10, 0) =~= Seq::<char>::empty());
        assert(padded_decimal(n, width) =~= digits(n, width));
    } else {
        let less = (width - 1) as nat;
        assert(pow(10, width) == 10 * pow(10, less));
        lemma_padded_is_digits(n / 10, less);
        if n < 10 {
            assert(n / 10 == 0 && n % 10 == n);
            assert(decimal(0) =~= seq!['0']);
            assert(padded_decimal(0, less) =~= Seq::new(less, |i: int| '0'));
        }
        assert(padded_decimal(n, width) =~= padded_decimal(n / 10, less).push(digit_char(n % 10)));
    }
}

/// Reading the digits of a number that fits its width gives the number back.
pub proof fn lemma_digits_read_back(n: nat, width: nat)
    requires
        n < pow(10, width),
    ensures
        digits(n, width).len() == width,
        forall|i: int| 0 <= i < width ==> is_digit(#[trigger] digits(n, width)[i]),
        value_of(digits(n, width)) == n,
    decreases width,
{
    reveal_with_fuel(pow, 2);
    if width > 0 {
        let less = (width - 1) as nat;
        assert(pow(10, width) == 10 * pow(10, less));
        lemma_digits_read_back(n / 10, less);
        assert(digits(n, width).drop_last() =~= digits(n / 10, less));
    }
}

/// Writing out the number that a text of digits stands for gives the text back.
pub proof fn lemma_value_written_back(text: Seq<char>)
    requires
        forall|i: int| 0 <= i < text.len() ==> is_digit(#[trigger] text[i]),
    ensures
        value_of(text) < pow(10, text.len()),
        digits(value_of(text), text.len()) == text,
    decreases text.len(),
{
    reveal_with_fuel(pow, 2);
    if text.len() > 0 {
        let front = text.drop_last();
        assert(is_digit(text[text.len() - 1]));
        assert forall|i: int| 0 <= i < front.len() implies is_digit(#[trigger] front[i]) by {
            assert(is_digit(text[i]));
        }
        lemma_value_written_back(front);
        assert(pow(10, text.len()) == 10 * pow(10, front.len()));
        assert(digits(value_of(text), text.len()) =~= text);
    } else {
        assert(digits(value_of(text), 0) =~= text);
    }
}

// --- Laws ---

/// Decimal text reads back as its number, and has no leading zero.
pub proof fn decimals_read_back(n: nat)
    ensures
        value_of(decimal(n)) == n,
        decimal(n).len() > 0,
        forall|i: int| 0 <= i < decimal(n).len() ==> is_digit(#[trigger] decimal(n)[i]),
        decimal(n).len() > 1 ==> decimal(n)[0] != '0',
        n < 10 <==> decimal(n).len() == 1,
    decreases n,
{
    if n < 10 {
        assert(decimal(n).drop_last() =~= Seq::<char>::empty());
        assert(value_of(Seq::<char>::empty()) == 0);
    } else {
        decimals_read_back(n / 10);
        let front = decimal(n / 10);
        assert(decimal(n).drop_last() =~= front);
        assert(decimal(n)[0] == front[0]);
        assert forall|i: int| 0 <= i < decimal(n).len() implies is_digit(
            #[trigger] decimal(n)[i],
        ) by {
            if i < front.len() {
                assert(decimal(n)[i] == front[i]);
            }
        }
        if n < 100 {
            assert(front[0] == digit_char(n / 10));
        }
    }
}

/// Padding puts zeros in front of the decimal text, up to the width.
pub proof fn padding_puts_zeros_in_front(n: nat, width: nat, i: int)
    requires
        0 <= i < padded_decimal(n, width).len(),
    ensures
        ({
            let text = padded_decimal(n, width);
            let zeros = text.len() - decimal(n).len();
            &&& text.len() == if width > decimal(n).len() {
                width
            } else {
                decimal(n).len()
            }
            &&& text[i] == if i < zeros {
                '0'
            } else {
                decimal(n)[i - zeros]
            }
        }),
{
}

/// A text stands for ten times what it stands for without its last digit, plus
/// that digit.
pub proof fn digits_count_by_tens(text: Seq<char>, digit: nat)
    requires
        digit < 10,
    ensures
        value_of(text.push(digit_char(digit))) == 10 * value_of(text) + digit,
        value_of(Seq::<char>::empty()) == 0,
        digit_char(0) == '0',
        digit_char(digit) as int == '0' as int + digit,
{
    assert(text.push(digit_char(digit)).drop_last() =~= text);
}

/// Signed text is the text of the magnitude, behind a minus sign if and only if
/// the number is negative.
pub proof fn signs_stand_in_front(n: int)
    ensures
        n >= 0 ==> signed_decimal(n) == decimal(n as nat),
        n < 0 ==> signed_decimal(n) == seq!['-'] + decimal((-n) as nat),
{
    reveal_strlit("-");
    assert("-"@ =~= seq!['-']);
}

/// Different numbers have different decimal texts.
pub proof fn decimals_differ(a: nat, b: nat)
    ensures
        decimal(a) == decimal(b) <==> a == b,
{
    decimals_read_back(a);
    decimals_read_back(b);
}

} // verus!
