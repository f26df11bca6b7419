//! Decimal text, and small helpers on strings.

use vstd::arithmetic::power::pow;
use vstd::prelude::*;

verus! {

/// `String::push` appends one character to the end of the string.
pub assume_specification[ String::push ](s: &mut String, c: char)
    ensures
        final(s)@ == old(s)@.push(c),
;

/// The decimal digit of `d`, for `d` below ten.
pub open spec fn digit_char(d: int) -> char {
    (48 + d) as char
}

/// Whether `c` is one of `0` to `9`.
pub open spec fn is_digit(c: char) -> bool {
    '0' <= c <= '9'
}

/// The decimal text of a natural number, without leading zeros.
pub open spec fn decimal(n: nat) -> Seq<char>
    decreases n,
{
    if n < 10 {
        seq![digit_char(n as int)]
    } else {
        decimal(n / 10).push(digit_char((n % 10) as int))
    }
}

/// The decimal text of an integer, with a leading `-` below zero.
pub open spec fn decimal_int(n: int) -> Seq<char> {
    if n < 0 {
        seq!['-'] + decimal((-n) as nat)
    } else {
        decimal(n as nat)
    }
}

/// The number that a run of decimal digits stands for.
pub open spec fn digits_value(s: Seq<char>) -> nat
    decreases s.len(),
{
    if s.len() == 0 {
        0
    } else {
        (10 * digits_value(s.drop_last()) + (s.last() as int - 48)) as nat
    }
}

/// Whether every character is a decimal digit.
pub open spec fn all_digits(s: Seq<char>) -> bool {
    forall|i: int| 0 <= i < s.len() ==> is_digit(#[trigger] s[i])
}

/// `n` in decimal, filled up with zeros on the left to at least `width` characters.
pub open spec fn zero_padded(n: nat, width: nat) -> Seq<char> {
    let d = decimal(n);
    if d.len() >= width {
        d
    } else {
        Seq::new((width - d.len()) as nat, |i: int| '0') + d
    }
}

/// Decimal text consists of digits, is never empty, and reads back as the number it came from.
pub proof fn decimal_reads_back(n: nat)
    ensures
        all_digits(decimal(n)),
        decimal(n).len() > 0,
        digits_value(decimal(n)) == n,
    decreases n,
{
    reveal_with_fuel(digits_value, 2);
    if n >= 10 {
        decimal_reads_back(n / 10);
        assert(decimal(n).drop_last() =~= decimal(n / 10));
    } else {
        assert(decimal(n).drop_last() =~= Seq::empty());
    }
}

/// No decimal text starts with a zero, except that of zero itself.
pub proof fn decimal_has_no_leading_zero(n: nat)
    ensures
        n > 0 ==> decimal(n)[0] != '0',
        n == 0 ==> decimal(n) == seq!['0'],
    decreases n,
{
    if n >= 10 {
        decimal_has_no_leading_zero(n / 10);
        decimal_reads_back(n / 10);
        assert(decimal(n)[0] == decimal(n / 10)[0]);
    }
}

/// A number below the `k`-th power of ten has at most `k` digits.
pub proof fn decimal_len_bound(n: nat, k: nat)
    requires
        1 <= k,
        n < pow(10, k),
    ensures
        decimal(n).len() <= k,
    decreases k,
{
    reveal(pow);
    if n >= 10 {
        if k == 1 {
            assert(pow(10, 0) == 1);
        } else {
            assert(pow(10, k) == 10 * pow(10, (k - 1) as nat));
            decimal_len_bound(n / 10, (k - 1) as nat);
        }
    }
}

proof fn leading_zeros_value(zeros: nat, s: Seq<char>)
    ensures
        digits_value(Seq::new(zeros, |i: int| '0') + s) == digits_value(s),
    decreases zeros + s.len(),
{
    let fill = Seq::new(zeros, |i: int| '0');
    if s.len() > 0 {
        leading_zeros_value(zeros, s.drop_last());
        assert((fill + s).drop_last() =~= fill + s.drop_last());
    } else {
        assert(fill + s =~= fill);
        if zeros > 0 {
            leading_zeros_value((zeros - 1) as nat, s);
            assert(fill.drop_last() =~= Seq::new((zeros - 1) as nat, |i: int| '0') + s);
        }
    }
}

/// A number that fits is padded to exactly `width` digits, and still reads back.
pub proof fn zero_padded_shape(n: nat, width: nat)
    requires
        1 <= width,
        n < pow(10, width),
    ensures
        zero_padded(n, width).len() == width,
        all_digits(zero_padded(n, width)),
        digits_value(zero_padded(n, width)) == n,
{
    decimal_reads_back(n);
    decimal_len_bound(n, width);
    let d = decimal(n);
    if d.len() < width {
        leading_zeros_value((width - d.len()) as nat, d);
    }
}

proof fn digits_value_bound(s: Seq<char>)
    requires
        all_digits(s),
    ensures
        digits_value(s) < pow(10, s.len()),
    decreases s.len(),
{
    reveal(pow);
    if s.len() > 0 {
        digits_value_bound(s.drop_last());
        assert(is_digit(s[s.len() - 1]));
        assert(pow(10, s.len()) == 10 * pow(10, (s.len() - 1) as nat));
    }
}

proof fn equal_digits(a: Seq<char>, b: Seq<char>)
    requires
        all_digits(a),
        all_digits(b),
        a.len() == b.len(),
        digits_value(a) == digits_value(b),
    ensures
        a == b,
    decreases a.len(),
{
    if a.len() > 0 {
        assert(is_digit(a[a.len() - 1]) && is_digit(b[b.len() - 1]));
        equal_digits(a.drop_last(), b.drop_last());
        assert(a =~= a.drop_last().push(a.last()));
        assert(b =~= b.drop_last().push(b.last()));
    }
    assert(a =~= b);
}

/// Any row of digits is the number that it stands for, padded to its length.
pub proof fn digits_are_zero_padded(s: Seq<char>)
    requires
        s.len() > 0,
        all_digits(s),
    ensures
        digits_value(s) < pow(10, s.len()),
        zero_padded(digits_value(s), s.len()) == s,
{
    digits_value_bound(s);
    zero_padded_shape(digits_value(s), s.len());
    equal_digits(zero_padded(digits_value(s), s.len()), s);
}

/// Different numbers have different decimal texts.
pub proof fn decimal_int_injective(a: int, b: int)
    ensures
        decimal_int(a) == decimal_int(b) ==> a == b,
{
    let x = (if a < 0 { -a } else { a }) as nat;
    let y = (if b < 0 { -b } else { b }) as nat;
    decimal_reads_back(x);
    decimal_reads_back(y);
    if decimal_int(a) == decimal_int(b) {
        if a < 0 && b < 0 {
            assert(decimal_int(a).skip(1) =~= decimal(x));
            assert(decimal_int(b).skip(1) =~= decimal(y));
        } else if a < 0 {
            assert(is_digit(decimal(y)[0]));
        } else if b < 0 {
            assert(is_digit(decimal(x)[0]));
        }
    }
}

fn digit(d: u8) -> (c: char)
    requires
        d < 10,
    ensures
        c == digit_char(d as int),
{
    (48 + d) as char
}

/// `n` in decimal.
pub fn u64_text(n: u64) -> (s: String)
    ensures
        s@ == decimal(n as nat),
    decreases n,
{
    let mut s: String = if n < 10 {
        String::new()
    } else {
        u64_text(n / 10)
    };
    s.push(digit((n % 10) as u8));
    s
}

/// `n` in decimal, with a leading `-` below zero.
pub fn i64_text(n: i64) -> (s: String)
    ensures
        s@ == decimal_int(n as int),
{
    if n >= 0 {
        u64_text(n as u64)
    } else {
        let magnitude: u64 = (-(n + 1)) as u64 + 1;
        let digits = u64_text(magnitude);
        let mut s = String::new();
        s.push('-');
        s.append(digits.as_str());
        s
    }
}

/// `n` in decimal, filled up with zeros on the left to at least `width` characters.
pub fn zero_padded_text(n: u64, width: usize) -> (s: String)
    ensures
        s@ == zero_padded(n as nat, width as nat),
{
    let digits = u64_text(n);
    let len: usize = digits.as_str().unicode_len();
    let mut s = String::new();
    if len < width {
        let fill: usize = width - len;
        let mut i: usize = 0;
        while i < fill
            invariant
                i <= fill,
                s@ == Seq::new(i as nat, |k: int| '0'),
            decreases fill - i,
        {
            s.push('0');
            i += 1;
            assert(s@ =~= Seq::new(i as nat, |k: int| '0'));
        }
    }
    s.append(digits.as_str());
    assert(len >= width ==> s@ =~= digits@);
    s
}

/// Two texts joined.
pub fn join2(a: &str, b: &str) -> (s: String)
    ensures
        s@ == a@ + b@,
{
    let mut s = a.to_owned();
    s.append(b);
    s
}

/// Three texts joined.
pub fn join3(a: &str, b: &str, c: &str) -> (s: String)
    ensures
        s@ == a@ + b@ + c@,
{
    let mut s = join2(a, b);
    s.append(c);
    s
}

/// Whether two texts hold the same characters.
pub fn same_text(a: &str, b: &str) -> (same: bool)
    ensures
        same == (a@ == b@),
{
    a.to_owned() == b.to_owned()
}

/// The characters of `s`, in order.
pub fn chars_of(s: &str) -> (chars: Vec<char>)
    ensures
        chars@ == s@,
{
    let mut chars: Vec<char> = Vec::new();
    for c in it: s.chars()
        invariant
            it.seq() == s@,
            chars@ == s@.take(it.index() as int),
    {
        chars.push(c);
        assert(chars@ =~= s@.take(it.index() as int + 1));
    }
    assert(s@.take(s@.len() as int) =~= s@);
    chars
}

/// A digit behind a row of digits makes ten times the number, and the digit more.
pub proof fn another_digit_counts(s: Seq<char>, c: char)
    requires
        is_digit(c),
    ensures
        digits_value(Seq::empty()) == 0,
        digits_value(s.push(c)) == 10 * digits_value(s) + (c as int - '0' as int),
{
    assert(s.push(c).drop_last() =~= s);
}

/// The text of an integer reads back: digits that stand for its size, with a minus before them
/// exactly if it is below zero.
pub proof fn decimal_int_reads_back(n: int)
    ensures
        n >= 0 ==> all_digits(decimal_int(n)) && decimal_int(n).len() > 0 && digits_value(
            decimal_int(n),
        ) == n,
        n < 0 ==> decimal_int(n).len() > 1 && decimal_int(n)[0] == '-' && all_digits(
            decimal_int(n).skip(1),
        ) && digits_value(decimal_int(n).skip(1)) == -n,
{
    if n < 0 {
        decimal_reads_back((-n) as nat);
        assert(decimal_int(n).skip(1) =~= decimal((-n) as nat));
    } else {
        decimal_reads_back(n as nat);
    }
}

/// Padding changes nothing but the width: the digits still stand for the number, and there are as
/// many as asked for, or as many as the number needs where that is more.
pub proof fn padding_keeps_the_number(n: nat, width: nat)
    ensures
        all_digits(zero_padded(n, width)),
        digits_value(zero_padded(n, width)) == n,
        decimal(n).len() <= width ==> zero_padded(n, width).len() == width,
        decimal(n).len() > width ==> zero_padded(n, width) == decimal(n),
{
    decimal_reads_back(n);
    let d = decimal(n);
    if d.len() < width {
        leading_zeros_value((width - d.len()) as nat, d);
    }
}

} // verus!
