//! Numbers as text, for the messages and log lines of this library.

use vstd::prelude::*;
use vstd::string::StringExecFns;

verus! {

/// The character of the digit `d`, in lower case beyond nine.
pub open spec fn digit_char(d: nat) -> char {
    if d == 0 {
        '0'
    } else if d == 1 {
        '1'
    } else if d == 2 {
        '2'
    } else if d == 3 {
        '3'
    } else if d == 4 {
        '4'
    } else if d == 5 {
        '5'
    } else if d == 6 {
        '6'
    } else if d == 7 {
        '7'
    } else if d == 8 {
        '8'
    } else if d == 9 {
        '9'
    } else if d == 10 {
        'a'
    } else if d == 11 {
        'b'
    } else if d == 12 {
        'c'
    } else if d == 13 {
        'd'
    } else if d == 14 {
        'e'
    } else {
        'f'
    }
}

/// The digits of `n` to the base `radix`, most significant first, without
/// leading zeros: one zero for zero.
pub open spec fn digits(n: nat, radix: nat) -> Seq<char>
    recommends
        2 <= radix <= 16,
    decreases n,
{
    if n < radix || radix < 2 {
        seq![digit_char(n)]
    } else {
        proof {
            lemma_quotient_is_smaller(n, radix);
        }
        digits(n / radix, radix).push(digit_char(n % radix))
    }
}

/// The decimal digits of `n`.
pub open spec fn decimal_digits(n: nat) -> Seq<char> {
    digits(n, 10)
}

/// `text` with as many `fill` in front as it takes to make it `width`
/// long; `text` itself where it is that long already.
pub open spec fn padded(text: Seq<char>, width: nat, fill: char) -> Seq<char> {
    if text.len() >= width {
        text
    } else {
        Seq::new((width - text.len()) as nat, |i: int| fill) + text
    }
}

/// `n` in hexadecimal digits behind `0x`.
pub open spec fn hex_text(n: nat) -> Seq<char> {
    "0x"@ + digits(n, 16)
}

/// `n` in sixteen hexadecimal digits behind `0x`, with zeros in front.
pub open spec fn wide_hex_text(n: nat) -> Seq<char> {
    "0x"@ + padded(digits(n, 16), 16, '0')
}

/// `n` in at least three octal digits behind `0o`, with zeros in front.
pub open spec fn octal_text(n: nat) -> Seq<char> {
    "0o"@ + padded(digits(n, 8), 3, '0')
}

/// `n` in decimal digits, with blanks in front of fewer than three.
pub open spec fn aligned_text(n: nat) -> Seq<char> {
    padded(digits(n, 10), 3, ' ')
}

/// The text of one digit.
fn digit_text(d: u8) -> (text: &'static str)
    requires
        d < 16,
    ensures
        text@ == seq![digit_char(d as nat)],
{
    proof {
        reveal_strlit("0");
        reveal_strlit("1");
        reveal_strlit("2");
        reveal_strlit("3");
        reveal_strlit("4");
        reveal_strlit("5");
        reveal_strlit("6");
        reveal_strlit("7");
        reveal_strlit("8");
        reveal_strlit("9");
        reveal_strlit("a");
        reveal_strlit("b");
        reveal_strlit("c");
        reveal_strlit("d");
        reveal_strlit("e");
        reveal_strlit("f");
    }
    let text = match d {
        0 => "0",
        1 => "1",
        2 => "2",
        3 => "3",
        4 => "4",
        5 => "5",
        6 => "6",
        7 => "7",
        8 => "8",
        9 => "9",
        10 => "a",
        11 => "b",
        12 => "c",
        13 => "d",
        14 => "e",
        _ => "f",
    };
    assert(text@ =~= seq![digit_char(d as nat)]);
    text
}

/// Dividing by two or more makes a number smaller, and at most half.
pub proof fn lemma_quotient_is_smaller(n: nat, radix: nat)
    requires
        2 <= radix <= n,
    ensures
        n / radix < n,
        2 * (n / radix) <= n,
{
    assert(2 * (n / radix) <= n) by (nonlinear_arith)
        requires
            2 <= radix <= n,
    ;
}

/// A number has no more digits than it counts, and zero has one.
proof fn lemma_digits_are_few(n: nat, radix: nat)
    requires
        2 <= radix <= 16,
    ensures
        1 <= digits(n, radix).len(),
        digits(n, radix).len() <= if n == 0 {
            1
        } else {
            n
        },
    decreases n,
{
    if n >= radix {
        lemma_quotient_is_smaller(n, radix);
        lemma_digits_are_few(n / radix, radix);
    }
}

/// Appends the digits of `n` to the base `radix` to `text` and returns
/// how many they are.
fn append_digits(text: &mut String, n: u64, radix: u64) -> (count: u64)
    requires
        2 <= radix <= 16,
    ensures
        final(text)@ == old(text)@ + digits(n as nat, radix as nat),
        count == digits(n as nat, radix as nat).len(),
    decreases n,
{
    proof {
        lemma_digits_are_few(n as nat, radix as nat);
    }
    if n < radix {
        text.append(digit_text(n as u8));
        1
    } else {
        proof {
            lemma_quotient_is_smaller(n as nat, radix as nat);
        }
        let count = append_digits(text, n / radix, radix);
        text.append(digit_text((n % radix) as u8));
        proof {
            let front = digits((n / radix) as nat, radix as nat);
            let last = seq![digit_char((n % radix) as nat)];
            assert(old(text)@ + front + last =~= old(text)@ + front.push(last[0]));
        }
        count + 1
    }
}

/// Appends `count` times `fill` to `text`.
fn append_fill(text: &mut String, fill: &'static str, count: u64)
    requires
        fill@.len() == 1,
    ensures
        final(text)@ == old(text)@ + Seq::new(count as nat, |i: int| fill@[0]),
{
    let mut i: u64 = 0;
    assert(text@ + Seq::new(0, |i: int| fill@[0]) =~= text@);
    while i < count
        invariant
            i <= count,
            fill@.len() == 1,
            text@ == old(text)@ + Seq::new(i as nat, |j: int| fill@[0]),
        decreases count - i,
    {
        text.append(fill);
        assert(text@ =~= old(text)@ + Seq::new((i + 1) as nat, |j: int| fill@[0]));
        i = i + 1;
    }
}

/// Appends the digits of `n` to the base `radix` to `text`, behind as
/// many `fill` as it takes to make them `width`.
fn append_padded(text: &mut String, n: u64, radix: u64, width: u64, fill: &'static str)
    requires
        2 <= radix <= 16,
        fill@.len() == 1,
    ensures
        final(text)@ == old(text)@ + padded(digits(n as nat, radix as nat), width as nat, fill@[0]),
{
    let mut shown = String::new();
    let count = append_digits(&mut shown, n, radix);
    assert(shown@ =~= digits(n as nat, radix as nat));
    if count < width {
        append_fill(text, fill, width - count);
    }
    text.append(shown.as_str());
    assert(text@ =~= old(text)@ + padded(
        digits(n as nat, radix as nat),
        width as nat,
        fill@[0],
    ));
}

/// The number `n` in decimal digits.
pub fn decimal(n: u64) -> (text: String)
    ensures
        text@ == decimal_digits(n as nat),
{
    let mut text = String::new();
    append_digits(&mut text, n, 10);
    assert(text@ =~= decimal_digits(n as nat));
    text
}

/// Appends `n` in decimal digits.
pub fn append_decimal(text: &mut String, n: u64)
    ensures
        final(text)@ == old(text)@ + decimal_digits(n as nat),
{
    append_digits(text, n, 10);
}

/// Appends `n` in hexadecimal digits behind `0x`.
pub fn append_hex(text: &mut String, n: u64)
    ensures
        final(text)@ == old(text)@ + hex_text(n as nat),
{
    text.append("0x");
    append_digits(text, n, 16);
    assert(text@ =~= old(text)@ + hex_text(n as nat));
}

/// Appends `n` in sixteen hexadecimal digits behind `0x`.
pub fn append_wide_hex(text: &mut String, n: u64)
    ensures
        final(text)@ == old(text)@ + wide_hex_text(n as nat),
{
    proof {
        reveal_strlit("0");
    }
    text.append("0x");
    append_padded(text, n, 16, 16, "0");
    assert(text@ =~= old(text)@ + wide_hex_text(n as nat));
}

/// Appends `n` in at least three octal digits behind `0o`.
pub fn append_octal(text: &mut String, n: u64)
    ensures
        final(text)@ == old(text)@ + octal_text(n as nat),
{
    proof {
        reveal_strlit("0");
    }
    text.append("0o");
    append_padded(text, n, 8, 3, "0");
    assert(text@ =~= old(text)@ + octal_text(n as nat));
}

/// Appends `n` in decimal digits, behind blanks where they are fewer
/// than three.
pub fn append_aligned(text: &mut String, n: u64)
    ensures
        final(text)@ == old(text)@ + aligned_text(n as nat),
{
    proof {
        reveal_strlit(" ");
    }
    append_padded(text, n, 10, 3, " ");
}

} // verus!
