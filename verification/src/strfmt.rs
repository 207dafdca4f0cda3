//! Decimal formatting of unsigned integers into strings, with zero padding on
//! the left and space padding on the right, and a fixed-point "dollars.cents"
//! rendering of amounts held in minor currency units.

use vstd::prelude::*;

verus! {

/// The character for one decimal digit value.
pub open spec fn digit_char(d: int) -> char {
    if d == 0 {
        '0'
    } else if d == 1 {
        '1'
    } else if d == 2 {
        '2'
    } else if d == 3 {
        '3'
    } else if d == 4 {
        '4'
    } else if d == 5 {
        '5'
    } else if d == 6 {
        '6'
    } else if d == 7 {
        '7'
    } else if d == 8 {
        '8'
    } else {
        '9'
    }
}

/// The decimal digit string of `n`, most significant digit first, with no
/// leading zeros (a single `0` for zero).
pub open spec fn dec_digits(n: nat) -> Seq<char>
    decreases n,
{
    if n < 10 {
        seq![digit_char(n as int)]
    } else {
        dec_digits(n / 10) + seq![digit_char((n % 10) as int)]
    }
}

/// `s` left-padded with `0` characters up to width `w` (unchanged when
/// already at least that wide).
pub open spec fn zero_pad(s: Seq<char>, w: nat) -> Seq<char>
    decreases w,
{
    if s.len() >= w {
        s
    } else {
        seq!['0'] + zero_pad(s, (w - 1) as nat)
    }
}

/// `s` right-padded with spaces up to width `w` (unchanged when already at
/// least that wide).
pub open spec fn space_pad_right(s: Seq<char>, w: nat) -> Seq<char>
    decreases w,
{
    if s.len() >= w {
        s
    } else {
        space_pad_right(s, (w - 1) as nat) + seq![' ']
    }
}

/// An amount of `c` minor currency units rendered with two decimal places,
/// e.g. 100050 as `1000.50`.
pub open spec fn cents_str(c: nat) -> Seq<char> {
    dec_digits(c / 100) + seq!['.'] + zero_pad(dec_digits(c % 100), 2)
}

/// Whether `c` is one of the ten decimal digit characters.
pub open spec fn is_dec_digit(c: char) -> bool {
    c == '0' || c == '1' || c == '2' || c == '3' || c == '4' || c == '5' || c == '6' || c == '7'
        || c == '8' || c == '9'
}

/// Powers of ten.
pub open spec fn pow10(k: nat) -> nat
    decreases k,
{
    if k == 0 {
        1
    } else {
        10 * pow10((k - 1) as nat)
    }
}

/// The decimal string of a number in `[pow10(k-1), pow10(k))` has exactly `k`
/// digits.
pub proof fn lemma_dec_digits_len(n: nat, k: nat)
    requires
        k >= 1,
        pow10((k - 1) as nat) <= n < pow10(k),
    ensures
        dec_digits(n).len() == k,
    decreases k,
{
    if k == 1 {
    } else {
        assert(pow10(k) == 10 * pow10((k - 1) as nat));
        assert(pow10((k - 1) as nat) == 10 * pow10((k - 2) as nat));
        assert(n >= 10);
        assert(pow10((k - 2) as nat) <= n / 10 < pow10((k - 1) as nat)) by (nonlinear_arith)
            requires
                10 * pow10((k - 2) as nat) <= n,
                n < 10 * pow10((k - 1) as nat),
                pow10((k - 2) as nat) >= 1,
        ;
        lemma_dec_digits_len(n / 10, (k - 1) as nat);
    }
}

/// Every character of a decimal string is a digit character.
pub proof fn lemma_dec_digits_are_digits(n: nat)
    ensures
        forall|i: int|
            0 <= i < dec_digits(n).len() ==> is_dec_digit(#[trigger] dec_digits(n)[i]),
    decreases n,
{
    if n < 10 {
        assert(dec_digits(n)[0] == digit_char(n as int));
    } else {
        lemma_dec_digits_are_digits(n / 10);
        assert forall|i: int| 0 <= i < dec_digits(n).len() implies is_dec_digit(
            #[trigger] dec_digits(n)[i],
        ) by {
            if i < dec_digits(n / 10).len() {
                assert(dec_digits(n)[i] == dec_digits(n / 10)[i]);
            } else {
                assert(dec_digits(n)[i] == digit_char((n % 10) as int));
            }
        }
    }
}

/// Relies on `String::push`: appends the given character to the end of the
/// string.
#[verifier::external_body]
pub(crate) fn push_char(s: &mut String, c: char)
    ensures
        final(s)@ == old(s)@ + seq![c],
{
    s.push(c);
}

/// The character for one decimal digit value, as executable code.
pub fn digit_to_char(d: u64) -> (c: char)
    requires
        d < 10,
    ensures
        c == digit_char(d as int),
{
    if d == 0 {
        '0'
    } else if d == 1 {
        '1'
    } else if d == 2 {
        '2'
    } else if d == 3 {
        '3'
    } else if d == 4 {
        '4'
    } else if d == 5 {
        '5'
    } else if d == 6 {
        '6'
    } else if d == 7 {
        '7'
    } else if d == 8 {
        '8'
    } else {
        '9'
    }
}

/// Renders `n` in decimal, with no leading zeros.
pub fn u64_to_dec(n: u64) -> (s: String)
    ensures
        s@ == dec_digits(n as nat),
    decreases n,
{
    if n < 10 {
        let mut s = String::new();
        push_char(&mut s, digit_to_char(n));
        assert(s@ =~= dec_digits(n as nat));
        s
    } else {
        let mut s = u64_to_dec(n / 10);
        push_char(&mut s, digit_to_char(n % 10));
        assert(s@ =~= dec_digits(n as nat));
        s
    }
}

/// Left-pads `s` with `0` characters up to width `w`.
pub fn pad_zeros_to(s: String, w: usize) -> (r: String)
    ensures
        r@ == zero_pad(s@, w as nat),
    decreases w,
{
    let ghost sv = s@;
    let n = s.as_str().unicode_len();
    if n >= w {
        s
    } else {
        let rest = pad_zeros_to(s, w - 1);
        let mut r = String::new();
        push_char(&mut r, '0');
        r.append(rest.as_str());
        assert(r@ =~= seq!['0'] + zero_pad(sv, (w - 1) as nat));
        r
    }
}

/// Renders `n` in decimal, left-padded with zeros to width `w`.
pub fn u64_to_dec_pad(n: u64, w: usize) -> (r: String)
    ensures
        r@ == zero_pad(dec_digits(n as nat), w as nat),
{
    pad_zeros_to(u64_to_dec(n), w)
}

/// Right-pads `s` with spaces up to width `w`.
pub fn pad_spaces_right(s: String, w: usize) -> (r: String)
    ensures
        r@ == space_pad_right(s@, w as nat),
    decreases w,
{
    let n = s.as_str().unicode_len();
    if n >= w {
        s
    } else {
        let mut r = pad_spaces_right(s, w - 1);
        push_char(&mut r, ' ');
        r
    }
}

/// Renders an amount of `c` minor currency units with two decimal places.
pub fn cents_to_string(c: u64) -> (r: String)
    ensures
        r@ == cents_str(c as nat),
{
    let mut r = u64_to_dec(c / 100);
    push_char(&mut r, '.');
    r.append(u64_to_dec_pad(c % 100, 2).as_str());
    assert(r@ =~= cents_str(c as nat));
    r
}

} // verus!

