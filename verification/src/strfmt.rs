//! String building blocks for the markup emitter: appending single characters,
//! decimal numbers, and fixed-point quantities held in thousandths.
//!
//! All drawing-surface quantities in this crate are integers counting
//! thousandths of a unit ("milli" values), so that coordinates print with the
//! three fractional digits the markup grammar uses, with no floating point.

use vstd::prelude::*;

verus! {

/// Relies on `String::push`: appends the given `char` to the end of the string.
#[verifier::external_body]
pub fn push_char(s: &mut String, c: char)
    ensures
        final(s)@ == old(s)@ + seq![c],
{
    s.push(c);
}

/// The character for one decimal digit.
pub open spec fn spec_digit(d: nat) -> char {
    if d == 0 {
        '0'
    } else if d == 1 {
        '1'
    } else if d == 2 {
        '2'
    } else if d == 3 {
        '3'
    } else if d == 4 {
        '4'
    } else if d == 5 {
        '5'
    } else if d == 6 {
        '6'
    } else if d == 7 {
        '7'
    } else if d == 8 {
        '8'
    } else {
        '9'
    }
}

/// The decimal notation of a natural number, most significant digit first.
pub open spec fn spec_decimal(n: nat) -> Seq<char>
    decreases n,
{
    if n < 10 {
        seq![spec_digit(n)]
    } else {
        spec_decimal(n / 10).push(spec_digit(n % 10))
    }
}

fn digit_char(d: u64) -> (c: char)
    requires
        d < 10,
    ensures
        c == spec_digit(d as nat),
{
    if d == 0 {
        '0'
    } else if d == 1 {
        '1'
    } else if d == 2 {
        '2'
    } else if d == 3 {
        '3'
    } else if d == 4 {
        '4'
    } else if d == 5 {
        '5'
    } else if d == 6 {
        '6'
    } else if d == 7 {
        '7'
    } else if d == 8 {
        '8'
    } else {
        '9'
    }
}

/// Appends the decimal notation of `n`.
pub fn push_decimal(s: &mut String, n: u64)
    ensures
        final(s)@ == old(s)@ + spec_decimal(n as nat),
    decreases n,
{
    if n < 10 {
        push_char(s, digit_char(n));
    } else {
        push_decimal(s, n / 10);
        push_char(s, digit_char(n % 10));
        assert(final(s)@ =~= old(s)@ + spec_decimal(n as nat));
    }
}

/// The three fractional digits of a milli value's fractional part.
pub open spec fn spec_frac3(f: nat) -> Seq<char> {
    seq![spec_digit(f / 100 % 10), spec_digit(f / 10 % 10), spec_digit(f % 10)]
}

/// A milli quantity printed with exactly three fractional digits, as the
/// markup emitter writes coordinates.
pub open spec fn spec_milli_fixed(m: nat) -> Seq<char> {
    spec_decimal(m / 1000) + seq!['.'] + spec_frac3(m % 1000)
}

/// Appends `m` thousandths as a fixed-point number with three fractional
/// digits.
pub fn push_milli_fixed(s: &mut String, m: u64)
    ensures
        final(s)@ == old(s)@ + spec_milli_fixed(m as nat),
{
    push_decimal(s, m / 1000);
    push_char(s, '.');
    let f: u64 = m % 1000;
    push_char(s, digit_char(f / 100 % 10));
    push_char(s, digit_char(f / 10 % 10));
    push_char(s, digit_char(f % 10));
    assert(final(s)@ =~= old(s)@ + spec_milli_fixed(m as nat));
}

/// A milli quantity printed with the shortest fraction: no fractional part
/// when it is a whole number, and no trailing fractional zeros otherwise.
/// The canvas size attributes are written this way.
pub open spec fn spec_milli_trimmed(m: nat) -> Seq<char> {
    let f: nat = m % 1000;
    if f == 0 {
        spec_decimal(m / 1000)
    } else if f % 100 == 0 {
        spec_decimal(m / 1000) + seq!['.', spec_digit(f / 100)]
    } else if f % 10 == 0 {
        spec_decimal(m / 1000) + seq!['.', spec_digit(f / 100), spec_digit(f / 10 % 10)]
    } else {
        spec_milli_fixed(m)
    }
}

/// Appends `m` thousandths with the shortest fraction.
pub fn push_milli_trimmed(s: &mut String, m: u64)
    ensures
        final(s)@ == old(s)@ + spec_milli_trimmed(m as nat),
{
    let f: u64 = m % 1000;
    if f == 0 {
        push_decimal(s, m / 1000);
    } else if f % 100 == 0 {
        push_decimal(s, m / 1000);
        push_char(s, '.');
        push_char(s, digit_char(f / 100));
        assert(final(s)@ =~= old(s)@ + spec_milli_trimmed(m as nat));
    } else if f % 10 == 0 {
        push_decimal(s, m / 1000);
        push_char(s, '.');
        push_char(s, digit_char(f / 100));
        push_char(s, digit_char(f / 10 % 10));
        assert(final(s)@ =~= old(s)@ + spec_milli_trimmed(m as nat));
    } else {
        push_milli_fixed(s, m);
    }
}

/// The given sequences joined by the separator.
pub open spec fn spec_join(items: Seq<Seq<char>>, sep: Seq<char>) -> Seq<char>
    decreases items.len(),
{
    if items.len() == 0 {
        Seq::empty()
    } else if items.len() == 1 {
        items[0]
    } else {
        spec_join(items.drop_last(), sep) + sep + items.last()
    }
}

/// Appends the given strings joined by the separator.
pub fn push_joined(s: &mut String, items: &Vec<String>, sep: &str)
    ensures
        final(s)@ == old(s)@ + spec_join(items.deep_view(), sep@),
{
    let ghost views = items.deep_view();
    let mut i: usize = 0;
    while i < items.len()
        invariant
            i <= items@.len(),
            views == items.deep_view(),
            views.len() == items@.len(),
            s@ == old(s)@ + spec_join(views.take(i as int), sep@),
        decreases items@.len() - i,
    {
        if i > 0 {
            s.append(sep);
        }
        s.append(items[i].as_str());
        proof {
            assert(views.take(i + 1).drop_last() =~= views.take(i as int));
            assert(views.take(i + 1).last() == views[i as int]);
            assert(s@ =~= old(s)@ + spec_join(views.take(i + 1), sep@));
        }
        i = i + 1;
    }
    proof {
        assert(views.take(views.len() as int) =~= views);
    }
}

} // verus!
