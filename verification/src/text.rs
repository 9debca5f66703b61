//! Decimal formatting and small string helpers shared by the other modules.

use vstd::prelude::*;

verus! {

/// The character for a single decimal digit.
pub open spec fn digit_char(d: int) -> char {
    if d == 0 { '0' }
    else if d == 1 { '1' }
    else if d == 2 { '2' }
    else if d == 3 { '3' }
    else if d == 4 { '4' }
    else if d == 5 { '5' }
    else if d == 6 { '6' }
    else if d == 7 { '7' }
    else if d == 8 { '8' }
    else { '9' }
}

/// The decimal digits of a natural number, most significant first, with no
/// leading zeros (zero itself is the single digit `0`).
pub open spec fn nat_digits(n: nat) -> Seq<char>
    decreases n,
{
    if n < 10 {
        seq![digit_char(n as int)]
    } else {
        nat_digits(n / 10).push(digit_char((n % 10) as int))
    }
}

/// The decimal text of an integer as Rust's `Display` writes it: a minus
/// sign for negative values, then the digits of the magnitude.
pub open spec fn int_decimal(i: int) -> Seq<char> {
    if i < 0 {
        seq!['-'] + nat_digits((-i) as nat)
    } else {
        nat_digits(i as nat)
    }
}

/// Appends one character to a string.
#[verifier::external_body]
pub(crate) fn push_char(s: &mut String, c: char)
    ensures
        final(s)@ == old(s)@.push(c),
{
    s.push(c);
}

fn digit(d: u64) -> (c: char)
    requires
        d < 10,
    ensures
        c == digit_char(d as int),
{
    match d {
        0 => '0',
        1 => '1',
        2 => '2',
        3 => '3',
        4 => '4',
        5 => '5',
        6 => '6',
        7 => '7',
        8 => '8',
        _ => '9',
    }
}

/// Appends the decimal digits of `n`.
pub fn push_nat_digits(s: &mut String, n: u64)
    ensures
        final(s)@ == old(s)@ + nat_digits(n as nat),
    decreases n,
{
    if n >= 10 {
        push_nat_digits(s, n / 10);
    }
    push_char(s, digit(n % 10));
    proof {
        if n >= 10 {
            assert(nat_digits(n as nat) == nat_digits((n / 10) as nat).push(digit_char((n % 10) as int)));
        }
    }
}

/// Appends the decimal text of `i` to `s`, as `format!("{}", i)` writes it.
pub fn push_decimal(s: &mut String, i: i32)
    ensures
        final(s)@ == old(s)@ + int_decimal(i as int),
{
    if i < 0 {
        push_char(s, '-');
        let magnitude: u64 = (-(i as i64)) as u64;
        push_nat_digits(s, magnitude);
        assert(final(s)@ =~= old(s)@ + (seq!['-'] + nat_digits((-i) as nat)));
    } else {
        push_nat_digits(s, i as u64);
    }
}

} // verus!

verus! {

/// Two digits, zero-padded (`%02`).
pub open spec fn pad2(n: nat) -> Seq<char> {
    seq![digit_char((n / 10) as int), digit_char((n % 10) as int)]
}

/// At least four digits, zero-padded (`%04`).
pub open spec fn min4_digits(n: nat) -> Seq<char> {
    if n < 10000 {
        seq![
            digit_char((n / 1000) as int),
            digit_char(((n / 100) % 10) as int),
            digit_char(((n / 10) % 10) as int),
            digit_char((n % 10) as int),
        ]
    } else {
        nat_digits(n)
    }
}

/// Appends two zero-padded digits.
pub fn push_pad2(s: &mut String, n: u32)
    requires
        n < 100,
    ensures
        final(s)@ == old(s)@ + pad2(n as nat),
{
    push_char(s, digit((n / 10) as u64));
    push_char(s, digit((n % 10) as u64));
    assert(final(s)@ =~= old(s)@ + pad2(n as nat));
}

/// Appends at least four zero-padded digits.
pub fn push_min4(s: &mut String, n: u32)
    ensures
        final(s)@ == old(s)@ + min4_digits(n as nat),
{
    if n < 10000 {
        push_char(s, digit((n / 1000) as u64));
        push_char(s, digit(((n / 100) % 10) as u64));
        push_char(s, digit(((n / 10) % 10) as u64));
        push_char(s, digit((n % 10) as u64));
        assert(final(s)@ =~= old(s)@ + min4_digits(n as nat));
    } else {
        push_nat_digits(s, n as u64);
    }
}

/// Appends a string slice.
pub fn push_str(s: &mut String, t: &str)
    ensures
        final(s)@ == old(s)@ + t@,
{
    s.append(t);
}

} // verus!

verus! {

/// A decimal digit character.
pub open spec fn is_digit_char(c: char) -> bool {
    c == '0' || c == '1' || c == '2' || c == '3' || c == '4' || c == '5' || c == '6' || c == '7' || c == '8'
        || c == '9'
}

proof fn lemma_nat_digits_shape(n: nat)
    ensures
        nat_digits(n).len() >= 1,
        n < 10 <==> nat_digits(n).len() == 1,
        forall|i: int| 0 <= i < nat_digits(n).len() ==> is_digit_char(#[trigger] nat_digits(n)[i]),
    decreases n,
{
    if n >= 10 {
        lemma_nat_digits_shape(n / 10);
        let d = nat_digits(n / 10);
        assert forall|i: int| 0 <= i < nat_digits(n).len() implies is_digit_char(#[trigger] nat_digits(n)[i]) by {
            if i < d.len() {
                assert(nat_digits(n)[i] == d[i]);
            }
        }
    }
}

proof fn lemma_nat_digits_injective(a: nat, b: nat)
    requires
        nat_digits(a) == nat_digits(b),
    ensures
        a == b,
    decreases a,
{
    lemma_nat_digits_shape(a);
    lemma_nat_digits_shape(b);
    if a >= 10 {
        let da = nat_digits(a / 10);
        let db = nat_digits(b / 10);
        assert(nat_digits(a).last() == digit_char((a % 10) as int));
        assert(nat_digits(b).last() == digit_char((b % 10) as int));
        assert(a % 10 == b % 10);
        assert(da == nat_digits(a).drop_last());
        assert(db == nat_digits(b).drop_last());
        lemma_nat_digits_injective(a / 10, b / 10);
    } else {
        assert(nat_digits(a)[0] == digit_char(a as int));
        assert(nat_digits(b)[0] == digit_char(b as int));
    }
}

/// Different integers have different decimal texts.
pub proof fn lemma_int_decimal_injective(a: int, b: int)
    requires
        int_decimal(a) == int_decimal(b),
    ensures
        a == b,
{
    if a < 0 && b < 0 {
        assert(int_decimal(a).subrange(1, int_decimal(a).len() as int) =~= nat_digits((-a) as nat));
        assert(int_decimal(b).subrange(1, int_decimal(b).len() as int) =~= nat_digits((-b) as nat));
        lemma_nat_digits_injective((-a) as nat, (-b) as nat);
    } else if a >= 0 && b >= 0 {
        lemma_nat_digits_injective(a as nat, b as nat);
    } else if a < 0 {
        lemma_nat_digits_shape(b as nat);
        assert(int_decimal(a)[0] == '-');
        assert(is_digit_char(nat_digits(b as nat)[0]));
    } else {
        lemma_nat_digits_shape(a as nat);
        assert(int_decimal(b)[0] == '-');
        assert(is_digit_char(nat_digits(a as nat)[0]));
    }
}


/// The value of a decimal digit character.
pub open spec fn digit_value(c: char) -> int {
    if c == '0' { 0 }
    else if c == '1' { 1 }
    else if c == '2' { 2 }
    else if c == '3' { 3 }
    else if c == '4' { 4 }
    else if c == '5' { 5 }
    else if c == '6' { 6 }
    else if c == '7' { 7 }
    else if c == '8' { 8 }
    else { 9 }
}

/// The number that decimal digits write, most significant first.
pub open spec fn digits_value(s: Seq<char>) -> int
    decreases s.len(),
{
    if s.len() == 0 {
        0
    } else {
        digits_value(s.drop_last()) * 10 + digit_value(s.last())
    }
}

/// The decimal text of a natural number is made of digits, reads back as
/// the number, and starts with `0` only for zero itself.
pub proof fn law_decimal_reads_back(n: nat)
    ensures
        forall|i: int| 0 <= i < nat_digits(n).len() ==> is_digit_char(#[trigger] nat_digits(n)[i]),
        digits_value(nat_digits(n)) == n,
        nat_digits(n)[0] == '0' ==> n == 0,
    decreases n,
{
    lemma_nat_digits_shape(n);
    if n >= 10 {
        law_decimal_reads_back(n / 10);
        let d = nat_digits(n / 10);
        assert(nat_digits(n).drop_last() == d);
        assert(nat_digits(n)[0] == d[0]);
        lemma_digit_value((n % 10) as int);
        assert(nat_digits(n).last() == digit_char((n % 10) as int));
        assert(digits_value(nat_digits(n)) == digits_value(d) * 10 + digit_value(nat_digits(n).last()));
        assert(digits_value(d) == n / 10);
        assert(n == (n / 10) * 10 + n % 10);
    } else {
        lemma_digit_value(n as int);
        let t = nat_digits(n);
        assert(t.drop_last() =~= Seq::<char>::empty());
        assert(digits_value(t) == digits_value(t.drop_last()) * 10 + digit_value(t.last()));
        assert(digits_value(Seq::<char>::empty()) == 0);
    }
}

proof fn lemma_digit_value(d: int)
    requires
        0 <= d <= 9,
    ensures
        digit_value(digit_char(d)) == d,
{
}

/// The decimal text of an integer: a minus sign and the magnitude's digits
/// for a negative one, the digits alone otherwise.
pub proof fn law_int_decimal_reads_back(i: int)
    ensures
        i < 0 ==> int_decimal(i)[0] == '-' && digits_value(int_decimal(i).drop_first()) == -i,
        i >= 0 ==> digits_value(int_decimal(i)) == i && is_digit_char(int_decimal(i)[0]),
{
    if i < 0 {
        law_decimal_reads_back((-i) as nat);
        assert(int_decimal(i).drop_first() =~= nat_digits((-i) as nat));
    } else {
        law_decimal_reads_back(i as nat);
        lemma_nat_digits_shape(i as nat);
    }
}

/// Two zero-padded digits read back as the number, for numbers below 100.
pub proof fn law_pad2_reads_back(n: nat)
    requires
        n < 100,
    ensures
        pad2(n).len() == 2,
        digits_value(pad2(n)) == n,
{
    lemma_digit_value((n / 10) as int);
    lemma_digit_value((n % 10) as int);
    assert(n == (n / 10) * 10 + n % 10);
    let t = pad2(n);
    let h = seq![digit_char((n / 10) as int)];
    assert(t.drop_last() =~= h);
    assert(h.drop_last() =~= Seq::<char>::empty());
    assert(digits_value(Seq::<char>::empty()) == 0);
    assert(digits_value(h) == digits_value(h.drop_last()) * 10 + digit_value(h.last()));
    assert(digits_value(t) == digits_value(t.drop_last()) * 10 + digit_value(t.last()));
}

} // verus!
