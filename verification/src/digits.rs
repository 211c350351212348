//! Numbers written in decimal, as they stand in a line.

use crate::text::{escape, free_of, lemma_free_of_concat};
use vstd::prelude::*;
use vstd::string::*;

verus! {

/// The character for the digit `d`.
pub open spec fn digit(d: nat) -> char
    recommends
        d < 10,
{
    if d == 0 {
        '0'
    } else if d == 1 {
        '1'
    } else if d == 2 {
        '2'
    } else if d == 3 {
        '3'
    } else if d == 4 {
        '4'
    } else if d == 5 {
        '5'
    } else if d == 6 {
        '6'
    } else if d == 7 {
        '7'
    } else if d == 8 {
        '8'
    } else {
        '9'
    }
}

/// `n` in decimal, with no leading zero; zero is `0`.
pub open spec fn decimal(n: nat) -> Seq<char>
    decreases n,
{
    if n < 10 {
        seq![digit(n)]
    } else {
        decimal(n / 10).push(digit(n % 10))
    }
}

/// `k` zeros.
pub open spec fn zeros(k: nat) -> Seq<char> {
    Seq::new(k, |i: int| '0')
}

/// `n` in decimal, filled with zeros on the left to at least `width` characters.
pub open spec fn padded(n: nat, width: nat) -> Seq<char> {
    if decimal(n).len() >= width {
        decimal(n)
    } else {
        zeros((width - decimal(n).len()) as nat) + decimal(n)
    }
}

/// The digit that `c` stands for; 10 where it stands for none.
pub open spec fn digit_value(c: char) -> nat {
    if c == '0' {
        0
    } else if c == '1' {
        1
    } else if c == '2' {
        2
    } else if c == '3' {
        3
    } else if c == '4' {
        4
    } else if c == '5' {
        5
    } else if c == '6' {
        6
    } else if c == '7' {
        7
    } else if c == '8' {
        8
    } else if c == '9' {
        9
    } else {
        10
    }
}

/// Every character of `s` is a decimal digit.
pub open spec fn all_digits(s: Seq<char>) -> bool {
    forall|i: int| 0 <= i < s.len() ==> digit_value(#[trigger] s[i]) < 10
}

/// The number that the digits of `s` write, read from the left.
pub open spec fn number_written(s: Seq<char>) -> nat
    decreases s.len(),
{
    if s.len() == 0 {
        0
    } else {
        number_written(s.drop_last()) * 10 + digit_value(s.last())
    }
}

/// `decimal(n)` is made of digits, starts with a zero only for zero, and writes `n`.
pub proof fn lemma_decimal_writes(n: nat)
    ensures
        decimal(n).len() >= 1,
        all_digits(decimal(n)),
        decimal(n)[0] == '0' <==> n == 0,
        number_written(decimal(n)) == n,
    decreases n,
{
    if n < 10 {
        let s = decimal(n);
        assert(s.drop_last().len() == 0);
        assert(number_written(s.drop_last()) == 0);
        assert(s.last() == digit(n));
    } else {
        lemma_decimal_writes(n / 10);
        let head = decimal(n / 10);
        let s = decimal(n);
        assert(s.drop_last() =~= head);
        assert(s.last() == digit(n % 10));
        assert(s[0] == head[0]);
    }
}

/// `padded(n, width)` is `width` wide unless `n` needs more, is made of digits,
/// and writes `n`.
pub proof fn lemma_padded_writes(n: nat, width: nat)
    ensures
        padded(n, width).len() == if decimal(n).len() >= width {
            decimal(n).len()
        } else {
            width
        },
        all_digits(padded(n, width)),
        number_written(padded(n, width)) == n,
{
    lemma_decimal_writes(n);
    if decimal(n).len() < width {
        lemma_zeros_in_front((width - decimal(n).len()) as nat, decimal(n));
    }
}

proof fn lemma_zeros_in_front(k: nat, s: Seq<char>)
    requires
        all_digits(s),
    ensures
        all_digits(zeros(k) + s),
        number_written(zeros(k) + s) == number_written(s),
    decreases s.len(),
{
    let t = zeros(k) + s;
    if s.len() == 0 {
        assert(t =~= zeros(k));
        lemma_zeros_write_zero(k);
    } else {
        lemma_zeros_in_front(k, s.drop_last());
        assert(t.drop_last() =~= zeros(k) + s.drop_last());
        assert(t.last() == s.last());
        assert forall|i: int| 0 <= i < t.len() implies digit_value(#[trigger] t[i]) < 10 by {
            if i >= k {
                assert(t[i] == s[i - k]);
            }
        }
    }
}

proof fn lemma_zeros_write_zero(k: nat)
    ensures
        all_digits(zeros(k)),
        number_written(zeros(k)) == 0,
    decreases k,
{
    if k > 0 {
        lemma_zeros_write_zero((k - 1) as nat);
        assert(zeros(k).drop_last() =~= zeros((k - 1) as nat));
    }
}

/// Neither a newline nor an escape character occurs in a number.
pub proof fn lemma_decimal_is_clean(n: nat, c: char)
    requires
        c == '\n' || c == escape(),
    ensures
        free_of(decimal(n), c),
{
    lemma_decimal_writes(n);
    assert forall|i: int| 0 <= i < decimal(n).len() implies #[trigger] decimal(n)[i] != c by {
        assert(digit_value(decimal(n)[i]) < 10);
    }
}

/// Neither a newline nor an escape character occurs in a number filled with zeros.
pub proof fn lemma_padded_is_clean(n: nat, width: nat, c: char)
    requires
        c == '\n' || c == escape(),
    ensures
        free_of(padded(n, width), c),
{
    lemma_decimal_is_clean(n, c);
    if decimal(n).len() < width {
        lemma_free_of_concat(zeros((width - decimal(n).len()) as nat), decimal(n), c);
    }
}

/// How many characters `decimal(n)` has.
pub open spec fn decimal_width(n: nat) -> nat
    decreases n,
{
    if n < 10 {
        1
    } else {
        decimal_width(n / 10) + 1
    }
}

proof fn lemma_decimal_width(n: nat)
    ensures
        decimal(n).len() == decimal_width(n),
    decreases n,
{
    if n >= 10 {
        lemma_decimal_width(n / 10);
    }
}

fn digit_str(d: u128) -> (r: &'static str)
    requires
        d < 10,
    ensures
        r@ == seq![digit(d as nat)],
{
    proof {
        reveal_strlit("0");
        reveal_strlit("1");
        reveal_strlit("2");
        reveal_strlit("3");
        reveal_strlit("4");
        reveal_strlit("5");
        reveal_strlit("6");
        reveal_strlit("7");
        reveal_strlit("8");
        reveal_strlit("9");
    }
    let r = if d == 0 {
        "0"
    } else if d == 1 {
        "1"
    } else if d == 2 {
        "2"
    } else if d == 3 {
        "3"
    } else if d == 4 {
        "4"
    } else if d == 5 {
        "5"
    } else if d == 6 {
        "6"
    } else if d == 7 {
        "7"
    } else if d == 8 {
        "8"
    } else {
        "9"
    };
    assert(r@ =~= seq![digit(d as nat)]);
    r
}

/// Appends `n` in decimal to `buf`.
pub fn push_decimal(buf: &mut String, n: u128)
    ensures
        final(buf)@ == old(buf)@ + decimal(n as nat),
    decreases n,
{
    if n >= 10 {
        push_decimal(buf, n / 10);
    }
    buf.append(digit_str(n % 10));
    assert(buf@ =~= old(buf)@ + decimal(n as nat));
}

fn count_digits(n: u128) -> (k: usize)
    ensures
        k == decimal_width(n as nat),
        1 <= k <= 39,
{
    proof {
        lemma_width_of_u128(n);
    }
    let mut k: usize = 1;
    let mut rest: u128 = n;
    while rest >= 10
        invariant
            1 <= k,
            decimal_width(n as nat) == decimal_width(rest as nat) + k - 1,
            decimal_width(n as nat) <= 39,
        decreases rest,
    {
        rest = rest / 10;
        k = k + 1;
    }
    k
}

/// Ten to the `k`.
pub open spec fn pow10(k: nat) -> nat
    decreases k,
{
    if k == 0 {
        1
    } else {
        10 * pow10((k - 1) as nat)
    }
}

proof fn lemma_width_below_power(n: nat, k: nat)
    requires
        k >= 1,
        n < pow10(k),
    ensures
        decimal_width(n) <= k,
    decreases k,
{
    reveal_with_fuel(pow10, 2);
    if n >= 10 {
        lemma_width_below_power(n / 10, (k - 1) as nat);
    }
}

proof fn lemma_width_of_u128(n: u128)
    ensures
        1 <= decimal_width(n as nat) <= 39,
{
    assert(pow10(39) == 1_000_000_000_000_000_000_000_000_000_000_000_000_000nat) by {
        reveal_with_fuel(pow10, 40);
    }
    lemma_width_below_power(n as nat, 39);
}

/// Appends `n` in decimal to `buf`, filled with zeros on the left to at least
/// `width` characters.
pub fn push_padded(buf: &mut String, n: u128, width: usize)
    ensures
        final(buf)@ == old(buf)@ + padded(n as nat, width as nat),
{
    let have: usize = count_digits(n);
    proof {
        lemma_decimal_width(n as nat);
    }
    let mut i: usize = have;
    while i < width
        invariant
            have <= i,
            have < width ==> i <= width,
            have >= width ==> i == have,
            buf@ == old(buf)@ + zeros((i - have) as nat),
        decreases width - i,
    {
        buf.append("0");
        proof {
            reveal_strlit("0");
            assert(buf@ =~= old(buf)@ + zeros((i + 1 - have) as nat));
        }
        i = i + 1;
    }
    let ghost mid = buf@;
    push_decimal(buf, n);
    proof {
        if have >= width {
            assert(mid =~= old(buf)@);
        }
        assert(buf@ =~= old(buf)@ + padded(n as nat, width as nat));
    }
}

} // verus!
