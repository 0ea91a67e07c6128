use vstd::prelude::*;

verus! {

/// The decimal digit `d` as a character.
pub open spec fn digit_char(d: nat) -> char
    recommends
        d < 10,
{
    (48 + d) as char
}

/// The decimal representation of `n`, without leading zeros.
pub open spec fn decimal(n: nat) -> Seq<char>
    decreases n,
{
    if n < 10 {
        seq![digit_char(n)]
    } else {
        decimal(n / 10).push(digit_char(n % 10))
    }
}

pub assume_specification[ String::push ](string: &mut String, ch: char)
    ensures
        final(string)@ == old(string)@.push(ch),
;

/// Appends the decimal digit `d` to `s`.
fn push_digit(s: &mut String, d: u8)
    requires
        d < 10,
    ensures
        final(s)@ == old(s)@.push(digit_char(d as nat)),
{
    let c: char = (48u8 + d) as char;
    assert(c == digit_char(d as nat));
    s.push(c);
}

/// Appends the decimal representation of `n` to `s`.
pub fn push_decimal_u8(s: &mut String, n: u8)
    ensures
        final(s)@ == old(s)@ + decimal(n as nat),
{
    let ghost start = s@;
    if n >= 100 {
        push_digit(s, n / 100);
        push_digit(s, (n / 10) % 10);
        push_digit(s, n % 10);
        assert(decimal((n / 100) as nat) == seq![digit_char((n / 100) as nat)]);
        assert((n / 10) as nat / 10 == (n / 100) as nat);
        assert(decimal((n / 10) as nat) == decimal((n / 100) as nat).push(digit_char(((n / 10) % 10) as nat)));
        assert(decimal(n as nat) == decimal((n / 10) as nat).push(digit_char((n % 10) as nat)));
        assert(s@ =~= start + decimal(n as nat));
    } else if n >= 10 {
        push_digit(s, n / 10);
        push_digit(s, n % 10);
        assert(decimal((n / 10) as nat) == seq![digit_char((n / 10) as nat)]);
        assert(decimal(n as nat) == decimal((n / 10) as nat).push(digit_char((n % 10) as nat)));
        assert(s@ =~= start + decimal(n as nat));
    } else {
        push_digit(s, n);
        assert(s@ =~= start + decimal(n as nat));
    }
}

} // verus!

verus! {

/// Whether `c` is one of the decimal digits `0` to `9`.
pub open spec fn is_digit(c: char) -> bool {
    48 <= (c as int) <= 57
}

/// The number that the digit string `s` spells in decimal.
pub open spec fn digits_value(s: Seq<char>) -> nat
    decreases s.len(),
{
    if s.len() == 0 {
        0
    } else {
        digits_value(s.drop_last()) * 10 + ((s.last() as int - 48) as nat)
    }
}

/// The decimal text of `n` is a non-empty string of digits that spells `n`.
pub proof fn lemma_decimal(n: nat)
    ensures
        decimal(n).len() >= 1,
        forall|i: int| 0 <= i < decimal(n).len() ==> is_digit(#[trigger] decimal(n)[i]),
        digits_value(decimal(n)) == n,
    decreases n,
{
    assert(digit_char(n % 10) as int == 48 + n % 10);
    if n < 10 {
        assert(decimal(n).drop_last() =~= Seq::<char>::empty());
        assert(digits_value(decimal(n)) == digits_value(Seq::<char>::empty()) * 10 + n);
    } else {
        lemma_decimal(n / 10);
        assert(decimal(n).drop_last() =~= decimal(n / 10));
        assert(decimal(n).last() == digit_char(n % 10));
        assert(digits_value(decimal(n)) == (n / 10) * 10 + n % 10);
    }
}

/// Numbers with the same decimal text are equal.
pub proof fn lemma_decimal_injective(m: nat, n: nat)
    requires
        decimal(m) == decimal(n),
    ensures
        m == n,
{
    lemma_decimal(m);
    lemma_decimal(n);
}

/// Two digit strings each followed by a separator and a tail can be told
/// apart at the separator: equal joins have equal parts.
pub proof fn lemma_split_at_separator(x1: Seq<char>, r1: Seq<char>, x2: Seq<char>, r2: Seq<char>, sep: char)
    requires
        !is_digit(sep),
        forall|i: int| 0 <= i < x1.len() ==> is_digit(#[trigger] x1[i]),
        forall|i: int| 0 <= i < x2.len() ==> is_digit(#[trigger] x2[i]),
        x1 + seq![sep] + r1 == x2 + seq![sep] + r2,
    ensures
        x1 == x2,
        r1 == r2,
{
    let s1 = x1 + seq![sep] + r1;
    let s2 = x2 + seq![sep] + r2;
    if x1.len() < x2.len() {
        assert(s1[x1.len() as int] == sep);
        assert(s2[x1.len() as int] == x2[x1.len() as int]);
    } else if x2.len() < x1.len() {
        assert(s2[x2.len() as int] == sep);
        assert(s1[x2.len() as int] == x1[x2.len() as int]);
    }
    assert(x1 =~= s1.take(x1.len() as int));
    assert(x2 =~= s2.take(x2.len() as int));
    assert(r1 =~= s1.skip(x1.len() as int + 1));
    assert(r2 =~= s2.skip(x2.len() as int + 1));
}

} // verus!
