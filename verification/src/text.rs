//! Text renderings of numbers and booleans, built from string literals.
use vstd::prelude::*;

verus! {

/// The text of a decimal digit.
#[verifier::opaque]
pub open spec fn digit_text(d: nat) -> Seq<char> {
    if d == 0 {
        "0"@
    } else if d == 1 {
        "1"@
    } else if d == 2 {
        "2"@
    } else if d == 3 {
        "3"@
    } else if d == 4 {
        "4"@
    } else if d == 5 {
        "5"@
    } else if d == 6 {
        "6"@
    } else if d == 7 {
        "7"@
    } else if d == 8 {
        "8"@
    } else {
        "9"@
    }
}

/// The decimal text of a natural number, without leading zeros.
#[verifier::opaque]
pub open spec fn decimal_text(n: nat) -> Seq<char>
    decreases n,
{
    if n < 10 {
        digit_text(n)
    } else {
        decimal_text(n / 10) + digit_text(n % 10)
    }
}

/// The decimal text of an integer, with a minus sign below zero.
#[verifier::opaque]
pub open spec fn signed_text(x: int) -> Seq<char> {
    if x < 0 {
        "-"@ + decimal_text((-x) as nat)
    } else {
        decimal_text(x as nat)
    }
}

/// The text of a boolean.
#[verifier::opaque]
pub open spec fn bool_text(b: bool) -> Seq<char> {
    if b {
        "true"@
    } else {
        "false"@
    }
}

/// The value of a decimal digit character (that of `'9'` for any other
/// character).
pub open spec fn digit_value(c: char) -> nat {
    if c == '0' {
        0
    } else if c == '1' {
        1
    } else if c == '2' {
        2
    } else if c == '3' {
        3
    } else if c == '4' {
        4
    } else if c == '5' {
        5
    } else if c == '6' {
        6
    } else if c == '7' {
        7
    } else if c == '8' {
        8
    } else {
        9
    }
}

/// Whether a character is a decimal digit.
pub open spec fn is_digit(c: char) -> bool {
    '0' <= c <= '9'
}

/// The number that a run of decimal digits writes, the most significant
/// first.
pub open spec fn decimal_value(s: Seq<char>) -> nat
    decreases s.len(),
{
    if s.len() == 0 {
        0
    } else {
        decimal_value(s.drop_last()) * 10 + digit_value(s.last())
    }
}

/// The text of a digit is one digit character, whose value is the digit.
proof fn lemma_digit_text(d: nat)
    requires
        d < 10,
    ensures
        digit_text(d).len() == 1,
        is_digit(digit_text(d)[0]),
        digit_value(digit_text(d)[0]) == d,
{
    reveal(digit_text);
    reveal_strlit("0");
    reveal_strlit("1");
    reveal_strlit("2");
    reveal_strlit("3");
    reveal_strlit("4");
    reveal_strlit("5");
    reveal_strlit("6");
    reveal_strlit("7");
    reveal_strlit("8");
    reveal_strlit("9");
}

/// The decimal text of a number is a run of digits, with no zero in front
/// unless the number is zero, that reads back as the number.
pub proof fn lemma_decimal_text_reads_back(n: nat)
    ensures
        decimal_text(n).len() >= 1,
        forall|i: int| 0 <= i < decimal_text(n).len() ==> is_digit(#[trigger] decimal_text(n)[i]),
        n > 0 ==> decimal_text(n)[0] != '0',
        decimal_value(decimal_text(n)) == n,
    decreases n,
{
    reveal(decimal_text);
    if n < 10 {
        lemma_digit_text(n);
        let t = digit_text(n);
        assert(t.drop_last() =~= Seq::<char>::empty());
        assert(n > 0 ==> t[0] != '0');
        assert(decimal_value(t) == decimal_value(t.drop_last()) * 10 + digit_value(t.last()));
        assert(decimal_value(Seq::<char>::empty()) == 0);
    } else {
        lemma_decimal_text_reads_back(n / 10);
        lemma_digit_text(n % 10);
        let h = decimal_text(n / 10);
        let t = h + digit_text(n % 10);
        assert(decimal_text(n) == t);
        assert(t.drop_last() =~= h);
        assert(t.last() == digit_text(n % 10)[0]);
        assert(t[0] == h[0]);
        assert(decimal_value(t) == decimal_value(h) * 10 + (n % 10));
        assert(n == (n / 10) * 10 + n % 10);
        assert forall|i: int| 0 <= i < t.len() implies is_digit(#[trigger] t[i]) by {
            if i < h.len() {
                assert(t[i] == h[i]);
            } else {
                assert(t[i] == digit_text(n % 10)[0]);
            }
        }
    }
}

/// The text of a negative integer is a minus sign before the digits of its
/// size; that of any other integer is its digits alone.
pub proof fn lemma_signed_text_reads_back(x: int)
    ensures
        x < 0 ==> signed_text(x).len() >= 2 && signed_text(x)[0] == '-' && decimal_value(signed_text(x).drop_first()) == -x,
        x >= 0 ==> decimal_value(signed_text(x)) == x,
        x >= 0 ==> forall|i: int| 0 <= i < signed_text(x).len() ==> is_digit(#[trigger] signed_text(x)[i]),
{
    reveal(signed_text);
    reveal_strlit("-");
    if x < 0 {
        lemma_decimal_text_reads_back((-x) as nat);
        assert(signed_text(x).drop_first() =~= decimal_text((-x) as nat));
    } else {
        lemma_decimal_text_reads_back(x as nat);
    }
}

/// The text of a padded number reads back as the number, on at least two
/// (or four) digits.
pub proof fn lemma_padded_text_reads_back(n: nat)
    ensures
        padded2_text(n).len() >= 2,
        decimal_value(padded2_text(n)) == n,
        padded4_text(n).len() >= 4,
        decimal_value(padded4_text(n)) == n,
{
    lemma_decimal_text_reads_back(n);
    lemma_zeros_in_front(n);
    lemma_decimal_text_length(n);
    reveal_strlit("0");
    reveal_strlit("00");
    reveal_strlit("000");
    assert(padded2_text(n) == (if n < 10 {
        "0"@ + decimal_text(n)
    } else {
        decimal_text(n)
    })) by {
        reveal(padded2_text);
    }
    assert(padded4_text(n) == (if n < 10 {
        "000"@ + decimal_text(n)
    } else if n < 100 {
        "00"@ + decimal_text(n)
    } else if n < 1000 {
        "0"@ + decimal_text(n)
    } else {
        decimal_text(n)
    })) by {
        reveal(padded4_text);
    }
}

/// The decimal text of a number has two digits from ten on, three from a
/// hundred on and four from a thousand on.
proof fn lemma_decimal_text_length(n: nat)
    ensures
        n >= 10 ==> decimal_text(n).len() >= 2,
        n >= 100 ==> decimal_text(n).len() >= 3,
        n >= 1000 ==> decimal_text(n).len() >= 4,
    decreases n,
{
    reveal(decimal_text);
    if n >= 10 {
        lemma_decimal_text_length(n / 10);
        lemma_decimal_text_reads_back(n / 10);
        lemma_digit_text(n % 10);
    }
}

/// Zeros in front of a run of digits leave its value unchanged.
proof fn lemma_zeros_in_front(n: nat)
    ensures
        decimal_value("0"@ + decimal_text(n)) == decimal_value(decimal_text(n)),
        decimal_value("00"@ + decimal_text(n)) == decimal_value(decimal_text(n)),
        decimal_value("000"@ + decimal_text(n)) == decimal_value(decimal_text(n)),
{
    reveal_strlit("0");
    reveal_strlit("00");
    reveal_strlit("000");
    lemma_zero_in_front_value(decimal_text(n));
    lemma_zero_in_front_value("0"@ + decimal_text(n));
    assert("00"@ + decimal_text(n) =~= seq!['0'] + ("0"@ + decimal_text(n)));
    assert("0"@ + decimal_text(n) =~= seq!['0'] + decimal_text(n));
    lemma_zero_in_front_value("00"@ + decimal_text(n));
    assert("000"@ + decimal_text(n) =~= seq!['0'] + ("00"@ + decimal_text(n)));
}

/// A zero in front of a run of digits leaves its value unchanged.
proof fn lemma_zero_in_front_value(t: Seq<char>)
    ensures
        decimal_value(seq!['0'] + t) == decimal_value(t),
    decreases t.len(),
{
    let z = seq!['0'] + t;
    if t.len() == 0 {
        assert(z.drop_last() =~= Seq::<char>::empty());
        assert(z.last() == '0');
        assert(decimal_value(z) == decimal_value(z.drop_last()) * 10 + digit_value(z.last()));
        assert(decimal_value(Seq::<char>::empty()) == 0);
    } else {
        assert(z.drop_last() =~= seq!['0'] + t.drop_last());
        assert(z.last() == t.last());
        lemma_zero_in_front_value(t.drop_last());
        assert(decimal_value(z) == decimal_value(z.drop_last()) * 10 + digit_value(z.last()));
    }
}

/// The text of a boolean is `true` or `false`, as it is.
pub proof fn lemma_bool_text_values()
    ensures
        bool_text(true) == "true"@,
        bool_text(false) == "false"@,
{
    reveal(bool_text);
}

/// Appends the text of a decimal digit.
fn push_digit(s: &mut String, d: u64)
    requires
        d < 10,
    ensures
        final(s)@ == old(s)@ + digit_text(d as nat),
{
    proof {
        reveal(digit_text);
    }
    if d == 0 {
        s.append("0");
    } else if d == 1 {
        s.append("1");
    } else if d == 2 {
        s.append("2");
    } else if d == 3 {
        s.append("3");
    } else if d == 4 {
        s.append("4");
    } else if d == 5 {
        s.append("5");
    } else if d == 6 {
        s.append("6");
    } else if d == 7 {
        s.append("7");
    } else if d == 8 {
        s.append("8");
    } else {
        s.append("9");
    }
}

/// Appends the decimal text of a natural number.
pub fn push_decimal(s: &mut String, n: u64)
    ensures
        final(s)@ == old(s)@ + decimal_text(n as nat),
    decreases n,
{
    if n >= 10 {
        push_decimal(s, n / 10);
        push_digit(s, n % 10);
        assert(s@ =~= old(s)@ + decimal_text(n as nat)) by {
            reveal(decimal_text);
            assert(decimal_text(n as nat) == decimal_text((n / 10) as nat) + digit_text(
                (n % 10) as nat,
            ));
        }
    } else {
        push_digit(s, n);
        proof {
            reveal(decimal_text);
        }
    }
}

/// Appends the decimal text of an integer.
pub fn push_signed(s: &mut String, x: i64)
    requires
        x > i64::MIN,
    ensures
        final(s)@ == old(s)@ + signed_text(x as int),
{
    proof {
        reveal(signed_text);
    }
    if x < 0 {
        s.append("-");
        push_decimal(s, (-x) as u64);
        assert(s@ =~= old(s)@ + signed_text(x as int));
    } else {
        push_decimal(s, x as u64);
    }
}

/// Appends the text of a boolean.
pub fn push_bool(s: &mut String, b: bool)
    ensures
        final(s)@ == old(s)@ + bool_text(b),
{
    proof {
        reveal(bool_text);
    }
    if b {
        s.append("true");
    } else {
        s.append("false");
    }
}

/// The decimal text of a natural number, with zeros in front to make at
/// least two digits.
#[verifier::opaque]
pub open spec fn padded2_text(n: nat) -> Seq<char> {
    if n < 10 {
        "0"@ + decimal_text(n)
    } else {
        decimal_text(n)
    }
}

/// The decimal text of a natural number, with zeros in front to make at
/// least four digits.
#[verifier::opaque]
pub open spec fn padded4_text(n: nat) -> Seq<char> {
    if n < 10 {
        "000"@ + decimal_text(n)
    } else if n < 100 {
        "00"@ + decimal_text(n)
    } else if n < 1000 {
        "0"@ + decimal_text(n)
    } else {
        decimal_text(n)
    }
}

/// Appends the decimal text of a natural number, on at least two digits.
pub fn push_padded2(s: &mut String, n: u64)
    ensures
        final(s)@ == old(s)@ + padded2_text(n as nat),
{
    proof {
        reveal(padded2_text);
    }
    if n < 10 {
        s.append("0");
    }
    push_decimal(s, n);
    assert(s@ =~= old(s)@ + padded2_text(n as nat));
}

/// Appends the decimal text of a natural number, on at least four digits.
pub fn push_padded4(s: &mut String, n: u64)
    ensures
        final(s)@ == old(s)@ + padded4_text(n as nat),
{
    proof {
        reveal(padded4_text);
    }
    if n < 10 {
        s.append("000");
    } else if n < 100 {
        s.append("00");
    } else if n < 1000 {
        s.append("0");
    }
    push_decimal(s, n);
    assert(s@ =~= old(s)@ + padded4_text(n as nat));
}

/// Whether `t` occurs in `s`, as a run of consecutive characters.
#[verifier::opaque]
pub open spec fn occurs(t: Seq<char>, s: Seq<char>) -> bool {
    exists|i: int| 0 <= i && i + t.len() <= s.len() && #[trigger] s.subrange(i, i + t.len()) == t
}

/// A text occurs in itself.
pub broadcast proof fn lemma_occurs_whole(t: Seq<char>)
    ensures
        #[trigger] occurs(t, t),
{
    reveal(occurs);
    let i: int = 0;
    assert(t.subrange(i, i + t.len()) =~= t);
}

/// A label followed by a value occurs at the end of a text that ends with
/// them.
pub broadcast proof fn lemma_occurs_at_end(a: Seq<char>, l: Seq<char>, v: Seq<char>)
    ensures
        #[trigger] occurs(l + v, a + l + v),
{
    reveal(occurs);
    let s = a + l + v;
    assert(s.subrange(a.len() as int, (a.len() + (l + v).len()) as int) =~= l + v);
}

/// A label, a value and the next label occur at the end of a text that ends
/// with them.
pub broadcast proof fn lemma_occurs_at_end3(a: Seq<char>, l: Seq<char>, v: Seq<char>, m: Seq<char>)
    ensures
        #[trigger] occurs(l + v + m, a + l + v + m),
{
    reveal(occurs);
    let s = a + l + v + m;
    assert(s.subrange(a.len() as int, (a.len() + (l + v + m).len()) as int) =~= l + v + m);
}

/// A text that occurs in `s` occurs in `s` followed by anything.
pub broadcast proof fn lemma_occurs_extend(t: Seq<char>, s: Seq<char>, r: Seq<char>)
    requires
        occurs(t, s),
    ensures
        #[trigger] occurs(t, s + r),
{
    reveal(occurs);
    let i = choose|i: int| 0 <= i && i + t.len() <= s.len() && #[trigger] s.subrange(i, i + t.len()) == t;
    assert((s + r).subrange(i, i + t.len()) =~= s.subrange(i, i + t.len()));
}

/// A text occurs at the end of any text that ends with it.
pub proof fn lemma_occurs_suffix(t: Seq<char>, a: Seq<char>)
    ensures
        occurs(t, a + t),
{
    reveal(occurs);
    assert((a + t).subrange(a.len() as int, (a.len() + t.len()) as int) =~= t);
}

/// The laws of occurrence in a text built by concatenation.
pub broadcast group group_occurs {
    lemma_occurs_whole,
    lemma_occurs_at_end,
    lemma_occurs_at_end3,
    lemma_occurs_extend,
}

} // verus!
