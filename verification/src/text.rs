//! Text building blocks: decimal rendering of integers and `:`-separated keys.
use vstd::prelude::*;
use vstd::string::*;

verus! {

/// The character of a decimal digit `d` (`0 <= d < 10`).
pub open spec fn digit_char(d: int) -> char {
    if d == 0 { '0' }
    else if d == 1 { '1' }
    else if d == 2 { '2' }
    else if d == 3 { '3' }
    else if d == 4 { '4' }
    else if d == 5 { '5' }
    else if d == 6 { '6' }
    else if d == 7 { '7' }
    else if d == 8 { '8' }
    else { '9' }
}

/// The decimal digits of a natural number, most significant first, without leading zeros
/// (zero is the single digit `0`).
pub open spec fn digits(n: nat) -> Seq<char>
    decreases n,
{
    if n < 10 {
        seq![digit_char(n as int)]
    } else {
        digits(n / 10).push(digit_char((n % 10) as int))
    }
}

/// The text `{}` gives for an integer: its digits, after a `-` when it is negative.
pub open spec fn decimal(i: int) -> Seq<char> {
    if i < 0 {
        seq!['-'] + digits((-i) as nat)
    } else {
        digits(i as nat)
    }
}

/// Two texts joined by a colon.
pub open spec fn join2(a: Seq<char>, b: Seq<char>) -> Seq<char> {
    a + seq![':'] + b
}

/// Three texts joined by colons.
pub open spec fn join3(a: Seq<char>, b: Seq<char>, c: Seq<char>) -> Seq<char> {
    a + seq![':'] + b + seq![':'] + c
}

/// A digit's character is the character with code `48 + d` (`'0'` to `'9'`).
pub proof fn law_digit_char(d: int)
    requires
        0 <= d < 10,
    ensures
        digit_char(d) as int == 48 + d,
{
}

/// The digits of a number are those of its tens followed by its last digit; a number below
/// ten is one digit; a negative number is written as `-` and the digits of its magnitude.
pub proof fn law_decimal_shape(i: int)
    ensures
        0 <= i < 10 ==> decimal(i).len() == 1 && decimal(i)[0] as int == 48 + i,
        i >= 10 ==> decimal(i) == decimal(i / 10).push(digit_char(i % 10)),
        i >= 10 ==> decimal(i).last() as int == 48 + i % 10,
        i < 0 ==> decimal(i) == seq!['-'] + decimal(-i),
        i >= 0 ==> decimal(i).len() > 0 && decimal(i)[0] != '-',
{
    if i >= 0 {
        lemma_digits_start(i as nat);
    }
}

proof fn lemma_digits_start(n: nat)
    ensures
        digits(n).len() > 0,
        '0' <= digits(n)[0] <= '9',
    decreases n,
{
    if n >= 10 {
        lemma_digits_start(n / 10);
    }
}

/// Joining puts exactly one colon between the parts.
pub proof fn law_join(a: Seq<char>, b: Seq<char>, c: Seq<char>)
    ensures
        join2(a, b).len() == a.len() + 1 + b.len(),
        join2(a, b).subrange(0, a.len() as int) == a,
        join2(a, b)[a.len() as int] == ':',
        join2(a, b).subrange(a.len() + 1int, a.len() + 1int + b.len()) == b,
        join3(a, b, c) == join2(join2(a, b), c),
{
    assert(join2(a, b).subrange(0, a.len() as int) =~= a);
    assert(join2(a, b).subrange(a.len() + 1int, a.len() + 1int + b.len()) =~= b);
    assert(join3(a, b, c) =~= join2(join2(a, b), c));
}

fn digit_str(d: u32) -> (s: &'static str)
    requires
        d < 10,
    ensures
        s@ == seq![digit_char(d as int)],
{
    proof {
        reveal_strlit("0");
        reveal_strlit("1");
        reveal_strlit("2");
        reveal_strlit("3");
        reveal_strlit("4");
        reveal_strlit("5");
        reveal_strlit("6");
        reveal_strlit("7");
        reveal_strlit("8");
        reveal_strlit("9");
    }
    if d == 0 { "0" }
    else if d == 1 { "1" }
    else if d == 2 { "2" }
    else if d == 3 { "3" }
    else if d == 4 { "4" }
    else if d == 5 { "5" }
    else if d == 6 { "6" }
    else if d == 7 { "7" }
    else if d == 8 { "8" }
    else { "9" }
}

fn append_digits(s: &mut String, n: u32)
    ensures
        final(s)@ == old(s)@ + digits(n as nat),
    decreases n,
{
    if n >= 10 {
        append_digits(s, n / 10);
    }
    let d = digit_str(n % 10);
    s.append(d);
    proof {
        if n >= 10 {
            assert(digits(n as nat) == digits((n / 10) as nat).push(digit_char((n % 10) as int)));
        }
    }
}

/// Appends the decimal text of `i` to `s`.
pub fn append_i32(s: &mut String, i: i32)
    ensures
        final(s)@ == old(s)@ + decimal(i as int),
{
    if i < 0 {
        proof {
            reveal_strlit("-");
        }
        s.append("-");
        let mag: u32 = if i == i32::MIN {
            2147483648u32
        } else {
            (-i) as u32
        };
        append_digits(s, mag);
        assert(s@ == old(s)@ + decimal(i as int));
    } else {
        append_digits(s, i as u32);
    }
}

/// The decimal text of `i`, as `format!("{}", i)` writes it.
pub fn i32_to_decimal(i: i32) -> (r: String)
    ensures
        r@ == decimal(i as int),
{
    let mut s = String::new();
    append_i32(&mut s, i);
    assert(s@ =~= decimal(i as int));
    s
}

/// Appends a colon to `s`.
pub fn append_colon(s: &mut String)
    ensures
        final(s)@ == old(s)@.push(':'),
{
    proof {
        reveal_strlit(":");
    }
    s.append(":");
    assert(s@ =~= old(s)@.push(':'));
}

/// `format!("{}:{}", a, b)`.
pub fn colon_join2(a: &str, b: &str) -> (r: String)
    ensures
        r@ == join2(a@, b@),
{
    let mut s = String::from_str(a);
    append_colon(&mut s);
    s.append(b);
    assert(s@ =~= join2(a@, b@));
    s
}

/// `format!("{}:{}:{}", a, b, c)`.
pub fn colon_join3(a: &str, b: &str, c: &str) -> (r: String)
    ensures
        r@ == join3(a@, b@, c@),
{
    let mut s = String::from_str(a);
    append_colon(&mut s);
    s.append(b);
    append_colon(&mut s);
    s.append(c);
    assert(s@ =~= join3(a@, b@, c@));
    s
}

} // verus!
