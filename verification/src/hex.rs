//! Alternate lower-case hexadecimal text of an integer, as the exception
//! reports print register values and error codes: `0x` followed by the
//! digits, without leading zeros.
use vstd::prelude::*;

verus! {

/// The lower-case hexadecimal digit of value `d`.
pub open spec fn hex_digit(d: int) -> char {
    if d < 10 {
        ('0' as int + d) as char
    } else {
        ('a' as int + (d - 10)) as char
    }
}

/// The hexadecimal digits of `v`, most significant first, without leading
/// zeros (a single `0` for zero).
pub open spec fn hex_digits(v: nat) -> Seq<char>
    decreases v,
{
    if v < 16 {
        seq![hex_digit(v as int)]
    } else {
        hex_digits(v / 16).push(hex_digit((v % 16) as int))
    }
}

/// `v` written as `0x` and its hexadecimal digits.
pub open spec fn hex_text(v: u64) -> Seq<char> {
    seq!['0', 'x'] + hex_digits(v as nat)
}

/// The value of a hexadecimal digit, or -1 for a character that is none.
pub open spec fn hex_digit_value(c: char) -> int {
    if '0' <= c && c <= '9' {
        c as int - '0' as int
    } else if 'a' <= c && c <= 'f' {
        c as int - 'a' as int + 10
    } else {
        -1
    }
}

/// The number that a string of hexadecimal digits denotes.
pub open spec fn hex_value(s: Seq<char>) -> int
    decreases s.len(),
{
    if s.len() == 0 {
        0
    } else {
        hex_value(s.drop_last()) * 16 + hex_digit_value(s.last())
    }
}

/// The text of one hexadecimal digit.
fn digit_text(d: u64) -> (text: &'static str)
    requires
        d < 16,
    ensures
        text@ == seq![hex_digit(d as int)],
{
    proof {
        reveal_strlit("0");
        reveal_strlit("1");
        reveal_strlit("2");
        reveal_strlit("3");
        reveal_strlit("4");
        reveal_strlit("5");
        reveal_strlit("6");
        reveal_strlit("7");
        reveal_strlit("8");
        reveal_strlit("9");
        reveal_strlit("a");
        reveal_strlit("b");
        reveal_strlit("c");
        reveal_strlit("d");
        reveal_strlit("e");
        reveal_strlit("f");
    }
    if d == 0 {
        "0"
    } else if d == 1 {
        "1"
    } else if d == 2 {
        "2"
    } else if d == 3 {
        "3"
    } else if d == 4 {
        "4"
    } else if d == 5 {
        "5"
    } else if d == 6 {
        "6"
    } else if d == 7 {
        "7"
    } else if d == 8 {
        "8"
    } else if d == 9 {
        "9"
    } else if d == 10 {
        "a"
    } else if d == 11 {
        "b"
    } else if d == 12 {
        "c"
    } else if d == 13 {
        "d"
    } else if d == 14 {
        "e"
    } else {
        "f"
    }
}

/// Appends the hexadecimal digits of `v` to `out`.
fn push_hex_digits(out: &mut String, v: u64)
    ensures
        final(out)@ == old(out)@ + hex_digits(v as nat),
    decreases v,
{
    if v >= 16 {
        push_hex_digits(out, v / 16);
    }
    out.append(digit_text(v % 16));
    assert(out@ =~= old(out)@ + hex_digits(v as nat));
}

/// Appends `v` in alternate hexadecimal form (`0x` and the digits) to `out`.
pub fn push_hex(out: &mut String, v: u64)
    ensures
        final(out)@ == old(out)@ + hex_text(v),
{
    proof {
        reveal_strlit("0x");
    }
    out.append("0x");
    push_hex_digits(out, v);
    assert(out@ =~= old(out)@ + hex_text(v));
}

/// The digits of `v` are its base-16 expansion: each is one of `0`-`9` and
/// `a`-`f`, together they denote `v`, and they never start with a
/// superfluous zero.
pub proof fn lemma_hex_digits_denote(v: nat)
    ensures
        forall|i: int|
            0 <= i < hex_digits(v).len() ==> {
                let c = #[trigger] hex_digits(v)[i];
                ('0' <= c && c <= '9') || ('a' <= c && c <= 'f')
            },
        hex_value(hex_digits(v)) == v,
        hex_digits(v).len() >= 1,
        v > 0 ==> hex_digits(v)[0] != '0',
    decreases v,
{
    if v < 16 {
        assert(hex_digits(v).drop_last() =~= Seq::<char>::empty());
        assert(hex_value(hex_digits(v).drop_last()) == 0);
    } else {
        lemma_hex_digits_denote(v / 16);
        assert(hex_digits(v).drop_last() =~= hex_digits(v / 16));
        assert(hex_digits(v)[0] == hex_digits(v / 16)[0]);
    }
    let d = if v < 16 { v } else { v % 16 };
    assert(hex_digit_value(hex_digit(d as int)) == d);
}

} // verus!
