//! Text building blocks for the generated Verilog: decimal and hexadecimal
//! numerals, indentation, and string comparison.

use vstd::prelude::*;

verus! {

/// The character of a decimal or hexadecimal digit (upper case).
pub open spec fn digit_char(d: nat) -> char {
    if d == 0 { '0' }
    else if d == 1 { '1' }
    else if d == 2 { '2' }
    else if d == 3 { '3' }
    else if d == 4 { '4' }
    else if d == 5 { '5' }
    else if d == 6 { '6' }
    else if d == 7 { '7' }
    else if d == 8 { '8' }
    else if d == 9 { '9' }
    else if d == 10 { 'A' }
    else if d == 11 { 'B' }
    else if d == 12 { 'C' }
    else if d == 13 { 'D' }
    else if d == 14 { 'E' }
    else { 'F' }
}

/// The digits of `n` written in base `b` (2 <= b <= 16), most significant first,
/// without leading zeros ("0" for zero).
pub open spec fn spec_digits(n: nat, b: nat) -> Seq<char>
    decreases n,
{
    if b < 2 || n < b {
        seq![digit_char(n)]
    } else {
        proof {
            assert(n / b < n) by (nonlinear_arith)
                requires
                    b >= 2,
                    n >= b,
            ;
        }
        spec_digits(n / b, b) + seq![digit_char(n % b)]
    }
}

/// `i` written in decimal, with a leading '-' when negative (as `format!("{}", i)`).
pub open spec fn spec_dec(i: int) -> Seq<char> {
    if i < 0 {
        seq!['-'] + spec_digits((-i) as nat, 10)
    } else {
        spec_digits(i as nat, 10)
    }
}

/// `n` in upper-case hexadecimal, zero-padded to at least two digits
/// (as `format!("{:02X}", n)`).
pub open spec fn spec_hex2(n: nat) -> Seq<char> {
    if n < 16 {
        seq!['0', digit_char(n)]
    } else {
        spec_digits(n, 16)
    }
}

/// `n` levels of indentation, four spaces each; nothing when `n <= 0`.
pub open spec fn spec_indent(n: int) -> Seq<char>
    decreases n,
{
    if n <= 0 {
        Seq::empty()
    } else {
        spec_indent(n - 1) + "    "@
    }
}

fn digit_str(d: u64) -> (r: &'static str)
    requires
        d < 16,
    ensures
        r@ == seq![digit_char(d as nat)],
{
    proof {
        reveal_strlit("0");
        reveal_strlit("1");
        reveal_strlit("2");
        reveal_strlit("3");
        reveal_strlit("4");
        reveal_strlit("5");
        reveal_strlit("6");
        reveal_strlit("7");
        reveal_strlit("8");
        reveal_strlit("9");
        reveal_strlit("A");
        reveal_strlit("B");
        reveal_strlit("C");
        reveal_strlit("D");
        reveal_strlit("E");
        reveal_strlit("F");
    }
    if d == 0 { "0" }
    else if d == 1 { "1" }
    else if d == 2 { "2" }
    else if d == 3 { "3" }
    else if d == 4 { "4" }
    else if d == 5 { "5" }
    else if d == 6 { "6" }
    else if d == 7 { "7" }
    else if d == 8 { "8" }
    else if d == 9 { "9" }
    else if d == 10 { "A" }
    else if d == 11 { "B" }
    else if d == 12 { "C" }
    else if d == 13 { "D" }
    else if d == 14 { "E" }
    else { "F" }
}

/// Appends the base-`b` digits of `n` to `s`.
fn push_digits(s: &mut String, n: u64, b: u64)
    requires
        2 <= b <= 16,
    ensures
        final(s)@ == old(s)@ + spec_digits(n as nat, b as nat),
    decreases n,
{
    if n < b {
        s.append(digit_str(n));
    } else {
        assert(n / b < n) by (nonlinear_arith)
            requires
                b >= 2,
                n >= b,
        ;
        push_digits(s, n / b, b);
        s.append(digit_str(n % b));
        proof {
            assert(old(s)@ + spec_digits((n / b) as nat, b as nat) + seq![digit_char((n % b) as nat)]
                =~= old(s)@ + spec_digits(n as nat, b as nat));
        }
    }
}

/// Appends `i` in decimal to `s` (as `write!(s, "{}", i)`).
pub fn push_dec(s: &mut String, i: i64)
    ensures
        final(s)@ == old(s)@ + spec_dec(i as int),
{
    if i < 0 {
        proof {
            reveal_strlit("-");
        }
        s.append("-");
        let n: u64 = (0i128 - (i as i128)) as u64;
        push_digits(s, n, 10);
        proof {
            assert(old(s)@ + seq!['-'] + spec_digits(n as nat, 10) =~= old(s)@ + spec_dec(i as int));
        }
    } else {
        push_digits(s, i as u64, 10);
    }
}

/// `i` in decimal (as `format!("{}", i)`).
pub fn dec_string(i: i64) -> (r: String)
    ensures
        r@ == spec_dec(i as int),
{
    let mut s = String::new();
    push_dec(&mut s, i);
    proof {
        assert(Seq::<char>::empty() + spec_dec(i as int) =~= spec_dec(i as int));
    }
    s
}

/// Appends `n` in upper-case hexadecimal, at least two digits, to `s`
/// (as `write!(s, "{:02X}", n)`).
pub fn push_hex2(s: &mut String, n: u64)
    ensures
        final(s)@ == old(s)@ + spec_hex2(n as nat),
{
    if n < 16 {
        proof {
            reveal_strlit("0");
        }
        s.append("0");
        s.append(digit_str(n));
        proof {
            assert(old(s)@ + seq!['0'] + seq![digit_char(n as nat)] =~= old(s)@ + spec_hex2(n as nat));
        }
    } else {
        push_digits(s, n, 16);
    }
}

/// `n` in upper-case hexadecimal, at least two digits (as `format!("{:02X}", n)`).
pub fn hex2_string(n: u64) -> (r: String)
    ensures
        r@ == spec_hex2(n as nat),
{
    let mut s = String::new();
    push_hex2(&mut s, n);
    proof {
        assert(Seq::<char>::empty() + spec_hex2(n as nat) =~= spec_hex2(n as nat));
    }
    s
}

/// Appends `n` levels of indentation to `s`.
pub fn push_indent(s: &mut String, n: i32)
    ensures
        final(s)@ == old(s)@ + spec_indent(n as int),
{
    let mut k: i32 = 0;
    let ghost s0 = s@;
    if n <= 0 {
        proof {
            assert(s0 + spec_indent(n as int) =~= s0);
        }
        return;
    }
    proof {
        assert(s0 + spec_indent(0) =~= s0);
    }
    while k < n
        invariant
            0 <= k <= n,
            s@ == s0 + spec_indent(k as int),
        decreases n - k,
    {
        s.append("    ");
        k = k + 1;
        proof {
            assert(s0 + spec_indent((k - 1) as int) + "    "@ =~= s0 + spec_indent(k as int));
        }
    }
}

/// Whether two strings have the same characters.
pub fn str_eq(a: &str, b: &str) -> (r: bool)
    ensures
        r == (a@ == b@),
{
    let x = a.to_owned();
    let y = b.to_owned();
    x == y
}

} // verus!
