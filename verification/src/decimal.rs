use vstd::prelude::*;
use vstd::string::StringExecFns;

verus! {

/// The character for one decimal digit.
pub open spec fn digit_char(d: nat) -> char {
    if d == 0 {
        '0'
    } else if d == 1 {
        '1'
    } else if d == 2 {
        '2'
    } else if d == 3 {
        '3'
    } else if d == 4 {
        '4'
    } else if d == 5 {
        '5'
    } else if d == 6 {
        '6'
    } else if d == 7 {
        '7'
    } else if d == 8 {
        '8'
    } else {
        '9'
    }
}

/// The decimal representation of `n`, most significant digit first, with no
/// leading zeros (zero itself is the single character '0').
pub open spec fn decimal_chars(n: nat) -> Seq<char>
    decreases n,
{
    if n < 10 {
        seq![digit_char(n)]
    } else {
        decimal_chars(n / 10) + seq![digit_char(n % 10)]
    }
}

/// The numeric value of one decimal digit character.
pub open spec fn digit_value(c: char) -> nat {
    if c == '0' {
        0
    } else if c == '1' {
        1
    } else if c == '2' {
        2
    } else if c == '3' {
        3
    } else if c == '4' {
        4
    } else if c == '5' {
        5
    } else if c == '6' {
        6
    } else if c == '7' {
        7
    } else if c == '8' {
        8
    } else {
        9
    }
}

/// The number that a sequence of decimal digit characters denotes, most
/// significant digit first.
pub open spec fn chars_value(s: Seq<char>) -> nat
    decreases s.len(),
{
    if s.len() == 0 {
        0
    } else {
        chars_value(s.drop_last()) * 10 + digit_value(s.last())
    }
}

/// Law: the decimal rendering round-trips — read back as a number, the
/// characters of `decimal_chars(n)` denote exactly `n` — and it never
/// carries a leading zero (zero itself excepted).
pub proof fn lemma_decimal_chars_value(n: nat)
    ensures
        chars_value(decimal_chars(n)) == n,
        decimal_chars(n).len() > 0,
        n != 0 ==> decimal_chars(n)[0] != '0',
    decreases n,
{
    if n < 10 {
        assert(decimal_chars(n).drop_last() =~= Seq::<char>::empty());
        assert(decimal_chars(n).last() == digit_char(n));
        assert(digit_value(digit_char(n)) == n);
        assert(chars_value(decimal_chars(n)) == chars_value(Seq::<char>::empty()) * 10
            + digit_value(digit_char(n)));
    } else {
        lemma_decimal_chars_value(n / 10);
        let prefix = decimal_chars(n / 10);
        let whole = decimal_chars(n);
        assert(whole.drop_last() =~= prefix);
        assert(whole.last() == digit_char(n % 10));
        vstd::arithmetic::div_mod::lemma_fundamental_div_mod(n as int, 10);
        assert(whole[0] == prefix[0]);
    }
}

fn digit_str(d: usize) -> (r: &'static str)
    requires
        d < 10,
    ensures
        r@ == seq![digit_char(d as nat)],
{
    proof {
        reveal_strlit("0");
        reveal_strlit("1");
        reveal_strlit("2");
        reveal_strlit("3");
        reveal_strlit("4");
        reveal_strlit("5");
        reveal_strlit("6");
        reveal_strlit("7");
        reveal_strlit("8");
        reveal_strlit("9");
        assert(seq![digit_char(d as nat)].len() == 1);
    }
    if d == 0 {
        proof { assert("0"@ =~= seq![digit_char(0)]); }
        "0"
    } else if d == 1 {
        proof { assert("1"@ =~= seq![digit_char(1)]); }
        "1"
    } else if d == 2 {
        proof { assert("2"@ =~= seq![digit_char(2)]); }
        "2"
    } else if d == 3 {
        proof { assert("3"@ =~= seq![digit_char(3)]); }
        "3"
    } else if d == 4 {
        proof { assert("4"@ =~= seq![digit_char(4)]); }
        "4"
    } else if d == 5 {
        proof { assert("5"@ =~= seq![digit_char(5)]); }
        "5"
    } else if d == 6 {
        proof { assert("6"@ =~= seq![digit_char(6)]); }
        "6"
    } else if d == 7 {
        proof { assert("7"@ =~= seq![digit_char(7)]); }
        "7"
    } else if d == 8 {
        proof { assert("8"@ =~= seq![digit_char(8)]); }
        "8"
    } else {
        proof { assert("9"@ =~= seq![digit_char(9)]); }
        "9"
    }
}

/// Render `n` in decimal, exactly as `decimal_chars` describes it.
pub fn decimal_string(n: usize) -> (r: String)
    ensures
        r@ == decimal_chars(n as nat),
    decreases n,
{
    if n < 10 {
        String::from_str(digit_str(n))
    } else {
        proof {
            assert(n / 10 < n) by (nonlinear_arith)
                requires
                    n >= 10,
            ;
        }
        let mut s = decimal_string(n / 10);
        s.append(digit_str(n % 10));
        s
    }
}

} // verus!
