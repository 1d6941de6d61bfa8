//! Integers written out as text, for log output.
use vstd::prelude::*;
use vstd::string::StringExecFns;

verus! {

/// The character of a digit below 16 (lower-case letters above 9).
pub open spec fn digit_char(d: nat) -> char {
    seq!['0', '1', '2', '3', '4', '5', '6', '7', '8', '9', 'a', 'b', 'c', 'd', 'e', 'f'][d as int]
}

/// The digits of `x` in base `b` (2 to 16), most significant first, without
/// leading zeros (`0` is the single digit `0`).
pub open spec fn digits(x: nat, b: nat) -> Seq<char>
    recommends
        2 <= b <= 16,
    decreases x,
{
    if x < b || b < 2 {
        seq![digit_char(x % 16)]
    } else {
        proof {
            assert(x / b < x) by (nonlinear_arith)
                requires
                    b >= 2,
                    x >= b,
            ;
        }
        digits(x / b, b).push(digit_char(x % b))
    }
}

/// The digit `d` (below 16) as text.
fn digit_str(d: u64) -> (r: &'static str)
    requires
        d < 16,
    ensures
        r@ == seq![digit_char(d as nat)],
{
    if d == 0 {
        proof {
            reveal_strlit("0");
        }
        "0"
    } else if d == 1 {
        proof {
            reveal_strlit("1");
        }
        "1"
    } else if d == 2 {
        proof {
            reveal_strlit("2");
        }
        "2"
    } else if d == 3 {
        proof {
            reveal_strlit("3");
        }
        "3"
    } else if d == 4 {
        proof {
            reveal_strlit("4");
        }
        "4"
    } else if d == 5 {
        proof {
            reveal_strlit("5");
        }
        "5"
    } else if d == 6 {
        proof {
            reveal_strlit("6");
        }
        "6"
    } else if d == 7 {
        proof {
            reveal_strlit("7");
        }
        "7"
    } else if d == 8 {
        proof {
            reveal_strlit("8");
        }
        "8"
    } else if d == 9 {
        proof {
            reveal_strlit("9");
        }
        "9"
    } else if d == 10 {
        proof {
            reveal_strlit("a");
        }
        "a"
    } else if d == 11 {
        proof {
            reveal_strlit("b");
        }
        "b"
    } else if d == 12 {
        proof {
            reveal_strlit("c");
        }
        "c"
    } else if d == 13 {
        proof {
            reveal_strlit("d");
        }
        "d"
    } else if d == 14 {
        proof {
            reveal_strlit("e");
        }
        "e"
    } else {
        proof {
            reveal_strlit("f");
        }
        "f"
    }
}

/// Appends the digits of `x` in base `b`.
fn append_digits(text: &mut String, x: u64, b: u64)
    requires
        2 <= b <= 16,
    ensures
        final(text)@ == old(text)@ + digits(x as nat, b as nat),
    decreases x,
{
    if x >= b {
        assert(x / b < x) by (nonlinear_arith)
            requires
                b >= 2,
                x >= b,
        ;
        append_digits(text, x / b, b);
        text.append(digit_str(x % b));
        assert(text@ =~= old(text)@ + digits(x as nat, b as nat));
    } else {
        assert(x % b == x % 16) by (nonlinear_arith)
            requires
                x < b,
                b <= 16,
        ;
        text.append(digit_str(x % b));
        assert(text@ =~= old(text)@ + digits(x as nat, b as nat));
    }
}

/// `0x` followed by the lower-case hexadecimal digits of `x` (what
/// `format!("{:#x}", x)` writes).
pub fn hex_string(x: u64) -> (r: String)
    ensures
        r@ == seq!['0', 'x'] + digits(x as nat, 16),
{
    let mut text = String::from_str("0x");
    proof {
        reveal_strlit("0x");
    }
    append_digits(&mut text, x, 16);
    text
}

/// The decimal digits of `x`.
pub fn decimal_string(x: u64) -> (r: String)
    ensures
        r@ == digits(x as nat, 10),
{
    let mut text = String::new();
    append_digits(&mut text, x, 10);
    assert(text@ =~= digits(x as nat, 10));
    text
}

} // verus!
