//! Lower-case hexadecimal rendering of 64-bit values.
use vstd::prelude::*;

verus! {

/// The digits of base sixteen, in order of value, lower case.
pub open spec fn hex_alphabet() -> Seq<char> {
    seq!['0', '1', '2', '3', '4', '5', '6', '7', '8', '9', 'a', 'b', 'c', 'd', 'e', 'f']
}

/// The lower-case hexadecimal digit for a value below sixteen.
pub open spec fn hex_char(d: nat) -> char {
    hex_alphabet()[d as int]
}

/// The shortest lower-case hexadecimal spelling of `n` (`"0"` for zero).
pub open spec fn hex_digits(n: nat) -> Seq<char>
    decreases n,
{
    if n < 16 {
        seq![hex_char(n)]
    } else {
        hex_digits(n / 16).push(hex_char(n % 16))
    }
}

fn digit_str(d: u64) -> (s: &'static str)
    requires
        d < 16,
    ensures
        s@ == seq![hex_char(d as nat)],
{
    match d {
        0 => {
            proof {
                reveal_strlit("0");
            }
            "0"
        },
        1 => {
            proof {
                reveal_strlit("1");
            }
            "1"
        },
        2 => {
            proof {
                reveal_strlit("2");
            }
            "2"
        },
        3 => {
            proof {
                reveal_strlit("3");
            }
            "3"
        },
        4 => {
            proof {
                reveal_strlit("4");
            }
            "4"
        },
        5 => {
            proof {
                reveal_strlit("5");
            }
            "5"
        },
        6 => {
            proof {
                reveal_strlit("6");
            }
            "6"
        },
        7 => {
            proof {
                reveal_strlit("7");
            }
            "7"
        },
        8 => {
            proof {
                reveal_strlit("8");
            }
            "8"
        },
        9 => {
            proof {
                reveal_strlit("9");
            }
            "9"
        },
        10 => {
            proof {
                reveal_strlit("a");
            }
            "a"
        },
        11 => {
            proof {
                reveal_strlit("b");
            }
            "b"
        },
        12 => {
            proof {
                reveal_strlit("c");
            }
            "c"
        },
        13 => {
            proof {
                reveal_strlit("d");
            }
            "d"
        },
        14 => {
            proof {
                reveal_strlit("e");
            }
            "e"
        },
        _ => {
            proof {
                reveal_strlit("f");
            }
            "f"
        },
    }
}

/// The value of a hexadecimal digit character (`'f'` and any other character read as fifteen).
pub open spec fn digit_value(c: char) -> nat {
    if c == '0' {
        0
    } else if c == '1' {
        1
    } else if c == '2' {
        2
    } else if c == '3' {
        3
    } else if c == '4' {
        4
    } else if c == '5' {
        5
    } else if c == '6' {
        6
    } else if c == '7' {
        7
    } else if c == '8' {
        8
    } else if c == '9' {
        9
    } else if c == 'a' {
        10
    } else if c == 'b' {
        11
    } else if c == 'c' {
        12
    } else if c == 'd' {
        13
    } else if c == 'e' {
        14
    } else {
        15
    }
}

/// The number that a sequence of hexadecimal digits spells, most significant first.
pub open spec fn hex_value(s: Seq<char>) -> nat
    decreases s.len(),
{
    if s.len() == 0 {
        0
    } else {
        hex_value(s.drop_last()) * 16 + digit_value(s.last())
    }
}

proof fn lemma_digit_round_trip(d: nat)
    requires
        d < 16,
    ensures
        digit_value(hex_char(d)) == d,
{
    if d == 0 {} else if d == 1 {} else if d == 2 {} else if d == 3 {} else if d == 4 {}
    else if d == 5 {} else if d == 6 {} else if d == 7 {} else if d == 8 {} else if d == 9 {}
    else if d == 10 {} else if d == 11 {} else if d == 12 {} else if d == 13 {} else if d == 14 {}
    else {}
}

/// Reading back the hexadecimal spelling of a number gives that number.
pub proof fn lemma_hex_round_trip(n: nat)
    ensures
        hex_value(hex_digits(n)) == n,
    decreases n,
{
    if n < 16 {
        lemma_digit_round_trip(n);
        assert(seq![hex_char(n)].drop_last() =~= Seq::<char>::empty());
        assert(hex_value(seq![hex_char(n)]) == hex_value(Seq::<char>::empty()) * 16 + digit_value(hex_char(n)));
    } else {
        lemma_hex_round_trip(n / 16);
        lemma_digit_round_trip(n % 16);
        let s = hex_digits(n);
        assert(s.drop_last() =~= hex_digits(n / 16));
        assert(s.last() == hex_char(n % 16));
        assert(hex_value(s) == hex_value(hex_digits(n / 16)) * 16 + digit_value(hex_char(n % 16)));
        assert((n / 16) * 16 + n % 16 == n) by (nonlinear_arith);
    }
}

/// Two numbers with the same hexadecimal spelling are equal.
pub proof fn lemma_hex_injective(a: nat, b: nat)
    requires
        hex_digits(a) == hex_digits(b),
    ensures
        a == b,
{
    lemma_hex_round_trip(a);
    lemma_hex_round_trip(b);
}

/// Renders `n` in lower-case hexadecimal without leading zeros, as `format!("{:x}", n)` does.
pub fn to_hex_lower(n: u64) -> (s: String)
    ensures
        s@ == hex_digits(n as nat),
    decreases n,
{
    if n < 16 {
        String::from_str(digit_str(n))
    } else {
        let mut s = to_hex_lower(n / 16);
        s.append(digit_str(n % 16));
        s
    }
}

} // verus!
