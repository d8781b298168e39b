use vstd::prelude::*;

use vstd::arithmetic::div_mod::lemma_fundamental_div_mod;

verus! {

/// Whether `c` is a decimal digit.
pub open spec fn is_digit_char(c: char) -> bool {
    48 <= c as int <= 57
}

/// The digit character for `d`, defined for `d < 10`.
pub open spec fn char_of_digit(d: nat) -> char {
    if d == 0 {
        '0'
    } else if d == 1 {
        '1'
    } else if d == 2 {
        '2'
    } else if d == 3 {
        '3'
    } else if d == 4 {
        '4'
    } else if d == 5 {
        '5'
    } else if d == 6 {
        '6'
    } else if d == 7 {
        '7'
    } else if d == 8 {
        '8'
    } else {
        '9'
    }
}

/// Numeric value of a digit character.
pub open spec fn digit_of_char(c: char) -> nat {
    (c as int - 48) as nat
}

/// Whether every character of `s` is a decimal digit.
pub open spec fn all_digits(s: Seq<char>) -> bool {
    forall|i: int| 0 <= i < s.len() ==> is_digit_char(#[trigger] s[i])
}

/// Decimal numeral of `n`, most significant digit first, without leading
/// zeros (`0` itself is the one-character numeral `"0"`).
pub open spec fn spec_dec_digits(n: nat) -> Seq<char>
    decreases n,
{
    if n < 10 {
        seq![char_of_digit(n)]
    } else {
        spec_dec_digits(n / 10).push(char_of_digit(n % 10))
    }
}

/// Value of a string of digit characters read as a decimal numeral.
pub open spec fn spec_dec_val(s: Seq<char>) -> nat
    decreases s.len(),
{
    if s.len() == 0 {
        0
    } else {
        spec_dec_val(s.drop_last()) * 10 + digit_of_char(s.last())
    }
}

/// A digit value survives the trip through its character.
proof fn lemma_char_digit_roundtrip(d: nat)
    requires
        d < 10,
    ensures
        digit_of_char(char_of_digit(d)) == d,
        is_digit_char(char_of_digit(d)),
{
}

/// Rendering a number and reading the numeral back round-trips, and the
/// numeral is never empty and consists of digits only.
pub proof fn lemma_dec_digits_val(n: nat)
    ensures
        spec_dec_val(spec_dec_digits(n)) == n,
        all_digits(spec_dec_digits(n)),
        spec_dec_digits(n).len() >= 1,
    decreases n,
{
    if n < 10 {
        lemma_char_digit_roundtrip(n);
        let s = spec_dec_digits(n);
        assert(s.drop_last() =~= Seq::<char>::empty());
        assert(s.last() == char_of_digit(n));
        assert(spec_dec_val(s) == spec_dec_val(s.drop_last()) * 10 + digit_of_char(s.last()));
    } else {
        lemma_char_digit_roundtrip((n % 10) as nat);
        lemma_dec_digits_val(n / 10);
        lemma_fundamental_div_mod(n as int, 10);
        let prefix = spec_dec_digits(n / 10);
        let s = spec_dec_digits(n);
        assert(s.drop_last() =~= prefix);
        assert(forall|i: int|
            0 <= i < s.len() ==> is_digit_char(#[trigger] s[i]) == if i < prefix.len() {
                is_digit_char(prefix[i])
            } else {
                is_digit_char(char_of_digit(n % 10))
            });
    }
}

/// A numeral's value only grows when more characters follow it.
pub proof fn lemma_dec_val_prefix_le(s: Seq<char>, t: Seq<char>)
    ensures
        spec_dec_val(s) <= spec_dec_val(s + t),
    decreases t.len(),
{
    if t.len() == 0 {
        assert(s + t =~= s);
    } else {
        lemma_dec_val_prefix_le(s, t.drop_last());
        assert((s + t).drop_last() =~= s + t.drop_last());
        assert((s + t).len() > 0);
    }
}

/// Digit string for one digit value.
fn digit_str(d: u64) -> (r: &'static str)
    requires
        d < 10,
    ensures
        r@ =~= seq![char_of_digit(d as nat)],
{
    match d {
        0 => {
            proof {
                reveal_strlit("0");
            }
            "0"
        },
        1 => {
            proof {
                reveal_strlit("1");
            }
            "1"
        },
        2 => {
            proof {
                reveal_strlit("2");
            }
            "2"
        },
        3 => {
            proof {
                reveal_strlit("3");
            }
            "3"
        },
        4 => {
            proof {
                reveal_strlit("4");
            }
            "4"
        },
        5 => {
            proof {
                reveal_strlit("5");
            }
            "5"
        },
        6 => {
            proof {
                reveal_strlit("6");
            }
            "6"
        },
        7 => {
            proof {
                reveal_strlit("7");
            }
            "7"
        },
        8 => {
            proof {
                reveal_strlit("8");
            }
            "8"
        },
        _ => {
            proof {
                reveal_strlit("9");
            }
            "9"
        },
    }
}

/// Renders `n` as its decimal numeral.
pub fn u64_to_dec_string(n: u64) -> (r: String)
    ensures
        r@ == spec_dec_digits(n as nat),
    decreases n,
{
    if n < 10 {
        String::from_str(digit_str(n))
    } else {
        let mut s = u64_to_dec_string(n / 10);
        s.append(digit_str(n % 10));
        proof {
            assert(s@ =~= spec_dec_digits((n / 10) as nat).push(char_of_digit((n % 10) as nat)));
        }
        s
    }
}

/// Value of a bare digit string: at least one character, all digits, within
/// the unsigned 64-bit range; anything else is no numeral.
pub open spec fn spec_parse_digits_u64(s: Seq<char>) -> Option<u64> {
    if s.len() > 0 && all_digits(s) && spec_dec_val(s) <= u64::MAX {
        Some(spec_dec_val(s) as u64)
    } else {
        None
    }
}

/// Reads a bare digit string as an unsigned 64-bit value.
pub fn parse_digits_u64(s: &str) -> (r: Option<u64>)
    ensures
        r == spec_parse_digits_u64(s@),
{
    let n = s.unicode_len();
    if n == 0 {
        return None;
    }
    let mut acc: u64 = 0;
    let mut i: usize = 0;
    proof {
        assert(s@.subrange(0, 0) =~= Seq::<char>::empty());
    }
    while i < n
        invariant
            0 <= i <= n,
            n == s@.len(),
            all_digits(s@.subrange(0, i as int)),
            acc == spec_dec_val(s@.subrange(0, i as int)),
        decreases n - i,
    {
        let c = s.get_char(i);
        let cv = c as u32;
        let ghost prefix = s@.subrange(0, i as int);
        let ghost prefix1 = s@.subrange(0, i as int + 1);
        proof {
            assert(prefix1.drop_last() =~= prefix);
            assert(prefix1.last() == s@[i as int]);
        }
        if cv < 48 || cv > 57 {
            return None;
        }
        let d = (cv - 48) as u64;
        let step = match acc.checked_mul(10) {
            Some(m) => m.checked_add(d),
            None => None,
        };
        match step {
            Some(v) => {
                acc = v;
            },
            None => {
                proof {
                    assert(spec_dec_val(prefix1) > u64::MAX);
                    assert(prefix1 + s@.subrange(i as int + 1, n as int) =~= s@);
                    lemma_dec_val_prefix_le(prefix1, s@.subrange(i as int + 1, n as int));
                }
                return None;
            },
        }
        i = i + 1;
    }
    proof {
        assert(s@.subrange(0, n as int) =~= s@);
    }
    Some(acc)
}

/// An unsigned decimal numeral: an optional leading `'+'`, then at least one
/// digit, read within the unsigned 64-bit range.
pub open spec fn spec_parse_u64(s: Seq<char>) -> Option<u64> {
    if s.len() > 0 && s[0] == '+' {
        spec_parse_digits_u64(s.skip(1))
    } else {
        spec_parse_digits_u64(s)
    }
}

/// Reads an unsigned decimal numeral, with an optional leading `'+'`.
pub fn parse_u64(s: &str) -> (r: Option<u64>)
    ensures
        r == spec_parse_u64(s@),
{
    let n = s.unicode_len();
    if n > 0 && s.get_char(0) == '+' {
        let rest = s.substring_char(1, n);
        proof {
            assert(rest@ =~= s@.skip(1));
        }
        parse_digits_u64(rest)
    } else {
        parse_digits_u64(s)
    }
}

/// A signed decimal numeral: an optional `'+'` or `'-'`, then at least one
/// digit, read within the signed 32-bit range.
pub open spec fn spec_parse_i32(s: Seq<char>) -> Option<i32> {
    if s.len() > 0 && s[0] == '-' {
        match spec_parse_digits_u64(s.skip(1)) {
            Some(v) => if v <= 0x8000_0000u64 {
                Some((0 - v as int) as i32)
            } else {
                None
            },
            None => None,
        }
    } else if s.len() > 0 && s[0] == '+' {
        match spec_parse_digits_u64(s.skip(1)) {
            Some(v) => if v <= i32::MAX as u64 {
                Some(v as i32)
            } else {
                None
            },
            None => None,
        }
    } else {
        match spec_parse_digits_u64(s) {
            Some(v) => if v <= i32::MAX as u64 {
                Some(v as i32)
            } else {
                None
            },
            None => None,
        }
    }
}

/// Reads a signed decimal numeral within the signed 32-bit range.
pub fn parse_i32(s: &str) -> (r: Option<i32>)
    ensures
        r == spec_parse_i32(s@),
{
    let n = s.unicode_len();
    if n == 0 {
        return None;
    }
    let c0 = s.get_char(0);
    if c0 == '-' {
        let rest = s.substring_char(1, n);
        proof {
            assert(rest@ =~= s@.skip(1));
        }
        match parse_digits_u64(rest) {
            Some(v) => if v <= 0x8000_0000u64 {
                Some((-(v as i64)) as i32)
            } else {
                None
            },
            None => None,
        }
    } else if c0 == '+' {
        let rest = s.substring_char(1, n);
        proof {
            assert(rest@ =~= s@.skip(1));
        }
        match parse_digits_u64(rest) {
            Some(v) => if v <= i32::MAX as u64 {
                Some(v as i32)
            } else {
                None
            },
            None => None,
        }
    } else {
        match parse_digits_u64(s) {
            Some(v) => if v <= i32::MAX as u64 {
                Some(v as i32)
            } else {
                None
            },
            None => None,
        }
    }
}

}
