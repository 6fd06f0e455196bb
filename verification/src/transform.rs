//! The base-36 digit expansion of an IBAN and the MOD 97-10 remainder test.
//!
//! Each character of a (rearranged) candidate is read as a base-36 digit:
//! `'0'`..`'9'` stand for 0..9 and the letters, in either case, for 10..35.
//! Every digit is then written out in decimal, so a letter contributes two
//! decimal characters and a digit one, and the concatenation forms one large
//! decimal numeral. The checksum test asks whether that numeral leaves
//! remainder 1 modulo 97; it is computed incrementally, digit by digit, so
//! that no fixed-width integer ever has to hold the full numeral.

use vstd::prelude::*;

verus! {

/// Whether `c` is an ASCII digit or an ASCII letter, i.e. a base-36 digit.
pub open spec fn is_base36(c: char) -> bool {
    (48 <= c as int && c as int <= 57)  // '0'..'9'
    || (65 <= c as int && c as int <= 90)  // 'A'..'Z'
    || (97 <= c as int && c as int <= 122)  // 'a'..'z'
}

/// The value of `c` as a base-36 digit, case-insensitive for letters.
pub open spec fn base36_value(c: char) -> int {
    if 48 <= c as int && c as int <= 57 {
        c as int - 48
    } else if 65 <= c as int && c as int <= 90 {
        c as int - 55
    } else {
        c as int - 87
    }
}

/// The decimal character for a digit value 0..9.
pub open spec fn char_of_digit(d: int) -> char {
    if d == 0 {
        '0'
    } else if d == 1 {
        '1'
    } else if d == 2 {
        '2'
    } else if d == 3 {
        '3'
    } else if d == 4 {
        '4'
    } else if d == 5 {
        '5'
    } else if d == 6 {
        '6'
    } else if d == 7 {
        '7'
    } else if d == 8 {
        '8'
    } else {
        '9'
    }
}

/// The decimal rendering of one base-36 digit: one character for values
/// below ten, two characters for letter values.
pub open spec fn digit_chars_of(c: char) -> Seq<char> {
    let v = base36_value(c);
    if v < 10 {
        seq![char_of_digit(v)]
    } else {
        seq![char_of_digit(v / 10), char_of_digit(v % 10)]
    }
}

/// The decimal numeral obtained by expanding every character of `s` as a
/// base-36 digit and concatenating the renderings in order.
pub open spec fn numeral_of(s: Seq<char>) -> Seq<char>
    decreases s.len(),
{
    if s.len() == 0 {
        Seq::empty()
    } else {
        numeral_of(s.drop_last()) + digit_chars_of(s.last())
    }
}

/// Whether `c` is a decimal digit character.
pub open spec fn is_decimal_digit(c: char) -> bool {
    48 <= c as int && c as int <= 57
}

/// The non-negative integer that the decimal digit string `s` denotes.
pub open spec fn numeral_value(s: Seq<char>) -> int
    decreases s.len(),
{
    if s.len() == 0 {
        0
    } else {
        numeral_value(s.drop_last()) * 10 + (s.last() as int - 48)
    }
}

/// The expansion of a base-36 string is a non-empty-per-character string of
/// decimal digits: every character contributes at least one digit, and every
/// digit written is a decimal digit character.
pub proof fn lemma_numeral_of_decimal(s: Seq<char>)
    requires
        forall|i: int| 0 <= i < s.len() ==> is_base36(s[i]),
    ensures
        numeral_of(s).len() >= s.len(),
        forall|i: int| 0 <= i < numeral_of(s).len() ==> is_decimal_digit(numeral_of(s)[i]),
    decreases s.len(),
{
    if s.len() > 0 {
        assert(forall|i: int| 0 <= i < s.drop_last().len() ==> is_base36(s.drop_last()[i]));
        lemma_numeral_of_decimal(s.drop_last());
    }
}

/// Appends the decimal character for the digit value `d` to `out`.
fn append_digit(out: &mut String, d: u32)
    requires
        d < 10,
    ensures
        final(out)@ == old(out)@.push(char_of_digit(d as int)),
{
    match d {
        0 => {
            proof {
                reveal_strlit("0");
            }
            out.append("0");
        },
        1 => {
            proof {
                reveal_strlit("1");
            }
            out.append("1");
        },
        2 => {
            proof {
                reveal_strlit("2");
            }
            out.append("2");
        },
        3 => {
            proof {
                reveal_strlit("3");
            }
            out.append("3");
        },
        4 => {
            proof {
                reveal_strlit("4");
            }
            out.append("4");
        },
        5 => {
            proof {
                reveal_strlit("5");
            }
            out.append("5");
        },
        6 => {
            proof {
                reveal_strlit("6");
            }
            out.append("6");
        },
        7 => {
            proof {
                reveal_strlit("7");
            }
            out.append("7");
        },
        8 => {
            proof {
                reveal_strlit("8");
            }
            out.append("8");
        },
        _ => {
            proof {
                reveal_strlit("9");
            }
            out.append("9");
        },
    }
    proof {
        assert(final(out)@ =~= old(out)@.push(char_of_digit(d as int)));
    }
}

/// The base-36 digit value of `c`, for a character the expansion accepts.
fn base36_digit(c: char) -> (r: u32)
    requires
        is_base36(c),
    ensures
        r == base36_value(c),
        r < 36,
{
    let u = c as u32;
    if u <= 57 {
        u - 48
    } else if u <= 90 {
        u - 55
    } else {
        u - 87
    }
}

/// Rewrites every character of `iban` as the decimal rendering of its
/// base-36 digit value: `'0'`..`'9'` stay as they are, a letter of either
/// case becomes the two decimal digits of its value 10..35.
pub fn replace_letters_with_numbers(iban: &str) -> (r: String)
    requires
        forall|i: int| 0 <= i < iban@.len() ==> is_base36(iban@[i]),
    ensures
        r@ == numeral_of(iban@),
{
    let n = iban.unicode_len();
    let mut out = String::new();
    let mut i: usize = 0;
    while i < n
        invariant
            0 <= i <= n,
            n == iban@.len(),
            forall|j: int| 0 <= j < iban@.len() ==> is_base36(iban@[j]),
            out@ == numeral_of(iban@.subrange(0, i as int)),
        decreases n - i,
    {
        let c = iban.get_char(i);
        let v = base36_digit(c);
        let ghost before = out@;
        if v < 10 {
            append_digit(&mut out, v);
        } else {
            append_digit(&mut out, v / 10);
            append_digit(&mut out, v % 10);
        }
        proof {
            let prefix = iban@.subrange(0, i as int);
            let next = iban@.subrange(0, i + 1);
            assert(next.drop_last() =~= prefix);
            assert(next.last() == iban@[i as int]);
            assert(out@ =~= before + digit_chars_of(iban@[i as int]));
        }
        i = i + 1;
    }
    proof {
        assert(iban@.subrange(0, n as int) =~= iban@);
    }
    out
}

/// The remainder step is sound: appending a digit to a numeral multiplies its
/// value by ten and adds the digit, and the remainder can track that.
proof fn lemma_mod_step(v: int, d: int, r: int)
    requires
        0 <= d,
        r == v % 97,
    ensures
        (v * 10 + d) % 97 == (r * 10 + d) % 97,
{
    vstd::arithmetic::div_mod::lemma_mul_mod_noop_left(v, 10, 97);
    vstd::arithmetic::div_mod::lemma_add_mod_noop(v * 10, d, 97);
    vstd::arithmetic::div_mod::lemma_add_mod_noop(r * 10, d, 97);
}

/// Whether the decimal numeral `numeral` leaves remainder 1 modulo 97, the
/// ISO 7064 MOD 97-10 pass condition. A string that is empty or holds any
/// character other than a decimal digit does not denote a numeral, and the
/// answer is then `false` rather than an error.
pub fn divide_by_97(numeral: &str) -> (r: bool)
    ensures
        r == (numeral@.len() > 0 && (forall|i: int|
            0 <= i < numeral@.len() ==> is_decimal_digit(numeral@[i])) && numeral_value(numeral@)
            % 97 == 1),
{
    let n = numeral.unicode_len();
    if n == 0 {
        return false;
    }
    let mut rem: u32 = 0;
    let mut i: usize = 0;
    while i < n
        invariant
            0 <= i <= n,
            n == numeral@.len(),
            rem < 97,
            forall|j: int| 0 <= j < i ==> is_decimal_digit(numeral@[j]),
            rem == numeral_value(numeral@.subrange(0, i as int)) % 97,
        decreases n - i,
    {
        let c = numeral.get_char(i);
        let u = c as u32;
        if u < 48 || u > 57 {
            return false;
        }
        let d = u - 48;
        proof {
            let prefix = numeral@.subrange(0, i as int);
            let next = numeral@.subrange(0, i + 1);
            assert(next.drop_last() =~= prefix);
            assert(next.last() == numeral@[i as int]);
            lemma_mod_step(numeral_value(prefix), d as int, rem as int);
        }
        rem = (rem * 10 + d) % 97;
        i = i + 1;
    }
    proof {
        assert(numeral@.subrange(0, n as int) =~= numeral@);
    }
    rem == 1
}

} // verus!
