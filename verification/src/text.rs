//! Character and string helpers shared by the color formatters and the
//! name lookups: hexadecimal and decimal digits, and ASCII case folding.

use vstd::prelude::*;
use vstd::arithmetic::div_mod::lemma_div_denominator;
use vstd::string::StrSliceExecFns;
use vstd::string::StringExecFns;

verus! {

/// The uppercase digit character for a value below sixteen.
pub open spec fn digit_char(n: int) -> char
    recommends
        0 <= n < 16,
{
    if n == 0 {
        '0'
    } else if n == 1 {
        '1'
    } else if n == 2 {
        '2'
    } else if n == 3 {
        '3'
    } else if n == 4 {
        '4'
    } else if n == 5 {
        '5'
    } else if n == 6 {
        '6'
    } else if n == 7 {
        '7'
    } else if n == 8 {
        '8'
    } else if n == 9 {
        '9'
    } else if n == 10 {
        'A'
    } else if n == 11 {
        'B'
    } else if n == 12 {
        'C'
    } else if n == 13 {
        'D'
    } else if n == 14 {
        'E'
    } else {
        'F'
    }
}

/// The value of a hexadecimal digit character (either case), or -1 when
/// the character is not a hexadecimal digit.
pub open spec fn hex_val(c: char) -> int {
    let n = c as int;
    if 48 <= n <= 57 {
        n - 48
    } else if 65 <= n <= 70 {
        n - 55
    } else if 97 <= n <= 102 {
        n - 87
    } else {
        -1
    }
}

/// Whether a character is a hexadecimal digit in either case.
pub open spec fn is_hex_digit(c: char) -> bool {
    hex_val(c) >= 0
}

/// A one-character string holding the uppercase digit for `n`.
pub fn digit_str(n: u8) -> (d: &'static str)
    requires
        n < 16,
    ensures
        d@ =~= seq![digit_char(n as int)],
{
    proof {
        reveal_strlit("0");
        reveal_strlit("1");
        reveal_strlit("2");
        reveal_strlit("3");
        reveal_strlit("4");
        reveal_strlit("5");
        reveal_strlit("6");
        reveal_strlit("7");
        reveal_strlit("8");
        reveal_strlit("9");
        reveal_strlit("A");
        reveal_strlit("B");
        reveal_strlit("C");
        reveal_strlit("D");
        reveal_strlit("E");
        reveal_strlit("F");
    }
    match n {
        0 => "0",
        1 => "1",
        2 => "2",
        3 => "3",
        4 => "4",
        5 => "5",
        6 => "6",
        7 => "7",
        8 => "8",
        9 => "9",
        10 => "A",
        11 => "B",
        12 => "C",
        13 => "D",
        14 => "E",
        _ => "F",
    }
}

/// Whether a character is a digit of the uppercase hex alphabet,
/// `0`-`9` or `A`-`F`.
pub open spec fn is_upper_hex_digit(c: char) -> bool {
    let n = c as int;
    (48 <= n <= 57) || (65 <= n <= 70)
}

/// The digit character for a value below sixteen is an uppercase hex
/// digit, and reading its value gives that value back.
pub proof fn lemma_digit_char_val(n: int)
    requires
        0 <= n < 16,
    ensures
        is_upper_hex_digit(digit_char(n)),
        hex_val(digit_char(n)) == n,
{
}

/// The decimal rendering of a nonnegative integer, most significant
/// digit first, without leading zeros.
pub open spec fn dec_chars(n: int) -> Seq<char>
    recommends
        n >= 0,
    decreases n,
{
    if n < 10 {
        seq![digit_char(n)]
    } else {
        dec_chars(n / 10).push(digit_char(n % 10))
    }
}

/// ASCII uppercase letters folded to lowercase; all other characters
/// unchanged.
pub open spec fn lower_char(c: char) -> char {
    if 65 <= c as int <= 90 {
        ((c as u8) + 32) as char
    } else {
        c
    }
}

/// A character sequence with every ASCII uppercase letter folded to
/// lowercase.
pub open spec fn lower_chars(s: Seq<char>) -> Seq<char> {
    s.map_values(|c: char| lower_char(c))
}

/// The value of a hexadecimal digit character, or `None` when the
/// character is not one.
pub fn hex_digit_val(c: char) -> (v: Option<u8>)
    ensures
        match v {
            Some(x) => is_hex_digit(c) && x == hex_val(c),
            None => !is_hex_digit(c),
        },
{
    let n = c as u32;
    if 48 <= n && n <= 57 {
        Some((n - 48) as u8)
    } else if 65 <= n && n <= 70 {
        Some((n - 55) as u8)
    } else if 97 <= n && n <= 102 {
        Some((n - 87) as u8)
    } else {
        None
    }
}

/// The decimal rendering of a byte, without leading zeros.
pub fn dec_str_u8(n: u8) -> (s: String)
    ensures
        s@ == dec_chars(n as int),
{
    let mut s = String::new();
    if n >= 100 {
        s.append(digit_str(n / 100));
    }
    if n >= 10 {
        s.append(digit_str((n / 10) % 10));
    }
    s.append(digit_str(n % 10));
    proof {
        let ni = n as int;
        if ni >= 100 {
            lemma_div_denominator(ni, 10, 10);
            assert(ni / 10 / 10 == ni / 100);
            assert(ni / 10 >= 10);
            assert(ni / 100 < 10);
            assert(dec_chars(ni / 100) =~= seq![digit_char(ni / 100)]);
            assert(dec_chars(ni / 10) =~= seq![
                digit_char(ni / 100),
                digit_char((ni / 10) % 10),
            ]);
            assert(s@ =~= dec_chars(ni));
        } else if ni >= 10 {
            assert(ni / 10 < 10);
            assert(dec_chars(ni / 10) =~= seq![digit_char(ni / 10)]);
            assert((ni / 10) % 10 == ni / 10);
            assert(s@ =~= dec_chars(ni));
        } else {
            assert(s@ =~= dec_chars(ni));
        }
    }
    s
}

/// The lowercase fold of one character: ASCII uppercase letters are
/// shifted to lowercase, all other characters pass through.
pub fn fold_char(c: char) -> (l: char)
    ensures
        l == lower_char(c),
{
    let n = c as u32;
    if 65 <= n && n <= 90 {
        ((n + 32) as u8) as char
    } else {
        c
    }
}

/// Whether two strings are equal once ASCII case is folded away.
pub fn eq_ignore_case(s: &str, t: &str) -> (r: bool)
    ensures
        r == (lower_chars(s@) == lower_chars(t@)),
{
    let sn = s.unicode_len();
    let tn = t.unicode_len();
    if sn != tn {
        proof {
            assert(lower_chars(s@).len() == s@.len());
            assert(lower_chars(t@).len() == t@.len());
        }
        return false;
    }
    let mut i: usize = 0;
    while i < sn
        invariant
            sn == s@.len(),
            tn == t@.len(),
            sn == tn,
            i <= sn,
            forall|j: int| 0 <= j < i ==> lower_char(s@[j]) == lower_char(t@[j]),
        decreases sn - i,
    {
        let sc = fold_char(s.get_char(i));
        let tc = fold_char(t.get_char(i));
        if sc != tc {
            proof {
                assert(lower_chars(s@)[i as int] != lower_chars(t@)[i as int]);
            }
            return false;
        }
        i += 1;
    }
    proof {
        assert(lower_chars(s@) =~= lower_chars(t@));
    }
    true
}

} // verus!
