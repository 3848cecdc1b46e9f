//! The character-class part of the password-strength estimator: which of
//! the four classes (lowercase, uppercase, digit, everything else) occur in
//! a password decides the size of the alphabet an attacker must search.
//! The floating-point entropy arithmetic built on top of this is the
//! caller's business.

use vstd::prelude::*;

verus! {

pub open spec fn is_lower_char(c: char) -> bool {
    97 <= c as u32 && c as u32 <= 122
}

pub open spec fn is_upper_char(c: char) -> bool {
    65 <= c as u32 && c as u32 <= 90
}

pub open spec fn is_digit_char(c: char) -> bool {
    48 <= c as u32 && c as u32 <= 57
}

/// Any character outside the three ASCII classes counts as a symbol.
pub open spec fn is_symbol_char(c: char) -> bool {
    !is_lower_char(c) && !is_upper_char(c) && !is_digit_char(c)
}

pub open spec fn has_lower(s: Seq<char>) -> bool {
    exists|i: int| 0 <= i < s.len() && is_lower_char(s[i])
}

pub open spec fn has_upper(s: Seq<char>) -> bool {
    exists|i: int| 0 <= i < s.len() && is_upper_char(s[i])
}

pub open spec fn has_digit(s: Seq<char>) -> bool {
    exists|i: int| 0 <= i < s.len() && is_digit_char(s[i])
}

pub open spec fn has_symbol(s: Seq<char>) -> bool {
    exists|i: int| 0 <= i < s.len() && is_symbol_char(s[i])
}

/// The alphabet size for a password: 26 for lowercase, 26 for uppercase,
/// 10 for digits and 33 for symbols, summed over the classes that occur.
/// An empty password has no class and size zero.
pub open spec fn charset_size_spec(s: Seq<char>) -> int {
    (if has_lower(s) {
        26int
    } else {
        0int
    }) + (if has_upper(s) {
        26int
    } else {
        0int
    }) + (if has_digit(s) {
        10int
    } else {
        0int
    }) + (if has_symbol(s) {
        33int
    } else {
        0int
    })
}

/// Computes the alphabet size of `pw`, exactly `charset_size_spec`.
pub fn get_charset_size(pw: &str) -> (size: usize)
    ensures
        size == charset_size_spec(pw@),
{
    let n = pw.unicode_len();
    let mut found_lower = false;
    let mut found_upper = false;
    let mut found_digit = false;
    let mut found_symbol = false;
    let mut i: usize = 0;
    while i < n
        invariant
            i <= n,
            n == pw@.len(),
            found_lower <==> exists|k: int| 0 <= k < i && is_lower_char(pw@[k]),
            found_upper <==> exists|k: int| 0 <= k < i && is_upper_char(pw@[k]),
            found_digit <==> exists|k: int| 0 <= k < i && is_digit_char(pw@[k]),
            found_symbol <==> exists|k: int| 0 <= k < i && is_symbol_char(pw@[k]),
        decreases n - i,
    {
        let c = pw.get_char(i);
        let u = c as u32;
        if 97 <= u && u <= 122 {
            found_lower = true;
        } else if 65 <= u && u <= 90 {
            found_upper = true;
        } else if 48 <= u && u <= 57 {
            found_digit = true;
        } else {
            found_symbol = true;
        }
        proof {
            let ci = pw@[i as int];
            if is_lower_char(ci) {
                assert(0 <= i as int && (i as int) < i + 1 && is_lower_char(pw@[i as int]));
            } else if exists|k: int| 0 <= k < i + 1 && is_lower_char(pw@[k]) {
                let k = choose|k: int| 0 <= k < i + 1 && is_lower_char(pw@[k]);
                assert(0 <= k < i && is_lower_char(pw@[k]));
            }
            if is_upper_char(ci) {
                assert(0 <= i as int && (i as int) < i + 1 && is_upper_char(pw@[i as int]));
            } else if exists|k: int| 0 <= k < i + 1 && is_upper_char(pw@[k]) {
                let k = choose|k: int| 0 <= k < i + 1 && is_upper_char(pw@[k]);
                assert(0 <= k < i && is_upper_char(pw@[k]));
            }
            if is_digit_char(ci) {
                assert(0 <= i as int && (i as int) < i + 1 && is_digit_char(pw@[i as int]));
            } else if exists|k: int| 0 <= k < i + 1 && is_digit_char(pw@[k]) {
                let k = choose|k: int| 0 <= k < i + 1 && is_digit_char(pw@[k]);
                assert(0 <= k < i && is_digit_char(pw@[k]));
            }
            if is_symbol_char(ci) {
                assert(0 <= i as int && (i as int) < i + 1 && is_symbol_char(pw@[i as int]));
            } else if exists|k: int| 0 <= k < i + 1 && is_symbol_char(pw@[k]) {
                let k = choose|k: int| 0 <= k < i + 1 && is_symbol_char(pw@[k]);
                assert(0 <= k < i && is_symbol_char(pw@[k]));
            }
        }
        i += 1;
    }
    assert(found_lower == has_lower(pw@));
    assert(found_upper == has_upper(pw@));
    assert(found_digit == has_digit(pw@));
    assert(found_symbol == has_symbol(pw@));
    let mut size: usize = 0;
    if found_lower {
        size = size + 26;
    }
    if found_upper {
        size = size + 26;
    }
    if found_digit {
        size = size + 10;
    }
    if found_symbol {
        size = size + 33;
    }
    size
}

} // verus!
