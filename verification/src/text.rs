//! Character and string helpers: blank detection for submitted fields,
//! decimal rendering of integers, and the composite ids built from an
//! address, a platform and a number.

use vstd::prelude::*;

verus! {

/// A character with the Unicode `White_Space` property, the set that
/// `str::trim` strips from either end of a string.
pub open spec fn is_space(c: char) -> bool {
    ||| c == ' '
    ||| c == '\t'
    ||| c == '\n'
    ||| c == '\u{000B}'
    ||| c == '\u{000C}'
    ||| c == '\r'
    ||| c == '\u{0085}'
    ||| c == '\u{00A0}'
    ||| c == '\u{1680}'
    ||| c == '\u{2000}'
    ||| c == '\u{2001}'
    ||| c == '\u{2002}'
    ||| c == '\u{2003}'
    ||| c == '\u{2004}'
    ||| c == '\u{2005}'
    ||| c == '\u{2006}'
    ||| c == '\u{2007}'
    ||| c == '\u{2008}'
    ||| c == '\u{2009}'
    ||| c == '\u{200A}'
    ||| c == '\u{2028}'
    ||| c == '\u{2029}'
    ||| c == '\u{202F}'
    ||| c == '\u{205F}'
    ||| c == '\u{3000}'
}

/// A string is blank when every character is whitespace; the empty string
/// is blank.
pub open spec fn is_blank(s: Seq<char>) -> bool {
    forall|i: int| 0 <= i < s.len() ==> is_space(s[i])
}

fn is_space_char(c: char) -> (r: bool)
    ensures
        r == is_space(c),
{
    c == ' ' || c == '\t' || c == '\n' || c == '\u{000B}' || c == '\u{000C}' || c == '\r'
        || c == '\u{0085}' || c == '\u{00A0}' || c == '\u{1680}' || c == '\u{2000}'
        || c == '\u{2001}' || c == '\u{2002}' || c == '\u{2003}' || c == '\u{2004}'
        || c == '\u{2005}' || c == '\u{2006}' || c == '\u{2007}' || c == '\u{2008}'
        || c == '\u{2009}' || c == '\u{200A}' || c == '\u{2028}' || c == '\u{2029}'
        || c == '\u{202F}' || c == '\u{205F}' || c == '\u{3000}'
}

/// Whether a submitted field consists of whitespace alone.
pub fn str_is_blank(s: &String) -> (r: bool)
    ensures
        r == is_blank(s@),
{
    let n = s.as_str().unicode_len();
    let mut i: usize = 0;
    while i < n
        invariant
            n == s@.len(),
            i <= n,
            forall|j: int| 0 <= j < i ==> is_space(s@[j]),
        decreases n - i,
    {
        let c = s.as_str().get_char(i);
        if !is_space_char(c) {
            assert(!is_space(s@[i as int]));
            return false;
        }
        i = i + 1;
    }
    true
}

/// The character for one decimal digit.
pub open spec fn digit_char(d: nat) -> char {
    if d == 0 {
        '0'
    } else if d == 1 {
        '1'
    } else if d == 2 {
        '2'
    } else if d == 3 {
        '3'
    } else if d == 4 {
        '4'
    } else if d == 5 {
        '5'
    } else if d == 6 {
        '6'
    } else if d == 7 {
        '7'
    } else if d == 8 {
        '8'
    } else {
        '9'
    }
}

/// The decimal digits of a number, most significant first, with no
/// leading zero except for the number zero itself.
pub open spec fn dec_digits(n: nat) -> Seq<char>
    decreases n,
{
    if n < 10 {
        seq![digit_char(n)]
    } else {
        dec_digits(n / 10).push(digit_char(n % 10))
    }
}

fn digit_str(d: u64) -> (s: &'static str)
    requires
        d < 10,
    ensures
        s@ =~= seq![digit_char(d as nat)],
{
    proof {
        reveal_strlit("0");
        reveal_strlit("1");
        reveal_strlit("2");
        reveal_strlit("3");
        reveal_strlit("4");
        reveal_strlit("5");
        reveal_strlit("6");
        reveal_strlit("7");
        reveal_strlit("8");
        reveal_strlit("9");
    }
    match d {
        0 => "0",
        1 => "1",
        2 => "2",
        3 => "3",
        4 => "4",
        5 => "5",
        6 => "6",
        7 => "7",
        8 => "8",
        _ => "9",
    }
}

/// Renders a number in decimal.
pub fn u64_dec(n: u64) -> (s: String)
    ensures
        s@ == dec_digits(n as nat),
    decreases n,
{
    if n < 10 {
        let s = String::from_str(digit_str(n));
        assert(s@ =~= dec_digits(n as nat));
        s
    } else {
        let mut s = u64_dec(n / 10);
        s.append(digit_str(n % 10));
        assert(s@ =~= dec_digits(n as nat));
        s
    }
}

/// The composite id `a:b:n` that keys proofs, endorsements and badges.
pub open spec fn id_of(a: Seq<char>, b: Seq<char>, n: nat) -> Seq<char> {
    a + seq![':'] + b + seq![':'] + dec_digits(n)
}

/// Builds the composite id `a:b:n`.
pub fn compose_id(a: &String, b: &String, n: u64) -> (s: String)
    ensures
        s@ == id_of(a@, b@, n as nat),
{
    proof {
        reveal_strlit(":");
    }
    let mut s = a.clone();
    s.append(":");
    s.append(b.as_str());
    s.append(":");
    let digits = u64_dec(n);
    s.append(digits.as_str());
    assert(s@ =~= id_of(a@, b@, n as nat));
    s
}

/// Whether some element of the list reads as `s`.
pub open spec fn contains_text(l: Seq<String>, s: Seq<char>) -> bool {
    exists|i: int| 0 <= i < l.len() && l[i]@ == s
}

/// Linear membership test on a list of strings.
pub fn vec_contains_string(v: &Vec<String>, s: &String) -> (r: bool)
    ensures
        r == contains_text(v@, s@),
{
    let mut i: usize = 0;
    while i < v.len()
        invariant
            i <= v@.len(),
            forall|j: int| 0 <= j < i ==> v@[j]@ != s@,
        decreases v@.len() - i,
    {
        if v[i].eq(s) {
            assert(v@[i as int]@ == s@);
            return true;
        }
        i = i + 1;
    }
    false
}

/// Copies a list of strings.
pub fn clone_string_vec(v: &Vec<String>) -> (c: Vec<String>)
    ensures
        c@ == v@,
{
    let mut c: Vec<String> = Vec::new();
    let mut i: usize = 0;
    while i < v.len()
        invariant
            i <= v@.len(),
            c@ =~= v@.take(i as int),
        decreases v@.len() - i,
    {
        c.push(v[i].clone());
        i = i + 1;
    }
    assert(c@ =~= v@);
    c
}

/// Copies an optional string.
pub fn clone_opt_string(v: &Option<String>) -> (c: Option<String>)
    ensures
        c == *v,
{
    match v {
        Some(s) => Some(s.clone()),
        None => None,
    }
}

} // verus!
