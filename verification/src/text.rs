//! Character-level helpers: ASCII case folding, string comparison and
//! decimal rendering of integers.  Every user-facing code ("TEX", "alc",
//! "AL") is matched case-insensitively through `fold_lower`, and every
//! number that reaches a query string or a rendered table goes through
//! `dec_digits`.

use vstd::prelude::*;

verus! {

/// True for the ASCII capital letters 'A' through 'Z'.
pub open spec fn is_ascii_upper(c: char) -> bool {
    65 <= c as int && c as int <= 90
}

/// True for the ASCII small letters 'a' through 'z'.
pub open spec fn is_ascii_lower(c: char) -> bool {
    97 <= c as int && c as int <= 122
}

/// ASCII-lowercases one character; all other characters are unchanged.
pub open spec fn fold_char(c: char) -> char {
    if is_ascii_upper(c) {
        (((c as u8) + 32) as char)
    } else {
        c
    }
}

/// ASCII-uppercases one character; all other characters are unchanged.
pub open spec fn raise_char(c: char) -> char {
    if is_ascii_lower(c) {
        (((c as u8) - 32) as char)
    } else {
        c
    }
}

/// ASCII-lowercases a sequence of characters.
pub open spec fn fold_lower(s: Seq<char>) -> Seq<char> {
    s.map_values(|c: char| fold_char(c))
}

/// ASCII-uppercases a sequence of characters.
pub open spec fn raise_upper(s: Seq<char>) -> Seq<char> {
    s.map_values(|c: char| raise_char(c))
}

/// Case folding is idempotent: folding a string twice folds it once.
pub proof fn lemma_fold_idempotent(s: Seq<char>)
    ensures
        fold_lower(fold_lower(s)) == fold_lower(s),
{
    assert forall|i: int| 0 <= i < s.len() implies fold_char(fold_char(s[i])) == fold_char(
        s[i],
    ) by {
        let c = s[i];
        if is_ascii_upper(c) {
            assert(c as u8 == c as int);
        }
    }
    assert(fold_lower(fold_lower(s)) =~= fold_lower(s));
}

/// Uppercasing never changes what a string folds down to.
pub proof fn lemma_fold_raise(s: Seq<char>)
    ensures
        fold_lower(raise_upper(s)) == fold_lower(s),
{
    assert forall|i: int| 0 <= i < s.len() implies fold_char(raise_char(s[i])) == fold_char(
        s[i],
    ) by {
        let c = s[i];
        if is_ascii_lower(c) {
            assert(c as u8 == c as int);
        } else if is_ascii_upper(c) {
            assert(c as u8 == c as int);
        }
    }
    assert(fold_lower(raise_upper(s)) =~= fold_lower(s));
}

/// ASCII-lowercases one character.
pub fn fold_char_x(c: char) -> (r: char)
    ensures
        r == fold_char(c),
{
    let u = c as u32;
    if 65 <= u && u <= 90 {
        ((c as u8) + 32) as char
    } else {
        c
    }
}

/// Compares two strings for equality after ASCII case folding.
pub fn eq_fold(s: &str, t: &str) -> (b: bool)
    ensures
        b == (fold_lower(s@) == fold_lower(t@)),
{
    let n = s.unicode_len();
    let m = t.unicode_len();
    if n != m {
        proof {
            assert(fold_lower(s@).len() != fold_lower(t@).len());
        }
        return false;
    }
    let mut i: usize = 0;
    while i < n
        invariant
            n == s@.len(),
            n == t@.len(),
            i <= n,
            forall|j: int| 0 <= j < i ==> fold_char(s@[j]) == fold_char(t@[j]),
        decreases n - i,
    {
        let cs = fold_char_x(s.get_char(i));
        let ct = fold_char_x(t.get_char(i));
        if cs != ct {
            proof {
                assert(fold_lower(s@)[i as int] != fold_lower(t@)[i as int]);
            }
            return false;
        }
        i += 1;
    }
    proof {
        assert(fold_lower(s@) =~= fold_lower(t@));
    }
    true
}

/// Compares two strings for exact equality.
pub fn eq_exact(s: &str, t: &str) -> (b: bool)
    ensures
        b == (s@ == t@),
{
    let n = s.unicode_len();
    let m = t.unicode_len();
    if n != m {
        return false;
    }
    let mut i: usize = 0;
    while i < n
        invariant
            n == s@.len(),
            n == t@.len(),
            i <= n,
            forall|j: int| 0 <= j < i ==> s@[j] == t@[j],
        decreases n - i,
    {
        let cs = s.get_char(i);
        let ct = t.get_char(i);
        if cs != ct {
            return false;
        }
        i += 1;
    }
    proof {
        assert(s@ =~= t@);
    }
    true
}

/// Relies on String::push: appends the given character to the end of the
/// string, changing nothing else.
#[verifier::external_body]
pub fn push_char(s: &mut String, c: char)
    ensures
        final(s)@ == old(s)@.push(c),
{
    s.push(c)
}

/// The character for one decimal digit.
pub open spec fn digit_char(d: int) -> char {
    if d == 0 {
        '0'
    } else if d == 1 {
        '1'
    } else if d == 2 {
        '2'
    } else if d == 3 {
        '3'
    } else if d == 4 {
        '4'
    } else if d == 5 {
        '5'
    } else if d == 6 {
        '6'
    } else if d == 7 {
        '7'
    } else if d == 8 {
        '8'
    } else {
        '9'
    }
}

/// The decimal rendering of a non-negative integer, without leading
/// zeros (except for zero itself).
pub open spec fn dec_digits(n: int) -> Seq<char>
    decreases n,
{
    if n < 10 {
        seq![digit_char(n)]
    } else {
        dec_digits(n / 10).push(digit_char(n % 10))
    }
}

/// The decimal rendering of an integer, left-padded with '0' to at
/// least two characters.
pub open spec fn dec_pad2(n: int) -> Seq<char> {
    if n < 10 {
        seq!['0'].push(digit_char(n))
    } else {
        dec_digits(n)
    }
}

fn digit_str(d: u32) -> (r: &'static str)
    requires
        d < 10,
    ensures
        r@ == seq![digit_char(d as int)],
{
    let r: &'static str = if d == 0 {
        "0"
    } else if d == 1 {
        "1"
    } else if d == 2 {
        "2"
    } else if d == 3 {
        "3"
    } else if d == 4 {
        "4"
    } else if d == 5 {
        "5"
    } else if d == 6 {
        "6"
    } else if d == 7 {
        "7"
    } else if d == 8 {
        "8"
    } else {
        "9"
    };
    proof {
        reveal_strlit("0");
        reveal_strlit("1");
        reveal_strlit("2");
        reveal_strlit("3");
        reveal_strlit("4");
        reveal_strlit("5");
        reveal_strlit("6");
        reveal_strlit("7");
        reveal_strlit("8");
        reveal_strlit("9");
        assert(r@ =~= seq![digit_char(d as int)]);
    }
    r
}

/// Renders an integer in decimal.
pub fn u32_string(n: u32) -> (s: String)
    ensures
        s@ == dec_digits(n as int),
    decreases n,
{
    if n < 10 {
        digit_str(n).to_owned()
    } else {
        let mut s = u32_string(n / 10);
        s.append(digit_str(n % 10));
        proof {
            assert(s@ =~= dec_digits(n as int));
        }
        s
    }
}

/// Renders an integer in decimal, zero-padded to at least two digits.
pub fn u32_string_pad2(n: u32) -> (s: String)
    ensures
        s@ == dec_pad2(n as int),
{
    if n < 10 {
        let mut s = String::new();
        push_char(&mut s, '0');
        s.append(digit_str(n));
        proof {
            assert(s@ =~= dec_pad2(n as int));
        }
        s
    } else {
        u32_string(n)
    }
}

} // verus!
