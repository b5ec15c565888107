//! Verified text utilities: ASCII case folding, substring search, removal of
//! every occurrence of a pattern, and decimal formatting. Each executable
//! function is proved against a direct mathematical statement over character
//! sequences.

use vstd::prelude::*;
use vstd::string::*;

verus! {

/// ASCII case folding of one character: the twenty-six upper-case letters map
/// to their lower-case forms, everything else is unchanged.
pub open spec fn lower_char(c: char) -> char {
    match c {
        'A' => 'a',
        'B' => 'b',
        'C' => 'c',
        'D' => 'd',
        'E' => 'e',
        'F' => 'f',
        'G' => 'g',
        'H' => 'h',
        'I' => 'i',
        'J' => 'j',
        'K' => 'k',
        'L' => 'l',
        'M' => 'm',
        'N' => 'n',
        'O' => 'o',
        'P' => 'p',
        'Q' => 'q',
        'R' => 'r',
        'S' => 's',
        'T' => 't',
        'U' => 'u',
        'V' => 'v',
        'W' => 'w',
        'X' => 'x',
        'Y' => 'y',
        'Z' => 'z',
        _ => c,
    }
}

/// ASCII case folding of a whole sequence.
pub open spec fn lower_seq(s: Seq<char>) -> Seq<char> {
    s.map_values(|c: char| lower_char(c))
}

/// `needle` occurs in `hay` starting at position `i`.
pub open spec fn occurs_at(hay: Seq<char>, needle: Seq<char>, i: int) -> bool {
    &&& 0 <= i
    &&& i + needle.len() <= hay.len()
    &&& hay.subrange(i, i + needle.len()) == needle
}

/// `needle` occurs somewhere in `hay`.
pub open spec fn seq_contains(hay: Seq<char>, needle: Seq<char>) -> bool {
    exists|i: int| occurs_at(hay, needle, i)
}

/// The case-insensitive containment test the extraction scan uses: the
/// case-folded text contains the (already lower-case) phrase.
pub open spec fn contains_phrase_ci(text: Seq<char>, phrase: Seq<char>) -> bool {
    seq_contains(lower_seq(text), phrase)
}

/// Removal of every occurrence of a non-empty pattern, scanning left to
/// right and never rescanning replaced ground, exactly as replacing each
/// occurrence by the empty string does.
pub open spec fn remove_all(s: Seq<char>, p: Seq<char>) -> Seq<char>
    decreases s.len(),
{
    if p.len() == 0 || s.len() < p.len() {
        s
    } else if s.subrange(0, p.len() as int) == p {
        remove_all(s.skip(p.len() as int), p)
    } else {
        seq![s[0]] + remove_all(s.skip(1), p)
    }
}

/// The decimal digit character for one digit value.
pub open spec fn digit_char(d: nat) -> char {
    if d == 0 {
        '0'
    } else if d == 1 {
        '1'
    } else if d == 2 {
        '2'
    } else if d == 3 {
        '3'
    } else if d == 4 {
        '4'
    } else if d == 5 {
        '5'
    } else if d == 6 {
        '6'
    } else if d == 7 {
        '7'
    } else if d == 8 {
        '8'
    } else {
        '9'
    }
}

/// The decimal digit string of a natural number, most significant first,
/// with no leading zeros (a single `'0'` for zero).
pub open spec fn dec_nat(n: nat) -> Seq<char>
    decreases n,
{
    if n < 10 {
        seq![digit_char(n)]
    } else {
        dec_nat(n / 10) + seq![digit_char(n % 10)]
    }
}

/// The decimal string of an integer: a minus sign before the digits of the
/// magnitude for negative values.
pub open spec fn dec_int(n: int) -> Seq<char> {
    if n < 0 {
        seq!['-'] + dec_nat((-n) as nat)
    } else {
        dec_nat(n as nat)
    }
}

/// ASCII case folding of one character, executable form.
pub fn lower_char_exec(c: char) -> (r: char)
    ensures
        r == lower_char(c),
{
    match c {
        'A' => 'a',
        'B' => 'b',
        'C' => 'c',
        'D' => 'd',
        'E' => 'e',
        'F' => 'f',
        'G' => 'g',
        'H' => 'h',
        'I' => 'i',
        'J' => 'j',
        'K' => 'k',
        'L' => 'l',
        'M' => 'm',
        'N' => 'n',
        'O' => 'o',
        'P' => 'p',
        'Q' => 'q',
        'R' => 'r',
        'S' => 's',
        'T' => 't',
        'U' => 'u',
        'V' => 'v',
        'W' => 'w',
        'X' => 'x',
        'Y' => 'y',
        'Z' => 'z',
        _ => c,
    }
}

/// Whether the case-folded text matches the phrase at position `i`.
fn phrase_matches_at(text: &str, phrase: &str, i: usize) -> (r: bool)
    requires
        i + phrase@.len() <= text@.len(),
        text@.len() <= usize::MAX as nat,
    ensures
        r == occurs_at(lower_seq(text@), phrase@, i as int),
{
    let m = phrase.unicode_len();
    let mut j: usize = 0;
    while j < m
        invariant
            m == phrase@.len(),
            i + m <= text@.len(),
            text@.len() <= usize::MAX as nat,
            0 <= j <= m,
            forall|k: int| 0 <= k < j ==> lower_seq(text@)[i + k] == phrase@[k],
        decreases m - j,
    {
        let c = lower_char_exec(text.get_char(i + j));
        if c != phrase.get_char(j) {
            assert(lower_seq(text@)[i + j] != phrase@[j as int]);
            assert(!occurs_at(lower_seq(text@), phrase@, i as int)) by {
                if lower_seq(text@).subrange(i as int, i + phrase@.len()) == phrase@ {
                    assert(lower_seq(text@).subrange(i as int, i + phrase@.len())[j as int]
                        == lower_seq(text@)[i + j]);
                }
            }
            return false;
        }
        j += 1;
    }
    assert(lower_seq(text@).subrange(i as int, i + phrase@.len()) =~= phrase@);
    true
}

/// Case-insensitive containment: whether the case-folded text contains the
/// (already lower-case) phrase.
pub fn contains_phrase(text: &str, phrase: &str) -> (r: bool)
    ensures
        r == contains_phrase_ci(text@, phrase@),
{
    let n = text.unicode_len();
    let m = phrase.unicode_len();
    if m > n {
        assert(forall|i: int| !occurs_at(lower_seq(text@), phrase@, i));
        return false;
    }
    if m == 0 {
        assert(lower_seq(text@).subrange(0, 0) =~= phrase@);
        assert(occurs_at(lower_seq(text@), phrase@, 0));
        return true;
    }
    let mut i: usize = 0;
    while i <= n - m
        invariant
            n == text@.len(),
            m == phrase@.len(),
            0 < m <= n,
            0 <= i <= n - m + 1,
            forall|k: int| 0 <= k < i ==> !occurs_at(lower_seq(text@), phrase@, k),
        decreases n - m + 1 - i,
    {
        if phrase_matches_at(text, phrase, i) {
            assert(occurs_at(lower_seq(text@), phrase@, i as int));
            return true;
        }
        i += 1;
    }
    assert(forall|k: int| !occurs_at(lower_seq(text@), phrase@, k));
    false
}

/// Whether the text matches the pattern exactly at position `i`.
fn pattern_at(s: &str, p: &str, i: usize) -> (r: bool)
    requires
        i + p@.len() <= s@.len(),
        s@.len() <= usize::MAX as nat,
    ensures
        r == (s@.subrange(i as int, i + p@.len()) == p@),
{
    let m = p.unicode_len();
    let mut j: usize = 0;
    while j < m
        invariant
            m == p@.len(),
            i + m <= s@.len(),
            s@.len() <= usize::MAX as nat,
            0 <= j <= m,
            forall|k: int| 0 <= k < j ==> s@[i + k] == p@[k],
        decreases m - j,
    {
        if s.get_char(i + j) != p.get_char(j) {
            assert(s@.subrange(i as int, i + p@.len()) != p@) by {
                if s@.subrange(i as int, i + p@.len()) == p@ {
                    assert(s@.subrange(i as int, i + p@.len())[j as int] == s@[i + j]);
                }
            }
            return false;
        }
        j += 1;
    }
    assert(s@.subrange(i as int, i + p@.len()) =~= p@);
    true
}

/// Remove every occurrence of the non-empty pattern `p` from `s`, scanning
/// left to right.
pub fn strip_all(s: &str, p: &str) -> (r: String)
    requires
        p@.len() > 0,
    ensures
        r@ == remove_all(s@, p@),
{
    let n = s.unicode_len();
    let m = p.unicode_len();
    let mut r = String::new();
    let mut i: usize = 0;
    proof {
        assert(s@.skip(0) =~= s@);
        assert(r@ + remove_all(s@.skip(0), p@) =~= remove_all(s@, p@));
    }
    while i < n
        invariant
            n == s@.len(),
            m == p@.len(),
            m > 0,
            0 <= i <= n,
            r@ + remove_all(s@.skip(i as int), p@) == remove_all(s@, p@),
        decreases n - i,
    {
        let ghost tail = s@.skip(i as int);
        assert(tail.len() == n - i);
        if m <= n - i && pattern_at(s, p, i) {
            proof {
                assert(tail.subrange(0, p@.len() as int) =~= s@.subrange(
                    i as int,
                    i + p@.len(),
                ));
                assert(tail.skip(p@.len() as int) =~= s@.skip(i + p@.len()));
                assert(remove_all(tail, p@) == remove_all(s@.skip(i + p@.len()), p@));
            }
            i += m;
        } else {
            proof {
                if i + m <= n as int {
                    assert(tail.subrange(0, p@.len() as int) =~= s@.subrange(
                        i as int,
                        i + p@.len(),
                    ));
                    assert(tail.subrange(0, p@.len() as int) != p@);
                }
                assert(tail.skip(1) =~= s@.skip(i + 1));
                assert(tail[0] == s@[i as int]);
                assert(remove_all(tail, p@) == seq![s@[i as int]] + remove_all(
                    s@.skip(i + 1),
                    p@,
                ));
            }
            let piece = s.substring_char(i, i + 1);
            r.append(piece);
            proof {
                assert(piece@ =~= seq![s@[i as int]]);
            }
            i += 1;
        }
    }
    proof {
        assert(s@.skip(n as int) =~= Seq::<char>::empty());
        assert(remove_all(s@.skip(n as int), p@) == s@.skip(n as int));
        assert(r@ =~= r@ + s@.skip(n as int));
    }
    r
}

/// The decimal digit string slice for one digit value.
fn digit_str(d: u32) -> (r: &'static str)
    requires
        d < 10,
    ensures
        r@ == seq![digit_char(d as nat)],
{
    proof {
        reveal_strlit("0");
        reveal_strlit("1");
        reveal_strlit("2");
        reveal_strlit("3");
        reveal_strlit("4");
        reveal_strlit("5");
        reveal_strlit("6");
        reveal_strlit("7");
        reveal_strlit("8");
        reveal_strlit("9");
    }
    let r = match d {
        0u32 => "0",
        1u32 => "1",
        2u32 => "2",
        3u32 => "3",
        4u32 => "4",
        5u32 => "5",
        6u32 => "6",
        7u32 => "7",
        8u32 => "8",
        _ => "9",
    };
    assert(r@ =~= seq![digit_char(d as nat)]);
    r
}

/// The decimal digit string of a natural number.
pub fn fmt_u32(n: u32) -> (r: String)
    ensures
        r@ == dec_nat(n as nat),
    decreases n,
{
    if n < 10 {
        let mut r = String::new();
        r.append(digit_str(n));
        assert(r@ =~= seq![digit_char(n as nat)]);
        r
    } else {
        let mut r = fmt_u32(n / 10);
        r.append(digit_str(n % 10));
        assert((n / 10) as nat == n as nat / 10);
        assert((n % 10) as nat == n as nat % 10);
        r
    }
}

/// The decimal string of a signed integer, as decimal formatting prints it.
pub fn fmt_i32(n: i32) -> (r: String)
    ensures
        r@ == dec_int(n as int),
{
    if n < 0 {
        let magnitude: u32 = if n == i32::MIN {
            2147483648u32
        } else {
            (-n) as u32
        };
        assert(magnitude as nat == (-(n as int)) as nat);
        let mut r = String::new();
        proof {
            reveal_strlit("-");
        }
        r.append("-");
        r.append(fmt_u32(magnitude).as_str());
        assert(r@ =~= seq!['-'] + dec_nat((-(n as int)) as nat));
        r
    } else {
        fmt_u32(n as u32)
    }
}

} // verus!
