//! Small string facts the parser's normalization rests on: which characters
//! count as white space, trimming, and comparison with fixed words.

use vstd::prelude::*;

verus! {

/// Characters with the Unicode `White_Space` property, the set that
/// `char::is_whitespace` (and so `str::trim`) recognizes.
pub open spec fn is_white_space(c: char) -> bool {
    ||| ('\u{9}' <= c && c <= '\u{d}')
    ||| c == ' '
    ||| c == '\u{85}'
    ||| c == '\u{a0}'
    ||| c == '\u{1680}'
    ||| ('\u{2000}' <= c && c <= '\u{200a}')
    ||| c == '\u{2028}'
    ||| c == '\u{2029}'
    ||| c == '\u{202f}'
    ||| c == '\u{205f}'
    ||| c == '\u{3000}'
}

/// `s` without its leading white space.
pub open spec fn trim_start(s: Seq<char>) -> Seq<char>
    decreases s.len(),
{
    if s.len() > 0 && is_white_space(s[0]) {
        trim_start(s.drop_first())
    } else {
        s
    }
}

/// `s` without its trailing white space.
pub open spec fn trim_end(s: Seq<char>) -> Seq<char>
    decreases s.len(),
{
    if s.len() > 0 && is_white_space(s.last()) {
        trim_end(s.drop_last())
    } else {
        s
    }
}

/// `s` without leading and trailing white space, as `str::trim` gives it.
pub open spec fn trim(s: Seq<char>) -> Seq<char> {
    trim_end(trim_start(s))
}

/// The family name that uap-core reports when it recognizes nothing.
pub open spec fn other_word() -> Seq<char> {
    seq!['O', 't', 'h', 'e', 'r']
}

/// The device family that uap-core gives to spiders and crawlers.
pub open spec fn spider_word() -> Seq<char> {
    seq!['S', 'p', 'i', 'd', 'e', 'r']
}

/// Whether `c` is white space in the sense of [`is_white_space`].
pub fn is_white_space_char(c: char) -> (b: bool)
    ensures
        b == is_white_space(c),
{
    ('\u{9}' <= c && c <= '\u{d}') || c == ' ' || c == '\u{85}' || c == '\u{a0}' || c
        == '\u{1680}' || ('\u{2000}' <= c && c <= '\u{200a}') || c == '\u{2028}' || c
        == '\u{2029}' || c == '\u{202f}' || c == '\u{205f}' || c == '\u{3000}'
}

/// `s` without leading and trailing white space.
pub fn trim_str(s: &str) -> (t: &str)
    ensures
        t@ == trim(s@),
{
    let n = s.unicode_len();
    let mut a: usize = 0;
    assert(s@.subrange(0, n as int) =~= s@);
    while a < n && is_white_space_char(s.get_char(a))
        invariant
            n == s@.len(),
            a <= n,
            trim_start(s@) == trim_start(s@.subrange(a as int, n as int)),
        decreases n - a,
    {
        assert(s@.subrange(a as int, n as int).drop_first() =~= s@.subrange(a + 1, n as int));
        a = a + 1;
    }
    assert(trim_start(s@) == s@.subrange(a as int, n as int));
    let mut b: usize = n;
    while b > a && is_white_space_char(s.get_char(b - 1))
        invariant
            n == s@.len(),
            a <= b <= n,
            trim_end(s@.subrange(a as int, n as int)) == trim_end(s@.subrange(a as int, b as int)),
        decreases b,
    {
        assert(s@.subrange(a as int, b as int).drop_last() =~= s@.subrange(a as int, b - 1));
        b = b - 1;
    }
    s.substring_char(a, b)
}

/// Whether `s` reads exactly "Other".
pub fn is_other(s: &str) -> (b: bool)
    ensures
        b == (s@ == other_word()),
{
    let r = s.unicode_len() == 5 && s.get_char(0) == 'O' && s.get_char(1) == 't' && s.get_char(2)
        == 'h' && s.get_char(3) == 'e' && s.get_char(4) == 'r';
    if r {
        assert(s@ =~= other_word());
    }
    r
}

/// Whether `s` reads exactly "Spider".
pub fn is_spider(s: &str) -> (b: bool)
    ensures
        b == (s@ == spider_word()),
{
    let r = s.unicode_len() == 6 && s.get_char(0) == 'S' && s.get_char(1) == 'p' && s.get_char(2)
        == 'i' && s.get_char(3) == 'd' && s.get_char(4) == 'e' && s.get_char(5) == 'r';
    if r {
        assert(s@ =~= spider_word());
    }
    r
}

/// Whether `c` is an ASCII letter or digit.
pub open spec fn is_ascii_alphanumeric(c: char) -> bool {
    ('a' <= c && c <= 'z') || ('A' <= c && c <= 'Z') || ('0' <= c && c <= '9')
}

/// `c` with an ASCII capital turned into its small letter.
pub open spec fn ascii_lower(c: char) -> char {
    if 'A' <= c && c <= 'Z' {
        ((c as u32) + 32) as char
    } else {
        c
    }
}

/// The loose form in which two names are compared: only ASCII letters and
/// digits are kept, letters in lower case ("Browser Family" and
/// "browser_family" have the same key).
pub open spec fn name_key(s: Seq<char>) -> Seq<char>
    decreases s.len(),
{
    if s.len() == 0 {
        seq![]
    } else {
        (if is_ascii_alphanumeric(s[0]) {
            seq![ascii_lower(s[0])]
        } else {
            seq![]
        }) + name_key(s.drop_first())
    }
}

} // verus!
