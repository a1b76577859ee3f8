//! Character-level facts about the text the transformation compares and
//! reports, and the two std string functions it relies on.
use vstd::prelude::*;

verus! {

/// The ASCII lowercase of one character: `A`..=`Z` become `a`..=`z`, every
/// other character is left as it is.
pub open spec fn ascii_lower(c: char) -> char {
    let n = c as u32;
    if 65 <= n && n <= 90 {
        (n + 32) as char
    } else {
        c
    }
}

pub open spec fn ascii_lower_seq(s: Seq<char>) -> Seq<char> {
    s.map_values(|c: char| ascii_lower(c))
}

/// Two texts are the same when ASCII letter case is ignored.
pub open spec fn same_ignoring_ascii_case(a: Seq<char>, b: Seq<char>) -> bool {
    ascii_lower_seq(a) == ascii_lower_seq(b)
}

/// The characters with the Unicode `White_Space` property.
pub open spec fn is_white_space(c: char) -> bool {
    let n = c as u32;
    ||| 9 <= n && n <= 13
    ||| n == 32
    ||| n == 0x85
    ||| n == 0xA0
    ||| n == 0x1680
    ||| 0x2000 <= n && n <= 0x200A
    ||| n == 0x2028
    ||| n == 0x2029
    ||| n == 0x202F
    ||| n == 0x205F
    ||| n == 0x3000
}

pub open spec fn trim_start(s: Seq<char>) -> Seq<char>
    decreases s.len(),
{
    if s.len() > 0 && is_white_space(s[0]) {
        trim_start(s.drop_first())
    } else {
        s
    }
}

pub open spec fn trim_end(s: Seq<char>) -> Seq<char>
    decreases s.len(),
{
    if s.len() > 0 && is_white_space(s.last()) {
        trim_end(s.drop_last())
    } else {
        s
    }
}

/// `s` without its leading and trailing white space.
pub open spec fn trimmed(s: Seq<char>) -> Seq<char> {
    trim_end(trim_start(s))
}

/// `str::eq_ignore_ascii_case` from std. Its documentation defines the result
/// as `to_ascii_lowercase(a) == to_ascii_lowercase(b)`: the texts match when
/// they are equal once `A`..=`Z` are mapped to `a`..=`z`.
#[verifier::external_body]
pub fn eq_ignore_ascii_case(a: &str, b: &str) -> (res: bool)
    ensures
        res == same_ignoring_ascii_case(a@, b@),
{
    a.eq_ignore_ascii_case(b)
}

/// `str::trim` from std. Its documentation: the text with leading and
/// trailing characters of the Unicode `White_Space` property removed.
#[verifier::external_body]
pub fn trim<'b>(s: &'b str) -> (res: &'b str)
    ensures
        res@ == trimmed(s@),
{
    s.trim()
}

} // verus!
