use vstd::prelude::*;

verus! {

pub open spec fn is_ascii_alpha(c: char) -> bool {
    ('a' <= c && c <= 'z') || ('A' <= c && c <= 'Z')
}

pub open spec fn is_ascii_alnum(c: char) -> bool {
    is_ascii_alpha(c) || ('0' <= c && c <= '9')
}

/// A character allowed after the first one of a scheme.
pub open spec fn is_scheme_char(c: char) -> bool {
    is_ascii_alnum(c) || c == '+' || c == '-' || c == '.'
}

/// A scheme: an ASCII letter, then letters, digits, `+`, `-` and `.`.
pub open spec fn is_valid_scheme(s: Seq<char>) -> bool {
    &&& s.len() > 0
    &&& is_ascii_alpha(s[0])
    &&& forall|i: int| 1 <= i < s.len() ==> is_scheme_char(#[trigger] s[i])
}

pub open spec fn ascii_lower(c: char) -> char {
    if 'A' <= c && c <= 'Z' {
        ((c as u32) + 32) as char
    } else {
        c
    }
}

/// `s` with its ASCII capitals turned into small letters.
pub open spec fn ascii_lowered(s: Seq<char>) -> Seq<char> {
    s.map_values(|c: char| ascii_lower(c))
}

/// What validating `s` as a scheme gives: the scheme in lower case, or why
/// `s` is not one.
pub open spec fn scheme_result(s: Seq<char>) -> Result<Seq<char>, SchemeError> {
    if s.len() == 0 {
        Err(SchemeError::Empty)
    } else if !is_ascii_alpha(s[0]) {
        Err(SchemeError::BadStart)
    } else if !is_valid_scheme(s) {
        Err(SchemeError::BadChar)
    } else {
        Ok(ascii_lowered(s))
    }
}

pub open spec fn is_ascii_seq(s: Seq<char>) -> bool {
    forall|i: int| 0 <= i < s.len() ==> (#[trigger] s[i] as u32) < 128
}

/// Why a string is not a scheme.
#[derive(Debug, Clone, Copy, PartialEq, Eq, Structural)]
pub enum SchemeError {
    /// The string is empty.
    Empty,
    /// The first character is not an ASCII letter.
    BadStart,
    /// A later character is not a letter, a digit, `+`, `-` or `.`.
    BadChar,
}

/// Relies on `str::to_lowercase`: on ASCII text it lowers exactly the capitals.
#[verifier::external_body]
fn to_lowercase(s: &str) -> (r: String)
    ensures
        is_ascii_seq(s@) ==> r@ == ascii_lowered(s@),
{
    s.to_lowercase()
}

fn is_alpha(c: char) -> (r: bool)
    ensures
        r == is_ascii_alpha(c),
{
    ('a' <= c && c <= 'z') || ('A' <= c && c <= 'Z')
}

fn is_body_char(c: char) -> (r: bool)
    ensures
        r == is_scheme_char(c),
{
    is_alpha(c) || ('0' <= c && c <= '9') || c == '+' || c == '-' || c == '.'
}

/// Validates a URL scheme and returns it in lower case.
pub fn parse_scheme(src: &str) -> (r: Result<String, SchemeError>)
    ensures
        r is Ok <==> is_valid_scheme(src@),
        r is Ok ==> r->Ok_0@ == ascii_lowered(src@),
        r == Err::<String, SchemeError>(SchemeError::Empty) <==> src@.len() == 0,
        r == Err::<String, SchemeError>(SchemeError::BadStart) <==> src@.len() > 0
            && !is_ascii_alpha(src@[0]),
        r == Err::<String, SchemeError>(SchemeError::BadChar) <==> src@.len() > 0
            && is_ascii_alpha(src@[0]) && !is_valid_scheme(src@),
        match r {
            Ok(v) => scheme_result(src@) == Ok::<Seq<char>, SchemeError>(v@),
            Err(e) => scheme_result(src@) == Err::<Seq<char>, SchemeError>(e),
        },
{
    let n = src.unicode_len();
    if n == 0 {
        return Err(SchemeError::Empty);
    }
    if !is_alpha(src.get_char(0)) {
        return Err(SchemeError::BadStart);
    }
    let mut i: usize = 1;
    while i < n
        invariant
            n == src@.len(),
            is_ascii_alpha(src@[0]),
            1 <= i <= n,
            forall|j: int| 1 <= j < i ==> is_scheme_char(#[trigger] src@[j]),
        decreases n - i,
    {
        if !is_body_char(src.get_char(i)) {
            assert(!is_scheme_char(src@[i as int]));
            return Err(SchemeError::BadChar);
        }
        i = i + 1;
    }
    assert(is_ascii_seq(src@));
    Ok(to_lowercase(src))
}

} // verus!
