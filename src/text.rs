use vstd::prelude::*;

verus! {

/// `s` with every occurrence of the placeholder `%1` replaced by `with`,
/// matches taken from left to right without overlap.
pub open spec fn substituted(s: Seq<char>, with: Seq<char>) -> Seq<char>
    decreases s.len(),
{
    if s.len() == 0 {
        Seq::empty()
    } else if s.len() >= 2 && s[0] == '%' && s[1] == '1' {
        with + substituted(s.skip(2), with)
    } else {
        seq![s[0]] + substituted(s.skip(1), with)
    }
}

/// Relies on `String::push`: appends one character.
#[verifier::external_body]
pub(crate) fn push_char(s: &mut String, c: char)
    ensures
        final(s)@ == old(s)@.push(c),
{
    s.push(c)
}

/// A new string holding `a` followed by `b`.
pub(crate) fn concat(a: &str, b: &str) -> (r: String)
    ensures
        r@ == a@ + b@,
{
    let mut r = String::from_str(a);
    r.append(b);
    r
}

/// Replaces each placeholder `%1` in `s` by `with`.
pub fn replace_placeholder(s: &str, with: &str) -> (r: String)
    ensures
        r@ == substituted(s@, with@),
{
    let n = s.unicode_len();
    let mut out = String::new();
    let mut i: usize = 0;
    assert(s@.skip(0) =~= s@);
    assert(out@ + substituted(s@.skip(0), with@) =~= substituted(s@, with@));
    while i < n
        invariant
            n == s@.len(),
            i <= n,
            out@ + substituted(s@.skip(i as int), with@) == substituted(s@, with@),
        decreases n - i,
    {
        let rest = Ghost(s@.skip(i as int));
        let c = s.get_char(i);
        if c == '%' && i + 1 < n && s.get_char(i + 1) == '1' {
            assert(rest@.skip(2) =~= s@.skip(i + 2));
            out.append(with);
            assert(out@ + substituted(s@.skip(i + 2), with@) =~= substituted(s@, with@));
            i = i + 2;
        } else {
            assert(rest@.skip(1) =~= s@.skip(i + 1));
            push_char(&mut out, c);
            assert(out@ + substituted(s@.skip(i + 1), with@) =~= substituted(s@, with@));
            i = i + 1;
        }
    }
    assert(s@.skip(n as int) =~= Seq::<char>::empty());
    assert(out@ =~= out@ + substituted(s@.skip(n as int), with@));
    out
}

} // verus!
