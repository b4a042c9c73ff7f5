//! File name stems: an episode title with every character removed that is
//! not an ASCII letter, an ASCII digit or a space.

use vstd::prelude::*;

verus! {

/// The pattern that matches one character which may not appear in a file
/// name stem.
pub const UNSAFE_CHARS: &'static str = "[^a-zA-Z0-9 ]";

/// Whether `c` may appear in a file name stem: an ASCII letter, an ASCII
/// digit or a space.
pub open spec fn is_safe_char(c: char) -> bool {
    ('a' <= c && c <= 'z') || ('A' <= c && c <= 'Z') || ('0' <= c && c <= '9') || c == ' '
}

/// Whether every character of `s` may appear in a file name stem.
pub open spec fn is_safe_name(s: Seq<char>) -> bool {
    forall|i: int| 0 <= i < s.len() ==> is_safe_char(#[trigger] s[i])
}

/// `s` without the characters that may not appear in a file name stem; the
/// characters that stay keep their order.
pub open spec fn sanitized(s: Seq<char>) -> Seq<char> {
    s.filter(|c: char| is_safe_char(c))
}

/// `Regex::new` on `pattern`, then `Regex::replace_all` on `haystack` with
/// `replacement`; `None` where the pattern does not compile. The contract
/// speaks of one pattern only, the negated class of `UNSAFE_CHARS`, with an
/// empty replacement: each match is then exactly one character outside the
/// class, every such character is matched, and replacing the matches by
/// nothing leaves the other characters in their order.
#[verifier::external_body]
fn replace_all(pattern: &str, haystack: &str, replacement: &str) -> (r: Option<String>)
    ensures
        pattern@ == UNSAFE_CHARS@ && replacement@.len() == 0 ==> r is Some && r->0@ == sanitized(
            haystack@,
        ),
{
    match regex::Regex::new(pattern) {
        Ok(re) => Some(re.replace_all(haystack, replacement).into_owned()),
        Err(_) => None,
    }
}

/// Removes from `name` every character that is not an ASCII letter, an
/// ASCII digit or a space. Nothing is put in place of a removed character.
pub fn sanitize(name: &str) -> (r: String)
    ensures
        r@ == sanitized(name@),
        is_safe_name(r@),
        r@.len() <= name@.len(),
{
    proof {
        reveal_strlit("");
        lemma_sanitized_is_safe(name@);
        name@.lemma_filter_len(|c: char| is_safe_char(c));
    }
    match replace_all(UNSAFE_CHARS, name, "") {
        Some(stem) => stem,
        None => vstd::pervasive::unreached(),
    }
}

/// A sanitized text holds only characters that may appear in a file name
/// stem, whatever the text was.
pub proof fn lemma_sanitized_is_safe(s: Seq<char>)
    ensures
        is_safe_name(sanitized(s)),
{
    let keep = |c: char| is_safe_char(c);
    assert forall|i: int| 0 <= i < sanitized(s).len() implies is_safe_char(
        #[trigger] sanitized(s)[i],
    ) by {
        s.lemma_filter_pred(keep, i);
    }
}

/// Sanitizing leaves a text unchanged exactly when every character of it
/// may appear in a file name stem.
pub proof fn lemma_sanitized_fixed_point(s: Seq<char>)
    ensures
        is_safe_name(s) <==> sanitized(s) == s,
    decreases s.len(),
{
    let keep = |c: char| is_safe_char(c);
    reveal(Seq::filter);
    if s.len() == 0 {
        assert(sanitized(s) =~= s);
    } else {
        let front = s.drop_last();
        lemma_sanitized_fixed_point(front);
        front.lemma_filter_len(keep);
        if is_safe_name(s) {
            assert(is_safe_char(s[s.len() - 1]));
            assert forall|i: int| 0 <= i < front.len() implies is_safe_char(
                #[trigger] front[i],
            ) by {
                assert(front[i] == s[i]);
            }
            assert(sanitized(s) =~= s);
        }
        if sanitized(s) == s {
            lemma_sanitized_is_safe(s);
        }
    }
}

/// Sanitizing is idempotent: a sanitized text is sanitized to itself.
pub proof fn lemma_sanitize_idempotent(s: Seq<char>)
    ensures
        sanitized(sanitized(s)) == sanitized(s),
{
    lemma_sanitized_is_safe(s);
    lemma_sanitized_fixed_point(sanitized(s));
}

} // verus!
