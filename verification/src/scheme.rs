//! The wildcard matcher that decides whether a URL falls under a scheme.
//!
//! A scheme is read from left to right, in step with the URL. Every
//! character but `*` stands for itself. A `*` swallows the URL character it
//! is held against and stays in place, until the character behind the `*`
//! equals the character behind the current one in the URL; then the scheme
//! moves on. The matcher never goes back on such a step, so it accepts fewer
//! URLs than a full glob would.

use vstd::prelude::*;

verus! {

/// The wildcard character of a scheme.
pub const WILDCARD: char = '*';

/// The character of `s` at `i`, if `s` is that long.
pub open spec fn char_at(s: Seq<char>, i: int) -> Option<char> {
    if 0 <= i < s.len() {
        Some(s[i])
    } else {
        None
    }
}

/// Whether `scheme` holds no wildcard.
pub open spec fn is_literal(scheme: Seq<char>) -> bool {
    forall|i: int| 0 <= i < scheme.len() ==> scheme[i] != WILDCARD
}

/// Whether a URL falls under a scheme.
///
/// Once the URL is used up, what is left of the scheme must be nothing, or
/// one closing wildcard.
pub open spec fn scheme_matches(url: Seq<char>, scheme: Seq<char>) -> bool
    decreases url.len(),
{
    if url.len() == 0 {
        scheme.len() == 0 || (scheme.len() == 1 && scheme[0] == WILDCARD)
    } else if scheme.len() == 0 {
        false
    } else if scheme[0] == WILDCARD {
        if char_at(scheme, 1) == char_at(url, 1) {
            scheme_matches(url.skip(1), scheme.skip(1))
        } else {
            scheme_matches(url.skip(1), scheme)
        }
    } else {
        scheme[0] == url[0] && scheme_matches(url.skip(1), scheme.skip(1))
    }
}

/// The characters of `s`, in order.
pub fn chars_of(s: &str) -> (v: Vec<char>)
    ensures
        v@ == s@,
{
    let mut v: Vec<char> = Vec::new();
    for c in it: s.chars()
        invariant
            it.seq() == s@,
            v@ == it.seq().take(it.index()),
    {
        v.push(c);
    }
    v
}

/// Decides whether `url` falls under `scheme`.
pub fn url_matches_scheme(url: &str, scheme: &str) -> (matched: bool)
    ensures
        matched == scheme_matches(url@, scheme@),
{
    let u = chars_of(url);
    let p = chars_of(scheme);
    let mut i: usize = 0;
    let mut k: usize = 0;
    assert(u@.skip(0) =~= url@ && p@.skip(0) =~= scheme@);
    while i < u.len()
        invariant
            i <= u.len(),
            k <= p.len(),
            scheme_matches(url@, scheme@) == scheme_matches(u@.skip(i as int), p@.skip(k as int)),
        decreases u.len() - i,
    {
        let ghost rest_u = u@.skip(i as int);
        let ghost rest_p = p@.skip(k as int);
        assert(rest_u.skip(1) == u@.skip(i + 1));
        assert(rest_p.len() > 0 ==> rest_p.skip(1) == p@.skip(k + 1));
        if k >= p.len() {
            return false;
        }
        if p[k] == WILDCARD {
            let same_next = if k + 1 < p.len() {
                i + 1 < u.len() && p[k + 1] == u[i + 1]
            } else {
                i + 1 >= u.len()
            };
            assert(same_next == (char_at(rest_p, 1) == char_at(rest_u, 1)));
            if same_next {
                k = k + 1;
            }
        } else if p[k] == u[i] {
            k = k + 1;
        } else {
            return false;
        }
        i = i + 1;
    }
    assert(u@.skip(i as int).len() == 0);
    k == p.len() || (k + 1 == p.len() && p[k] == WILDCARD)
}

/// A scheme without a wildcard accepts itself and nothing else.
pub proof fn lemma_literal_scheme(url: Seq<char>, scheme: Seq<char>)
    requires
        is_literal(scheme),
    ensures
        scheme_matches(url, scheme) <==> url == scheme,
    decreases url.len(),
{
    if url.len() == 0 {
        assert(scheme_matches(url, scheme) ==> scheme.len() == 0);
        assert(scheme.len() == 0 ==> url =~= scheme);
    } else if scheme.len() == 0 {
    } else {
        let url_rest = url.skip(1);
        let scheme_rest = scheme.skip(1);
        assert(is_literal(scheme_rest)) by {
            assert forall|i: int| 0 <= i < scheme_rest.len() implies scheme_rest[i]
                != WILDCARD by {
                assert(scheme_rest[i] == scheme[i + 1]);
            }
        }
        lemma_literal_scheme(url_rest, scheme_rest);
        if url[0] == scheme[0] && url_rest == scheme_rest {
            assert(url =~= seq![url[0]] + url_rest);
            assert(scheme =~= seq![scheme[0]] + scheme_rest);
        }
    }
}

/// The empty scheme accepts the empty URL and nothing else.
pub proof fn lemma_empty_scheme(url: Seq<char>)
    ensures
        scheme_matches(url, Seq::<char>::empty()) <==> url.len() == 0,
{
}

/// A lone wildcard accepts every URL.
pub proof fn lemma_lone_wildcard(url: Seq<char>)
    ensures
        scheme_matches(url, seq![WILDCARD]),
    decreases url.len(),
{
    let scheme = seq![WILDCARD];
    if url.len() > 0 {
        if char_at(scheme, 1) == char_at(url, 1) {
            assert(url.skip(1).len() == 0);
            assert(scheme.skip(1).len() == 0);
            assert(scheme_matches(url.skip(1), scheme.skip(1)));
        } else {
            lemma_lone_wildcard(url.skip(1));
        }
    }
}

/// A literal text followed by a closing wildcard accepts every URL that
/// starts with that text, whatever follows it.
pub proof fn lemma_closing_wildcard(prefix: Seq<char>, rest: Seq<char>)
    requires
        is_literal(prefix),
    ensures
        scheme_matches(prefix + rest, prefix.push(WILDCARD)),
    decreases prefix.len(),
{
    let url = prefix + rest;
    let scheme = prefix.push(WILDCARD);
    if prefix.len() == 0 {
        assert(url =~= rest);
        assert(scheme =~= seq![WILDCARD]);
        lemma_lone_wildcard(rest);
    } else {
        let shorter = prefix.skip(1);
        assert(is_literal(shorter)) by {
            assert forall|i: int| 0 <= i < shorter.len() implies shorter[i] != WILDCARD by {
                assert(shorter[i] == prefix[i + 1]);
            }
        }
        lemma_closing_wildcard(shorter, rest);
        assert(url.skip(1) =~= shorter + rest);
        assert(scheme.skip(1) =~= shorter.push(WILDCARD));
        assert(scheme[0] == prefix[0]);
        assert(url[0] == prefix[0]);
    }
}

} // verus!
