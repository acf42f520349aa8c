use vstd::prelude::*;

use crate::errors::AppError;
use crate::text::{
    chars_of, contains_seq, contains_str, find_first, index_of, lemma_find_first,
    lemma_find_first_absent, lemma_trimmed_shortens, lower_of, occurs_at, to_lower, trim, trimmed,
};

verus! {

/// The lower-cased `s` names Reddit's site or its short-link host.
pub open spec fn names_reddit(s: Seq<char>) -> bool {
    contains_seq(lower_of(s), "reddit.com/"@) || contains_seq(lower_of(s), "redd.it/"@)
}

/// A trimmed candidate is a Reddit post permalink.
pub open spec fn is_post_url(t: Seq<char>) -> bool {
    t.len() > 0 && names_reddit(t) && contains_seq(t, "/comments/"@)
}

/// `t` up to its first `?`, with one trailing `/` removed.
pub open spec fn cleaned(t: Seq<char>) -> Seq<char> {
    let p = t.take(find_first(t, '?'));
    if p.len() > 0 && p.last() == '/' {
        p.drop_last()
    } else {
        p
    }
}

/// The cleaned URL that validation accepts `u` as, or `None` when it rejects it.
pub open spec fn validated(u: Seq<char>) -> Option<Seq<char>> {
    if is_post_url(trimmed(u)) {
        Some(cleaned(trimmed(u)))
    } else {
        None
    }
}

/// The message with which validation rejects `u`.
pub open spec fn rejection(u: Seq<char>) -> Seq<char> {
    let t = trimmed(u);
    if t.len() == 0 {
        "URL cannot be empty"@
    } else if !names_reddit(t) {
        "Not a Reddit URL: "@ + t
    } else {
        "URL must be a Reddit post (must contain /comments/): "@ + t
    }
}

/// Drops the query (from the first `?` on) and then one trailing `/`.
pub fn strip_query(url: &str) -> (r: String)
    ensures
        r@ == cleaned(url@),
{
    let v = chars_of(url);
    let k = index_of(&v, '?');
    proof {
        lemma_find_first(v@, '?');
    }
    let end = if k > 0 && v[k - 1] == '/' {
        k - 1
    } else {
        k
    };
    assert(v@.take(k as int).len() == k);
    let c = String::from_str(url.substring_char(0, end));
    assert(c@ =~= cleaned(url@));
    c
}

/// A cleaned URL that validation gives back unchanged: nothing to trim, no
/// trailing slash, and both checks still met by what is left.
pub open spec fn is_stable(c: Seq<char>) -> bool {
    &&& trimmed(c) == c
    &&& !(c.len() > 0 && c.last() == '/')
    &&& names_reddit(c)
    &&& contains_seq(c, "/comments/"@)
}

/// Validating an accepted URL's cleaned form gives that form again exactly when
/// the form is stable; the inputs where it does not (a space or a second slash
/// before the query, a domain or `/comments/` only in the query) are the
/// others.
pub proof fn lemma_validate_idempotent(u: Seq<char>)
    requires
        validated(u) is Some,
    ensures
        validated(validated(u)->0) == validated(u) <==> is_stable(validated(u)->0),
{
    let t = trimmed(u);
    let c = cleaned(t);
    lemma_find_first(t, '?');
    let p = t.take(find_first(t, '?'));
    assert forall|j: int| 0 <= j < c.len() implies c[j] != '?' by {
        assert(c[j] == t[j]);
    }
    if is_stable(c) {
        lemma_find_first_absent(c, '?');
        assert(c.take(c.len() as int) =~= c);
        assert(c.len() > 0) by {
            reveal_strlit("/comments/");
            let i = choose|i: int| occurs_at(c, "/comments/"@, i);
            assert(occurs_at(c, "/comments/"@, i));
        }
    }
    if validated(c) == Some(c) {
        lemma_trimmed_shortens(c);
        let tc = trimmed(c);
        lemma_find_first(tc, '?');
        assert(cleaned(tc).len() <= tc.len());
        assert(tc == c);
        lemma_find_first_absent(c, '?');
        assert(c.take(c.len() as int) =~= c);
    }
}

/// Checks that `url` is a Reddit post URL and returns it cleaned: query
/// removed, one trailing slash removed.
pub fn validate_reddit_url(url: &str) -> (r: Result<String, AppError>)
    ensures
        match r {
            Ok(c) => validated(url@) == Some(c@),
            Err(e) => validated(url@) is None && e is InvalidInput && e.message_spec()
                == rejection(url@),
        },
{
    let t = trim(url);
    if t.as_str().is_empty() {
        return Err(AppError::InvalidInput(String::from_str("URL cannot be empty")));
    }
    let lower = to_lower(t.as_str());
    let is_reddit = contains_str(lower.as_str(), "reddit.com/") || contains_str(
        lower.as_str(),
        "redd.it/",
    );
    if !is_reddit {
        let mut m = String::from_str("Not a Reddit URL: ");
        m.append(t.as_str());
        return Err(AppError::InvalidInput(m));
    }
    if !contains_str(t.as_str(), "/comments/") {
        let mut m = String::from_str("URL must be a Reddit post (must contain /comments/): ");
        m.append(t.as_str());
        return Err(AppError::InvalidInput(m));
    }
    let c = strip_query(t.as_str());
    Ok(c)
}

} // verus!
