use vstd::prelude::*;

use crate::errors::AppError;
use crate::json::{as_items, as_text, at_index, at_key, get, index, items, member, opt, text, Json};
use crate::models::RedditPost;
use crate::text::{chars_of, decimal, decimal_string, same_text, views};

verus! {

/// The client identification sent with every Reddit request.
pub const USER_AGENT: &'static str = "Mozilla/5.0 (Windows NT 10.0; Win64; x64) RedditResearchCLI/1.0";

/// What came back from one GET to Reddit.
pub enum FetchOutcome {
    /// The request could not be sent or got no response.
    SendFailed,
    /// A response came but its body could not be read.
    ReadFailed,
    /// The body was read; `None` when it was not JSON (an HTML page, say).
    Received(Option<Json>),
}

/// The JSON endpoint of a post page.
pub open spec fn post_json_url_of(url: Seq<char>) -> Seq<char> {
    url + ".json"@
}

/// The JSON endpoint of a post page: its URL with `.json` appended.
pub fn post_json_url(url: &str) -> (r: String)
    ensures
        r@ == post_json_url_of(url@),
{
    let mut r = String::from_str(url);
    r.append(".json");
    r
}

/// The JSON endpoint of a subreddit's hot listing.
pub open spec fn hot_listing_url_of(subreddit: Seq<char>, limit: nat) -> Seq<char> {
    "https://www.reddit.com/r/"@ + subreddit + "/hot.json?limit="@ + decimal(limit)
}

/// The JSON endpoint of a subreddit's hot listing, asking for `limit` posts.
pub fn hot_listing_url(subreddit: &str, limit: usize) -> (r: String)
    ensures
        r@ == hot_listing_url_of(subreddit@, limit as nat),
{
    let mut r = String::from_str("https://www.reddit.com/r/");
    r.append(subreddit);
    r.append("/hot.json?limit=");
    let n = decimal_string(limit);
    r.append(n.as_str());
    r
}

/// The body of a listing entry that is a kept top-level comment: of kind
/// `t1`, with a body, and neither its author nor its body marks it deleted or
/// removed.
pub open spec fn kept_comment(c: Json) -> Option<Seq<char>> {
    let data = member(c, "data"@);
    let author = match text(at_key(data, "author"@)) {
        Some(a) => a,
        None => Seq::empty(),
    };
    match text(at_key(data, "body"@)) {
        Some(b) => if text(member(c, "kind"@)) == Some("t1"@) && author != "[deleted]"@ && b
            != "[deleted]"@ && b != "[removed]"@ {
            Some(b)
        } else {
            None
        },
        None => None,
    }
}

/// The bodies of the kept comments among `children`, in order.
pub open spec fn kept_bodies(children: Seq<Json>) -> Seq<Seq<char>>
    decreases children.len(),
{
    if children.len() == 0 {
        Seq::empty()
    } else {
        let prev = kept_bodies(children.drop_last());
        match kept_comment(children.last()) {
            Some(b) => prev.push(b),
            None => prev,
        }
    }
}

/// The entries of a listing.
pub open spec fn listing_children(listing: Option<Json>) -> Option<Seq<Json>> {
    items(at_key(at_key(listing, "data"@), "children"@))
}

/// The first `max` kept comments of a comment listing; none when the listing
/// has no entries.
pub open spec fn comments_of(listing: Option<Json>, max: nat) -> Seq<Seq<char>> {
    match listing_children(listing) {
        Some(children) => {
            let kept = kept_bodies(children);
            if kept.len() <= max {
                kept
            } else {
                kept.take(max as int)
            }
        },
        None => Seq::empty(),
    }
}

/// Extracted comments never exceed the requested number, and none of them is
/// a deleted or removed one.
pub proof fn lemma_comments_bounded(listing: Option<Json>, max: nat)
    ensures
        comments_of(listing, max).len() <= max,
        forall|i: int|
            0 <= i < comments_of(listing, max).len() ==> {
                let c = #[trigger] comments_of(listing, max)[i];
                c != "[deleted]"@ && c != "[removed]"@
            },
{
    if let Some(children) = listing_children(listing) {
        lemma_kept_clean(children);
    }
}

proof fn lemma_kept_clean(children: Seq<Json>)
    ensures
        forall|i: int|
            0 <= i < kept_bodies(children).len() ==> {
                let c = #[trigger] kept_bodies(children)[i];
                c != "[deleted]"@ && c != "[removed]"@
            },
    decreases children.len(),
{
    if children.len() > 0 {
        lemma_kept_clean(children.drop_last());
        let prev = kept_bodies(children.drop_last());
        if let Some(b) = kept_comment(children.last()) {
            assert forall|i: int| 0 <= i < prev.push(b).len() implies {
                let c = #[trigger] prev.push(b)[i];
                c != "[deleted]"@ && c != "[removed]"@
            } by {
                if i < prev.len() {
                    assert(prev.push(b)[i] == prev[i]);
                }
            }
        }
    }
}

/// The kept comments of a prefix are a prefix of the kept comments.
proof fn lemma_kept_prefix(s: Seq<Json>, i: int, j: int)
    requires
        0 <= i <= j <= s.len(),
    ensures
        kept_bodies(s.take(i)).len() <= kept_bodies(s.take(j)).len(),
        kept_bodies(s.take(j)).take(kept_bodies(s.take(i)).len() as int) == kept_bodies(
            s.take(i),
        ),
    decreases j - i,
{
    if i < j {
        lemma_kept_prefix(s, i, j - 1);
        assert(s.take(j).drop_last() =~= s.take(j - 1));
        let a = kept_bodies(s.take(i));
        let b = kept_bodies(s.take(j - 1));
        assert(kept_bodies(s.take(j)).take(a.len() as int) =~= b.take(a.len() as int));
    } else {
        assert(kept_bodies(s.take(j)).take(kept_bodies(s.take(i)).len() as int)
            =~= kept_bodies(s.take(i)));
    }
}

fn kept_comment_exec(c: &Json) -> (r: Option<&String>)
    ensures
        match r {
            Some(b) => kept_comment(*c) == Some(b@),
            None => kept_comment(*c) is None,
        },
{
    let data = get(Some(c), "data");
    let body = as_text(get(data, "body"));
    match body {
        Some(b) => {
            let kind = as_text(get(Some(c), "kind"));
            let is_comment = match kind {
                Some(k) => same_text(k.as_str(), "t1"),
                None => false,
            };
            let author = as_text(get(data, "author"));
            let author_deleted = match author {
                Some(a) => same_text(a.as_str(), "[deleted]"),
                None => false,
            };
            proof {
                reveal_strlit("[deleted]");
                assert("[deleted]"@.len() == 9);
            }
            if is_comment && !author_deleted && !same_text(b.as_str(), "[deleted]") && !same_text(
                b.as_str(),
                "[removed]",
            ) {
                Some(b)
            } else {
                None
            }
        },
        None => None,
    }
}

/// The bodies of the first `max` top-level comments of a comment listing,
/// in listing order, leaving out deleted and removed ones.
pub fn extract_comments(listing: Option<&Json>, max: usize) -> (r: Vec<String>)
    ensures
        views(r@) == comments_of(opt(listing), max as nat),
{
    let children = match as_items(get(get(listing, "data"), "children")) {
        Some(c) => c,
        None => {
            let r: Vec<String> = Vec::new();
            assert(views(r@) =~= Seq::<Seq<char>>::empty());
            return r;
        },
    };
    let mut r: Vec<String> = Vec::new();
    let mut i: usize = 0;
    assert(children@.take(0) =~= Seq::<Json>::empty());
    assert(views(r@) =~= kept_bodies(children@.take(0)));
    while i < children.len() && r.len() < max
        invariant
            i <= children@.len(),
            r@.len() <= max,
            views(r@) == kept_bodies(children@.take(i as int)),
        decreases children.len() - i,
    {
        assert(children@.take(i + 1).drop_last() =~= children@.take(i as int));
        match kept_comment_exec(&children[i]) {
            Some(b) => {
                r.push(b.clone());
                assert(views(r@) =~= kept_bodies(children@.take(i + 1)));
            },
            None => {},
        }
        i = i + 1;
    }
    proof {
        lemma_kept_prefix(children@, i as int, children@.len() as int);
        assert(children@.take(children@.len() as int) =~= children@);
    }
    r
}


/// A value that may be missing, or a default.
pub open spec fn text_or(o: Option<Seq<char>>, default: Seq<char>) -> Seq<char> {
    match o {
        Some(t) => t,
        None => default,
    }
}

/// The post's own data in a post page's two-element listing.
pub open spec fn post_data(d: Json) -> Option<Json> {
    at_key(at_index(at_key(at_key(at_index(Some(d), 0), "data"@), "children"@), 0), "data"@)
}

/// The message of the error that reading a post page ends in, if it does.
pub open spec fn post_failure(o: FetchOutcome) -> Option<Seq<char>> {
    match o {
        FetchOutcome::SendFailed => Some("Failed to contact Reddit. Check the URL."@),
        FetchOutcome::ReadFailed => Some("Could not read Reddit response."@),
        FetchOutcome::Received(None) => Some(
            "Reddit did not return valid JSON. The post may be private, removed, or NSFW."@,
        ),
        FetchOutcome::Received(Some(_)) => None,
    }
}

/// The post that a decoded page describes: title and body with their defaults,
/// and the kept comments of the second listing.
pub open spec fn is_post_of(p: RedditPost, url: Seq<char>, d: Json, max: nat) -> bool {
    &&& p.url@ == url
    &&& p.title@ == text_or(text(at_key(post_data(d), "title"@)), "No title"@)
    &&& p.body@ == text_or(text(at_key(post_data(d), "selftext"@)), "No text"@)
    &&& views(p.comments@) == comments_of(at_index(Some(d), 1), max)
}

fn text_or_exec(o: Option<&String>, default: &str) -> (r: String)
    ensures
        r@ == match o {
            Some(t) => t@,
            None => default@,
        },
{
    match o {
        Some(t) => t.clone(),
        None => String::from_str(default),
    }
}

/// Reads a post page fetched from `url`'s JSON endpoint: the post's title and
/// body, and up to `max_comments` top-level comments.
pub fn read_reddit_post(url: &str, outcome: FetchOutcome, max_comments: usize) -> (r: Result<
    RedditPost,
    AppError,
>)
    ensures
        r is Err <==> post_failure(outcome) is Some,
        r is Err ==> r->Err_0 is ExternalService && r->Err_0.message_spec() == post_failure(
            outcome,
        )->0,
        match outcome {
            FetchOutcome::Received(Some(d)) => r is Ok && is_post_of(
                r->Ok_0,
                url@,
                d,
                max_comments as nat,
            ),
            _ => true,
        },
{
    match outcome {
        FetchOutcome::SendFailed => Err(
            AppError::ExternalService(String::from_str("Failed to contact Reddit. Check the URL.")),
        ),
        FetchOutcome::ReadFailed => Err(
            AppError::ExternalService(String::from_str("Could not read Reddit response.")),
        ),
        FetchOutcome::Received(None) => Err(
            AppError::ExternalService(
                String::from_str(
                    "Reddit did not return valid JSON. The post may be private, removed, or NSFW.",
                ),
            ),
        ),
        FetchOutcome::Received(Some(d)) => {
            let data = get(index(get(get(index(Some(&d), 0), "data"), "children"), 0), "data");
            let title = text_or_exec(as_text(get(data, "title")), "No title");
            let body = text_or_exec(as_text(get(data, "selftext")), "No text");
            let comments = extract_comments(index(Some(&d), 1), max_comments);
            Ok(RedditPost { url: String::from_str(url), title, body, comments })
        },
    }
}

/// `p` without its trailing slashes.
pub open spec fn strip_slashes(p: Seq<char>) -> Seq<char>
    decreases p.len(),
{
    if p.len() > 0 && p.last() == '/' {
        strip_slashes(p.drop_last())
    } else {
        p
    }
}

/// The absolute URL of a listing entry's permalink, when it has one.
pub open spec fn permalink_url(c: Json) -> Option<Seq<char>> {
    match text(at_key(member(c, "data"@), "permalink"@)) {
        Some(p) => Some("https://www.reddit.com"@ + strip_slashes(p)),
        None => None,
    }
}

/// The absolute URLs of the entries that have a permalink, in order.
pub open spec fn post_urls(children: Seq<Json>) -> Seq<Seq<char>>
    decreases children.len(),
{
    if children.len() == 0 {
        Seq::empty()
    } else {
        let prev = post_urls(children.drop_last());
        match permalink_url(children.last()) {
            Some(u) => prev.push(u),
            None => prev,
        }
    }
}

/// The message of the error that reading a subreddit listing ends in, if it does.
pub open spec fn listing_failure(subreddit: Seq<char>, o: FetchOutcome) -> Option<Seq<char>> {
    match o {
        FetchOutcome::SendFailed => Some("Failed to fetch r/"@ + subreddit),
        FetchOutcome::ReadFailed => Some("Could not read the response of r/"@ + subreddit),
        FetchOutcome::Received(None) => Some("r/"@ + subreddit + " did not return valid JSON."@),
        FetchOutcome::Received(Some(d)) => if listing_children(Some(d)) is None {
            Some("Unexpected subreddit JSON structure."@)
        } else {
            None
        },
    }
}

fn absolute_url(permalink: &str) -> (r: String)
    ensures
        r@ == "https://www.reddit.com"@ + strip_slashes(permalink@),
{
    let v = chars_of(permalink);
    let mut j: usize = v.len();
    assert(v@.subrange(0, v@.len() as int) =~= v@);
    while j > 0 && v[j - 1] == '/'
        invariant
            j <= v@.len(),
            strip_slashes(v@) == strip_slashes(v@.subrange(0, j as int)),
        decreases j,
    {
        assert(v@.subrange(0, j as int).drop_last() =~= v@.subrange(0, j - 1));
        j = j - 1;
    }
    let mut r = String::from_str("https://www.reddit.com");
    r.append(permalink.substring_char(0, j));
    r
}

/// Reads a subreddit's hot listing into the absolute URLs of its posts, in
/// listing order; entries without a permalink are left out.
pub fn read_subreddit_posts(subreddit: &str, outcome: FetchOutcome) -> (r: Result<
    Vec<String>,
    AppError,
>)
    ensures
        r is Err <==> listing_failure(subreddit@, outcome) is Some,
        r is Err ==> r->Err_0 is ExternalService && r->Err_0.message_spec() == listing_failure(
            subreddit@,
            outcome,
        )->0,
        match outcome {
            FetchOutcome::Received(Some(d)) => match listing_children(Some(d)) {
                Some(children) => r is Ok && views(r->Ok_0@) == post_urls(children),
                None => true,
            },
            _ => true,
        },
{
    match outcome {
        FetchOutcome::SendFailed => {
            let mut m = String::from_str("Failed to fetch r/");
            m.append(subreddit);
            Err(AppError::ExternalService(m))
        },
        FetchOutcome::ReadFailed => {
            let mut m = String::from_str("Could not read the response of r/");
            m.append(subreddit);
            Err(AppError::ExternalService(m))
        },
        FetchOutcome::Received(None) => {
            let mut m = String::from_str("r/");
            m.append(subreddit);
            m.append(" did not return valid JSON.");
            Err(AppError::ExternalService(m))
        },
        FetchOutcome::Received(Some(d)) => {
            let children = match as_items(get(get(Some(&d), "data"), "children")) {
                Some(c) => c,
                None => {
                    return Err(
                        AppError::ExternalService(
                            String::from_str("Unexpected subreddit JSON structure."),
                        ),
                    );
                },
            };
            let mut urls: Vec<String> = Vec::new();
            let mut i: usize = 0;
            assert(children@.take(0) =~= Seq::<Json>::empty());
            assert(views(urls@) =~= post_urls(children@.take(0)));
            while i < children.len()
                invariant
                    i <= children@.len(),
                    views(urls@) == post_urls(children@.take(i as int)),
                decreases children.len() - i,
            {
                assert(children@.take(i + 1).drop_last() =~= children@.take(i as int));
                let link = as_text(get(get(Some(&children[i]), "data"), "permalink"));
                match link {
                    Some(p) => {
                        urls.push(absolute_url(p.as_str()));
                        assert(views(urls@) =~= post_urls(children@.take(i + 1)));
                    },
                    None => {},
                }
                i = i + 1;
            }
            assert(children@.take(children@.len() as int) =~= children@);
            Ok(urls)
        },
    }
}

} // verus!
