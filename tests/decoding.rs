use reddit_research::errors::AppError;
use reddit_research::json::Json;
use reddit_research::reddit::{
    extract_comments, hot_listing_url, post_json_url, read_reddit_post, read_subreddit_posts,
    FetchOutcome,
};

fn s(t: &str) -> Json {
    Json::Str(t.to_string())
}

fn obj(members: Vec<(&str, Json)>) -> Json {
    Json::Object(members.into_iter().map(|(k, v)| (k.to_string(), v)).collect())
}

fn comment(author: &str, body: &str) -> Json {
    obj(vec![("kind", s("t1")), ("data", obj(vec![("author", s(author)), ("body", s(body))]))])
}

fn listing(children: Vec<Json>) -> Json {
    obj(vec![("kind", s("Listing")), ("data", obj(vec![("children", Json::Array(children))]))])
}

fn external_message(e: AppError) -> String {
    match e {
        AppError::ExternalService(m) => m,
        other => panic!("wrong error kind: {}", other.message()),
    }
}

#[test]
fn comments_skip_deleted_and_keep_order() {
    let l = listing(vec![
        comment("a", "first"),
        comment("[deleted]", "gone"),
        comment("b", "second"),
        comment("c", "[removed]"),
        comment("d", "third"),
        comment("e", "fourth"),
        comment("f", "fifth"),
    ]);
    let r = extract_comments(Some(&l), 3);
    assert_eq!(r, vec!["first", "second", "third"]);
}

#[test]
fn comments_skip_more_stubs_and_missing_bodies() {
    let more = obj(vec![("kind", s("more")), ("data", obj(vec![("body", s("stub"))]))]);
    let no_body = obj(vec![("kind", s("t1")), ("data", obj(vec![("author", s("x"))]))]);
    let no_author = obj(vec![("kind", s("t1")), ("data", obj(vec![("body", s("kept"))]))]);
    let l = listing(vec![more, no_body, no_author, comment("z", "[deleted]")]);
    assert_eq!(extract_comments(Some(&l), 10), vec!["kept"]);
}

#[test]
fn comments_empty_for_missing_or_malformed_listing() {
    assert!(extract_comments(None, 5).is_empty());
    assert!(extract_comments(Some(&Json::Null), 5).is_empty());
    let l = listing(vec![comment("a", "x")]);
    assert!(extract_comments(Some(&l), 0).is_empty());
}

fn post_page(title: Option<&str>, body: Option<&str>, comments: Vec<Json>) -> Json {
    let mut data = Vec::new();
    if let Some(t) = title {
        data.push(("title", s(t)));
    }
    if let Some(b) = body {
        data.push(("selftext", s(b)));
    }
    let post = obj(vec![("kind", s("t3")), ("data", obj(data))]);
    Json::Array(vec![listing(vec![post]), listing(comments)])
}

#[test]
fn post_reads_title_body_and_comments() {
    let page = post_page(Some("Hello"), Some("World"), vec![comment("a", "c1"), comment("b", "c2")]);
    let p = read_reddit_post("https://reddit.com/r/x/comments/y", FetchOutcome::Received(Some(page)), 10)
        .ok()
        .unwrap();
    assert_eq!(p.url, "https://reddit.com/r/x/comments/y");
    assert_eq!(p.title, "Hello");
    assert_eq!(p.body, "World");
    assert_eq!(p.comments, vec!["c1", "c2"]);
}

#[test]
fn post_defaults_for_missing_fields() {
    let page = post_page(None, None, vec![]);
    let p = read_reddit_post("u", FetchOutcome::Received(Some(page)), 10).ok().unwrap();
    assert_eq!(p.title, "No title");
    assert_eq!(p.body, "No text");
    assert!(p.comments.is_empty());
    let p = read_reddit_post("u", FetchOutcome::Received(Some(Json::Null)), 10).ok().unwrap();
    assert_eq!(p.title, "No title");
}

#[test]
fn post_errors_name_the_failure() {
    let e = read_reddit_post("u", FetchOutcome::SendFailed, 1).err().unwrap();
    assert_eq!(external_message(e), "Failed to contact Reddit. Check the URL.");
    let e = read_reddit_post("u", FetchOutcome::ReadFailed, 1).err().unwrap();
    assert_eq!(external_message(e), "Could not read Reddit response.");
    let e = read_reddit_post("u", FetchOutcome::Received(None), 1).err().unwrap();
    assert_eq!(
        external_message(e),
        "Reddit did not return valid JSON. The post may be private, removed, or NSFW."
    );
}

fn entry(permalink: Option<&str>) -> Json {
    match permalink {
        Some(p) => obj(vec![("kind", s("t3")), ("data", obj(vec![("permalink", s(p))]))]),
        None => obj(vec![("kind", s("t3")), ("data", obj(vec![("title", s("no link"))]))]),
    }
}

#[test]
fn subreddit_listing_gives_absolute_urls() {
    let l = listing(vec![
        entry(Some("/r/rust/comments/a1/first/")),
        entry(None),
        entry(Some("/r/rust/comments/b2/second")),
    ]);
    let urls = read_subreddit_posts("rust", FetchOutcome::Received(Some(l))).ok().unwrap();
    assert_eq!(
        urls,
        vec![
            "https://www.reddit.com/r/rust/comments/a1/first",
            "https://www.reddit.com/r/rust/comments/b2/second",
        ]
    );
}

#[test]
fn subreddit_listing_errors() {
    let e = read_subreddit_posts("rust", FetchOutcome::SendFailed).err().unwrap();
    assert_eq!(external_message(e), "Failed to fetch r/rust");
    let e = read_subreddit_posts("rust", FetchOutcome::ReadFailed).err().unwrap();
    assert_eq!(external_message(e), "Could not read the response of r/rust");
    let e = read_subreddit_posts("rust", FetchOutcome::Received(None)).err().unwrap();
    assert_eq!(external_message(e), "r/rust did not return valid JSON.");
    let bad = obj(vec![("data", obj(vec![("children", s("nope"))]))]);
    let e = read_subreddit_posts("rust", FetchOutcome::Received(Some(bad))).err().unwrap();
    assert_eq!(external_message(e), "Unexpected subreddit JSON structure.");
}

#[test]
fn endpoints_are_built_from_parts() {
    assert_eq!(post_json_url("https://reddit.com/r/a/comments/b"), "https://reddit.com/r/a/comments/b.json");
    assert_eq!(hot_listing_url("rust", 25), "https://www.reddit.com/r/rust/hot.json?limit=25");
    assert_eq!(hot_listing_url("x", 0), "https://www.reddit.com/r/x/hot.json?limit=0");
}

#[test]
fn first_member_wins_on_repeated_keys() {
    let post = obj(vec![("data", obj(vec![("title", s("first")), ("title", s("second"))]))]);
    let page = Json::Array(vec![obj(vec![("data", obj(vec![("children", Json::Array(vec![post]))]))])]);
    let p = read_reddit_post("u", FetchOutcome::Received(Some(page)), 3).ok().unwrap();
    assert_eq!(p.title, "first");
    assert!(p.comments.is_empty());
}

#[test]
fn largest_limit_is_written_in_full() {
    assert_eq!(
        hot_listing_url("x", usize::MAX),
        format!("https://www.reddit.com/r/x/hot.json?limit={}", usize::MAX)
    );
}
