use reddit_research::errors::AppError;
use reddit_research::models::extract_subreddit;
use reddit_research::validation::{strip_query, validate_reddit_url};

fn invalid_message(r: Result<String, AppError>) -> String {
    match r {
        Err(AppError::InvalidInput(m)) => m,
        Err(e) => panic!("wrong error kind: {}", e.message()),
        Ok(c) => panic!("accepted: {}", c),
    }
}

#[test]
fn validate_strips_query_and_trailing_slash() {
    let c = validate_reddit_url("https://reddit.com/r/test/comments/abc123/title/?utm=1").ok().unwrap();
    assert_eq!(c, "https://reddit.com/r/test/comments/abc123/title");
}

#[test]
fn validate_trims_surrounding_space() {
    let c = validate_reddit_url("  https://www.reddit.com/r/rust/comments/x1/y/  ").ok().unwrap();
    assert_eq!(c, "https://www.reddit.com/r/rust/comments/x1/y");
}

#[test]
fn validate_is_idempotent_on_accepted_urls() {
    for u in [
        "https://reddit.com/r/test/comments/abc123/title/?utm=1",
        "https://redd.it/comments/abc",
        "  https://old.reddit.com/r/a/comments/b/c/  ",
        "https://www.reddit.com/r/x/comments/y?z=1&w=2",
    ] {
        let once = validate_reddit_url(u).ok().unwrap();
        let twice = validate_reddit_url(&once).ok().unwrap();
        assert_eq!(once, twice);
    }
}

#[test]
fn validate_rejects_empty() {
    assert_eq!(invalid_message(validate_reddit_url("")), "URL cannot be empty");
    assert_eq!(invalid_message(validate_reddit_url("   \t ")), "URL cannot be empty");
}

#[test]
fn validate_rejects_other_domains() {
    assert_eq!(
        invalid_message(validate_reddit_url("https://example.com/r/test/comments/x")),
        "Not a Reddit URL: https://example.com/r/test/comments/x"
    );
}

#[test]
fn validate_rejects_non_post_urls() {
    assert_eq!(
        invalid_message(validate_reddit_url("https://reddit.com/r/test")),
        "URL must be a Reddit post (must contain /comments/): https://reddit.com/r/test"
    );
}

#[test]
fn validate_domain_check_ignores_case() {
    let c = validate_reddit_url("https://WWW.REDDIT.COM/r/Test/comments/Ab/").ok().unwrap();
    assert_eq!(c, "https://WWW.REDDIT.COM/r/Test/comments/Ab");
}

#[test]
fn validate_comments_check_is_case_sensitive() {
    assert!(validate_reddit_url("https://reddit.com/r/test/COMMENTS/x").is_err());
}

#[test]
fn strip_query_removes_one_slash_only() {
    assert_eq!(strip_query("https://reddit.com/r/a/comments/b//?q"), "https://reddit.com/r/a/comments/b/");
    assert_eq!(strip_query("plain"), "plain");
    assert_eq!(strip_query(""), "");
}

#[test]
fn extract_subreddit_reads_name_after_r() {
    assert_eq!(extract_subreddit("https://reddit.com/r/Foo/comments/abc/title"), "Foo");
}

#[test]
fn extract_subreddit_unknown_without_r_segment() {
    assert_eq!(extract_subreddit("https://reddit.com/abc"), "unknown");
    assert_eq!(extract_subreddit("https://reddit.com/r/"), "unknown");
    assert_eq!(extract_subreddit(""), "unknown");
}

#[test]
fn extract_subreddit_skips_empty_name() {
    assert_eq!(extract_subreddit("https://reddit.com/r//r/Bar/comments/x"), "Bar");
}
