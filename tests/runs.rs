use reddit_research::cli::OutputFormat;
use reddit_research::config::AppConfig;
use reddit_research::errors::AppError;
use reddit_research::gemini::{build_prompt, Attempt, Invoker, Step};
use reddit_research::json::Json;
use reddit_research::models::{analysis_result, idea_json_span, AnalysisResult, Idea};
use reddit_research::output::{format_json, format_markdown, format_results, format_text};
use reddit_research::reddit::{read_reddit_post, FetchOutcome};
use reddit_research::run::{batch_urls, subreddit_names, Sweep, SweepAction};
use reddit_research::sheets::{join_features, sheet_rows, should_export};
use reddit_research::validation::validate_reddit_url;

fn idea(name: &str) -> Idea {
    Idea {
        product_name: name.to_string(),
        target_user: "t".to_string(),
        core_problem: "p".to_string(),
        mvp_features: vec!["f1".to_string(), "f2".to_string()],
        monetization: "m".to_string(),
        feasibility: "e".to_string(),
    }
}

fn result_with(url: &str, n: usize) -> AnalysisResult {
    let ideas: Vec<Idea> = (0..n).map(|i| idea(&format!("I{}", i))).collect();
    analysis_result(url.to_string(), "title".to_string(), "raw".to_string(), ideas)
}

fn fetch_of(a: &SweepAction) -> String {
    match a {
        SweepAction::Fetch(n) => n.clone(),
        _ => panic!("expected a fetch"),
    }
}

fn analyze_of(a: &SweepAction) -> (String, String) {
    match a {
        SweepAction::Analyze { subreddit, url } => (subreddit.clone(), url.clone()),
        _ => panic!("expected an analysis"),
    }
}

#[test]
fn sweep_stops_at_idea_cap() {
    let mut sweep = Sweep::new("alpha, beta, gamma", Some(5)).ok().unwrap();
    assert_eq!(fetch_of(&sweep.action()), "alpha");
    sweep.on_listing(Ok(vec!["u1".to_string()]));
    assert_eq!(analyze_of(&sweep.action()), ("alpha".to_string(), "u1".to_string()));
    sweep.on_post(Ok(result_with("u1", 3)));
    assert_eq!(fetch_of(&sweep.action()), "beta");
    sweep.on_listing(Ok(vec!["u2".to_string(), "u3".to_string()]));
    assert_eq!(analyze_of(&sweep.action()), ("beta".to_string(), "u2".to_string()));
    sweep.on_post(Ok(result_with("u2", 3)));
    assert!(matches!(sweep.action(), SweepAction::Done));
    let t = sweep.totals();
    assert_eq!(t.ideas_generated, 6);
    assert_eq!(t.subreddits_processed, 2);
    assert_eq!(t.posts_analyzed, 2);
    assert_eq!(t.posts_failed, 0);
    let results = sweep.into_results();
    assert_eq!(results.len(), 2);
    assert_eq!(results[1].url, "u2");
}

#[test]
fn sweep_skips_failures() {
    let mut sweep = Sweep::new("a,b", None).ok().unwrap();
    sweep.on_listing(Err(AppError::ExternalService("Failed to fetch r/a".to_string())));
    assert_eq!(fetch_of(&sweep.action()), "b");
    sweep.on_listing(Ok(vec!["x".to_string(), "y".to_string()]));
    sweep.on_post(Err(AppError::ExternalService("boom".to_string())));
    assert_eq!(analyze_of(&sweep.action()).1, "y");
    sweep.on_post(Ok(result_with("y", 2)));
    assert!(matches!(sweep.action(), SweepAction::Done));
    let t = sweep.totals();
    assert_eq!(t.subreddits_processed, 2);
    assert_eq!(t.posts_analyzed, 1);
    assert_eq!(t.posts_failed, 1);
    assert_eq!(t.ideas_generated, 2);
}

#[test]
fn sweep_with_empty_listing_moves_on() {
    let mut sweep = Sweep::new("a", Some(1)).ok().unwrap();
    sweep.on_listing(Ok(vec![]));
    assert!(matches!(sweep.action(), SweepAction::Done));
    assert_eq!(sweep.totals().subreddits_processed, 1);
}

#[test]
fn sweep_needs_a_name() {
    match Sweep::new(" , ,", None) {
        Err(AppError::InvalidInput(m)) => assert_eq!(m, "No valid subreddit names provided"),
        _ => panic!("expected invalid input"),
    }
}

#[test]
fn names_are_trimmed_and_blank_ones_dropped() {
    assert_eq!(subreddit_names(" rust, ,golang ,"), vec!["rust", "golang"]);
}

#[test]
fn batch_skips_blank_and_comment_lines() {
    let content = "# list\nhttps://reddit.com/r/a/comments/1\n\n   \n  https://reddit.com/r/b/comments/2  \r\n#x\n";
    assert_eq!(
        batch_urls(content),
        vec!["https://reddit.com/r/a/comments/1", "https://reddit.com/r/b/comments/2"]
    );
    assert!(batch_urls("").is_empty());
}

#[test]
fn text_output_exact() {
    let r1 = analysis_result("u1".to_string(), "t1".to_string(), "raw one".to_string(), vec![]);
    let r2 = analysis_result("u2".to_string(), "t2".to_string(), "raw two".to_string(), vec![]);
    let out = format_text(&vec![r1, r2]);
    let rule = "\u{2550}".repeat(40);
    let expected = format!("URL: u1\nTitle: t1\n\nIdeas:\nraw one\n\n{}\n\nURL: u2\nTitle: t2\n\nIdeas:\nraw two\n", rule);
    assert_eq!(out, expected);
    assert_eq!(format_text(&vec![]), "");
}

#[test]
fn markdown_output_exact() {
    let r1 = analysis_result("u1".to_string(), "t1".to_string(), "x".to_string(), vec![]);
    let r2 = analysis_result("u2".to_string(), "t2".to_string(), "y".to_string(), vec![]);
    let out = format_markdown(&vec![r1, r2]);
    assert_eq!(
        out,
        "# Reddit Startup Analysis\n\n## Post 1\n\n**URL:** u1\n\n**Title:** t1\n\n### Ideas\n\nx\n\n---\n\n## Post 2\n\n**URL:** u2\n\n**Title:** t2\n\n### Ideas\n\ny\n\n"
    );
}

#[test]
fn json_output_exact() {
    let r = AnalysisResult {
        url: "u".to_string(),
        title: "say \"hi\"".to_string(),
        ideas_text: "a\nb".to_string(),
        ideas: vec![idea("N")],
    };
    let empty = AnalysisResult { url: "v".to_string(), title: "w".to_string(), ideas_text: "".to_string(), ideas: vec![] };
    let out = format_json(&vec![r, empty]);
    let expected = "[\n  {\n    \"url\": \"u\",\n    \"title\": \"say \\\"hi\\\"\",\n    \"ideas_text\": \"a\\nb\",\n    \"ideas\": [\n      {\n        \"product_name\": \"N\",\n        \"target_user\": \"t\",\n        \"core_problem\": \"p\",\n        \"mvp_features\": [\n          \"f1\",\n          \"f2\"\n        ],\n        \"monetization\": \"m\",\n        \"feasibility\": \"e\"\n      }\n    ]\n  },\n  {\n    \"url\": \"v\",\n    \"title\": \"w\",\n    \"ideas_text\": \"\",\n    \"ideas\": []\n  }\n]";
    assert_eq!(out, expected);
    assert_eq!(format_json(&vec![]), "[]");
}

#[test]
fn results_dispatch_on_format() {
    let rs = vec![result_with("u", 0)];
    assert_eq!(format_results(&rs, &OutputFormat::Text), format_text(&rs));
    assert_eq!(format_results(&rs, &OutputFormat::Json), format_json(&rs));
    assert_eq!(format_results(&rs, &OutputFormat::Markdown), format_markdown(&rs));
}

#[test]
fn sheet_rows_have_ten_cells() {
    let rows = sheet_rows("2024-01-01T00:00:00+00:00", "rust", "u", "t", &vec![idea("A"), idea("B")]);
    assert_eq!(rows.len(), 2);
    assert_eq!(rows[0], vec!["2024-01-01T00:00:00+00:00", "rust", "u", "t", "A", "t", "p", "f1; f2", "m", "e"]);
    assert_eq!(rows[1][4], "B");
    assert_eq!(join_features(&vec![]), "");
    assert_eq!(join_features(&vec!["only".to_string()]), "only");
}

#[test]
fn export_needs_config_and_ideas() {
    let on = AppConfig {
        gemini_api_key: "k".to_string(),
        google_sheet_id: Some("s".to_string()),
        google_credentials_path: Some("c".to_string()),
    };
    let half = AppConfig { gemini_api_key: "k".to_string(), google_sheet_id: Some("s".to_string()), google_credentials_path: None };
    assert!(on.sheets_enabled());
    assert!(!half.sheets_enabled());
    assert!(should_export(&on, &vec![idea("A")]));
    assert!(!should_export(&on, &vec![]));
    assert!(!should_export(&half, &vec![idea("A")]));
}

#[test]
fn error_messages() {
    assert_eq!(AppError::SheetsExport("x".to_string()).message(), "Sheets export: x");
    assert_eq!(AppError::Io("y".to_string()).message(), "y");
}

fn s(t: &str) -> Json {
    Json::Str(t.to_string())
}

fn obj(members: Vec<(&str, Json)>) -> Json {
    Json::Object(members.into_iter().map(|(k, v)| (k.to_string(), v)).collect())
}

#[test]
fn analyze_end_to_end() {
    let clean = validate_reddit_url("https://reddit.com/r/test/comments/abc123/title/?utm=1").ok().unwrap();
    assert_eq!(clean, "https://reddit.com/r/test/comments/abc123/title");
    let post_data = obj(vec![("title", s("Fetched title")), ("selftext", s("text"))]);
    let page = Json::Array(vec![
        obj(vec![("data", obj(vec![("children", Json::Array(vec![obj(vec![("data", post_data)])]))]))]),
        obj(vec![("data", obj(vec![("children", Json::Array(vec![]))]))]),
    ]);
    let post = read_reddit_post(&clean, FetchOutcome::Received(Some(page)), 10).ok().unwrap();
    let prompt = build_prompt(&post);
    assert!(prompt.contains("Title:\nFetched title\n"));
    let mut inv = Invoker::new();
    assert!(matches!(inv.start(), Step::Call(_)));
    let answer = obj(vec![(
        "candidates",
        Json::Array(vec![obj(vec![(
            "content",
            obj(vec![("parts", Json::Array(vec![obj(vec![("text", s("Plain prose, no list"))])]))]),
        )])]),
    )]);
    let raw = match inv.advance(Attempt::Succeeded(Ok(answer))) {
        Step::Finished(Ok(t)) => t,
        _ => panic!("expected text"),
    };
    assert_eq!(idea_json_span(&raw), None);
    let result = analysis_result(post.url, post.title, raw, vec![]);
    let out = format_results(&vec![result], &OutputFormat::Text);
    assert!(out.lines().any(|l| l == "URL: https://reddit.com/r/test/comments/abc123/title"));
    assert!(out.lines().any(|l| l == "Title: Fetched title"));
    assert!(out.contains("Plain prose, no list"));
}
