use reddit_research::errors::AppError;
use reddit_research::gemini::{
    build_mentor_prompt, build_prompt, ideas_reply, model_endpoint, models, request_body,
    response_text, Attempt, Invoker, Step, PROMPT_HEADER,
};
use reddit_research::json::Json;
use reddit_research::models::RedditPost;

fn s(t: &str) -> Json {
    Json::Str(t.to_string())
}

fn obj(members: Vec<(&str, Json)>) -> Json {
    Json::Object(members.into_iter().map(|(k, v)| (k.to_string(), v)).collect())
}

fn response_with(text: &str) -> Json {
    obj(vec![(
        "candidates",
        Json::Array(vec![obj(vec![(
            "content",
            obj(vec![("parts", Json::Array(vec![obj(vec![("text", s(text))])])), ("role", s("model"))]),
        )])]),
    )])
}

fn chain(names: &[&str]) -> Invoker {
    Invoker::with_models(names.iter().map(|n| n.to_string()).collect())
}

fn called(step: &Step) -> String {
    match step {
        Step::Call(m) => m.clone(),
        Step::Finished(_) => panic!("finished early"),
    }
}

fn failed(status: &str, body: &str) -> Attempt {
    Attempt::Failed { status: status.to_string(), body: Some(body.to_string()) }
}

fn finished(step: Step) -> Result<String, AppError> {
    match step {
        Step::Finished(r) => r,
        Step::Call(m) => panic!("still calling {}", m),
    }
}

fn external(r: Result<String, AppError>) -> String {
    match r {
        Err(AppError::ExternalService(m)) => m,
        _ => panic!("expected an external-service error"),
    }
}

#[test]
fn fallback_reaches_third_model_and_stops() {
    let mut inv = chain(&["A", "B", "C"]);
    let mut calls = Vec::new();
    let mut step = inv.start();
    calls.push(called(&step));
    step = inv.advance(failed("503 Service Unavailable", "busy"));
    calls.push(called(&step));
    step = inv.advance(Attempt::SendFailed);
    calls.push(called(&step));
    step = inv.advance(Attempt::Succeeded(Ok(response_with("T"))));
    assert_eq!(finished(step).ok().unwrap(), "T");
    assert_eq!(calls, vec!["A", "B", "C"]);
    assert!(!inv.is_pending());
}

#[test]
fn all_failing_reports_last_status_and_body() {
    let mut inv = chain(&["A", "B", "C"]);
    let mut step = inv.start();
    for body in ["a-down", "b-down"] {
        called(&step);
        step = inv.advance(failed("500 Internal Server Error", body));
    }
    assert_eq!(called(&step), "C");
    let r = finished(inv.advance(failed("500 Internal Server Error", "c-down")));
    assert_eq!(external(r), "All models failed. Last error 500 Internal Server Error: c-down");
}

#[test]
fn rate_limit_on_last_model_takes_generic_error() {
    let mut inv = chain(&["only"]);
    assert_eq!(called(&inv.start()), "only");
    let r = finished(inv.advance(Attempt::Failed {
        status: "429 Too Many Requests".to_string(),
        body: None,
    }));
    assert_eq!(external(r), "All models failed. Last error 429 Too Many Requests: Unknown error");
}

#[test]
fn transport_failures_everywhere_mean_unavailable() {
    let mut inv = chain(&["A", "B"]);
    inv.start();
    inv.advance(Attempt::SendFailed);
    let r = finished(inv.advance(Attempt::SendFailed));
    assert_eq!(external(r), "All models are currently unavailable");
    let mut empty = chain(&[]);
    assert_eq!(external(finished(empty.start())), "All models are currently unavailable");
}

#[test]
fn unreadable_success_ends_the_run() {
    let mut inv = chain(&["A", "B"]);
    inv.start();
    let r = finished(inv.advance(Attempt::Succeeded(Ok(obj(vec![("candidates", Json::Array(vec![]))])))));
    assert_eq!(external(r), "Failed to extract text from Gemini response");
    assert!(!inv.is_pending());
    let mut inv = chain(&["A", "B"]);
    inv.start();
    let r = finished(inv.advance(Attempt::Succeeded(Err("EOF while parsing".to_string()))));
    assert_eq!(external(r), "Failed to parse Gemini response: EOF while parsing");
}

#[test]
fn default_models_in_order() {
    assert_eq!(
        models(),
        vec!["gemini-2.5-flash", "gemini-flash-latest", "gemini-2.5-flash-lite", "gemini-2.0-flash"]
    );
    let mut inv = Invoker::new();
    assert_eq!(called(&inv.start()), "gemini-2.5-flash");
}

#[test]
fn response_text_follows_the_path() {
    assert_eq!(response_text(&response_with("hello")), Some("hello".to_string()));
    assert_eq!(response_text(&obj(vec![])), None);
}

#[test]
fn prompt_lists_comments() {
    let post = RedditPost {
        url: "u".to_string(),
        title: "My title".to_string(),
        body: "My body".to_string(),
        comments: vec!["one".to_string(), "two".to_string()],
    };
    let p = build_prompt(&post);
    let expected = format!("{}Title:\nMy title\n\nBody:\nMy body\n\nTop Comments:\n- one\n- two\n", PROMPT_HEADER);
    assert_eq!(p, expected);
    assert!(p.contains("Do NOT generate:\n- Large marketplaces\n- Social networks\n"));
}

#[test]
fn prompt_without_comments_has_no_section() {
    let post = RedditPost { url: "u".to_string(), title: "T".to_string(), body: "B".to_string(), comments: vec![] };
    let p = build_prompt(&post);
    assert!(p.ends_with("Title:\nT\n\nBody:\nB\n\n"));
    assert!(!p.contains("Top Comments"));
}

#[test]
fn request_body_escapes_prompt() {
    let b = request_body("say \"hi\"\nnow");
    assert_eq!(b, "{\"contents\":[{\"parts\":[{\"text\":\"say \\\"hi\\\"\\nnow\"}]}]}");
}

#[test]
fn endpoint_carries_model_and_key() {
    assert_eq!(
        model_endpoint("gemini-2.0-flash", "k"),
        "https://generativelanguage.googleapis.com/v1beta/models/gemini-2.0-flash:generateContent?key=k"
    );
}

#[test]
fn mentor_prompt_and_reply() {
    assert_eq!(
        build_mentor_prompt("T", "B"),
        "You are an expert startup mentor. Read this Reddit post and generate 3 potential startup ideas with short explanations.\n\nTitle: T\n\nBody: B"
    );
    assert_eq!(ideas_reply(Ok("ideas".to_string())), "ideas");
    assert_eq!(
        ideas_reply(Err(AppError::ExternalService("down".to_string()))),
        "LLM call failed: down"
    );
}
