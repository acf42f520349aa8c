use vstd::prelude::*;

use crate::errors::AppError;
use crate::json::{as_text, at_index, at_key, get, index, member, text, Json};
use crate::models::RedditPost;
use crate::text::views;

verus! {

/// The fixed instructions that open every prompt.
pub const PROMPT_HEADER: &'static str = "You are a pragmatic product strategist focused on small, buildable digital products.\n\nAnalyze the following Reddit discussion (post + comments) and identify concrete pain points, frustrations, unmet needs, or repeated patterns.\n\nYour task is to generate 3 highly practical micro-SaaS or small product ideas that:\n\n- Can be built by a solo developer or small team\n- Are realistic and narrowly scoped\n- Solve a specific pain point from the discussion\n- Are suitable as:\n  - A web app\n  - A mobile app\n  - A Chrome extension\n  - A lightweight SaaS tool\n  - A niche B2B utility\n  - An automation tool\n\nDo NOT generate:\n- Large marketplaces\n- Social networks\n- Venture-scale platforms\n- Ideas that require massive funding\n- \"Uber for X\" concepts\n- Overly generic AI wrappers\n\nFor each idea, provide:\n\n1. Product Name (short and simple)\n2. Target User (very specific niche)\n3. Core Problem (clearly derived from the discussion)\n4. MVP Feature Set (3\u{2013}6 core features only)\n5. Monetization Model (subscription, one-time payment, etc.)\n6. Why This Is Feasible for a Solo Builder\n\nReddit Discussion:\n\n";

/// The comment lines of a prompt, each as `- comment`.
pub open spec fn comment_lines(c: Seq<String>) -> Seq<char>
    decreases c.len(),
{
    if c.len() == 0 {
        Seq::empty()
    } else {
        comment_lines(c.drop_last()) + "- "@ + c.last()@ + "\n"@
    }
}

/// The prompt for a post: the instructions, the title, the body and, when there
/// are comments, a list of them.
pub open spec fn prompt_of(post: RedditPost) -> Seq<char> {
    let head = PROMPT_HEADER@ + "Title:\n"@ + post.title@ + "\n\n"@ + "Body:\n"@ + post.body@
        + "\n\n"@;
    if post.comments@.len() == 0 {
        head
    } else {
        head + "Top Comments:\n"@ + comment_lines(post.comments@)
    }
}

/// Renders the prompt that asks the model for ideas about `post`.
pub fn build_prompt(post: &RedditPost) -> (r: String)
    ensures
        r@ == prompt_of(*post),
{
    let mut prompt = String::from_str(PROMPT_HEADER);
    prompt.append("Title:\n");
    prompt.append(post.title.as_str());
    prompt.append("\n\n");
    prompt.append("Body:\n");
    prompt.append(post.body.as_str());
    prompt.append("\n\n");
    if post.comments.len() > 0 {
        prompt.append("Top Comments:\n");
        let ghost start = prompt@;
        let mut i: usize = 0;
        assert(post.comments@.take(0) =~= Seq::<String>::empty());
        while i < post.comments.len()
            invariant
                i <= post.comments@.len(),
                prompt@ == start + comment_lines(post.comments@.take(i as int)),
            decreases post.comments.len() - i,
        {
            assert(post.comments@.take(i + 1).drop_last() =~= post.comments@.take(i as int));
            prompt.append("- ");
            prompt.append(post.comments[i].as_str());
            prompt.append("\n");
            assert(prompt@ =~= start + comment_lines(post.comments@.take(i + 1)));
            i = i + 1;
        }
        assert(post.comments@.take(i as int) =~= post.comments@);
    }
    prompt
}

/// The short prompt of the web service: a mentor's request for three ideas.
pub open spec fn mentor_prompt_of(title: Seq<char>, body: Seq<char>) -> Seq<char> {
    "You are an expert startup mentor. Read this Reddit post and generate 3 potential startup ideas with short explanations.\n\nTitle: "@
        + title + "\n\nBody: "@ + body
}

/// Renders the web service's prompt for a post's title and body.
pub fn build_mentor_prompt(title: &str, body: &str) -> (r: String)
    ensures
        r@ == mentor_prompt_of(title@, body@),
{
    let mut r = String::from_str(
        "You are an expert startup mentor. Read this Reddit post and generate 3 potential startup ideas with short explanations.\n\nTitle: ",
    );
    r.append(title);
    r.append("\n\nBody: ");
    r.append(body);
    r
}

/// `s` written as a JSON string literal, as `serde_json` writes it.
pub uninterp spec fn json_string_of(s: Seq<char>) -> Seq<char>;

/// Relies on `serde_json::to_string` for a `str`: a quoted, escaped JSON
/// string. Writing a `str` into memory does not fail.
#[verifier::external_body]
pub(crate) fn json_string(s: &str) -> (r: String)
    ensures
        r@ == json_string_of(s@),
{
    serde_json::to_string(s).unwrap_or_default()
}

/// The body of a generation request for `prompt`.
pub open spec fn request_body_of(prompt: Seq<char>) -> Seq<char> {
    "{\"contents\":[{\"parts\":[{\"text\":"@ + json_string_of(prompt) + "}]}]}"@
}

/// The JSON body of a generation request: one content with one text part.
pub fn request_body(prompt: &str) -> (r: String)
    ensures
        r@ == request_body_of(prompt@),
{
    let mut r = String::from_str("{\"contents\":[{\"parts\":[{\"text\":");
    let quoted = json_string(prompt);
    r.append(quoted.as_str());
    r.append("}]}]}");
    r
}

/// The generation endpoint of a model.
pub open spec fn endpoint_of(model: Seq<char>, api_key: Seq<char>) -> Seq<char> {
    "https://generativelanguage.googleapis.com/v1beta/models/"@ + model
        + ":generateContent?key="@ + api_key
}

/// The URL to which a generation request for `model` goes.
pub fn model_endpoint(model: &str, api_key: &str) -> (r: String)
    ensures
        r@ == endpoint_of(model@, api_key@),
{
    let mut r = String::from_str("https://generativelanguage.googleapis.com/v1beta/models/");
    r.append(model);
    r.append(":generateContent?key=");
    r.append(api_key);
    r
}

/// The generated text of a response: `candidates[0].content.parts[0].text`.
pub open spec fn generated_text(d: Json) -> Option<Seq<char>> {
    text(
        at_key(
            at_index(at_key(at_key(at_index(member(d, "candidates"@), 0), "content"@), "parts"@), 0),
            "text"@,
        ),
    )
}

/// Reads the generated text out of a decoded response, if every step of the
/// path is there.
pub fn response_text(d: &Json) -> (r: Option<String>)
    ensures
        match r {
            Some(t) => generated_text(*d) == Some(t@),
            None => generated_text(*d) is None,
        },
{
    let t = as_text(
        get(index(get(get(index(get(Some(d), "candidates"), 0), "content"), "parts"), 0), "text"),
    );
    match t {
        Some(s) => Some(s.clone()),
        None => None,
    }
}


/// The models tried, fastest first, each later one a more conservative fallback.
pub open spec fn default_models() -> Seq<Seq<char>> {
    seq![
        "gemini-2.5-flash"@,
        "gemini-flash-latest"@,
        "gemini-2.5-flash-lite"@,
        "gemini-2.0-flash"@,
    ]
}

/// The models tried, in order of preference.
pub fn models() -> (r: Vec<String>)
    ensures
        views(r@) == default_models(),
{
    let mut r: Vec<String> = Vec::new();
    r.push(String::from_str("gemini-2.5-flash"));
    r.push(String::from_str("gemini-flash-latest"));
    r.push(String::from_str("gemini-2.5-flash-lite"));
    r.push(String::from_str("gemini-2.0-flash"));
    assert(views(r@) =~= default_models());
    r
}

/// What one generation request to one model came to.
pub enum Attempt {
    /// No response: the connection failed or timed out.
    SendFailed,
    /// A response whose status is not a success, rate limits and overload
    /// included (`status` as the client renders it, `body` its text when it
    /// could be read).
    Failed { status: String, body: Option<String> },
    /// A response with a success status: its body decoded as JSON, or why that
    /// failed.
    Succeeded(Result<Json, String>),
}

/// What to do next in a run of the fallback chain.
pub enum Step {
    /// Send the request to the model with this name.
    Call(String),
    /// The run is over, with the generated text or the error.
    Finished(Result<String, AppError>),
}

/// The result that a run reaches when the attempt on the model at `i` of `n`
/// came to `a`; `None` when the next model is to be tried.
pub open spec fn attempt_result(i: int, n: int, a: Attempt) -> Option<Result<Seq<char>, Seq<char>>> {
    match a {
        Attempt::SendFailed => if i + 1 < n {
            None
        } else {
            Some(Err("All models are currently unavailable"@))
        },
        Attempt::Failed { status, body } => if i + 1 < n {
            None
        } else {
            Some(
                Err(
                    "All models failed. Last error "@ + status@ + ": "@ + match body {
                        Some(b) => b@,
                        None => "Unknown error"@,
                    },
                ),
            )
        },
        Attempt::Succeeded(Err(e)) => Some(Err("Failed to parse Gemini response: "@ + e@)),
        Attempt::Succeeded(Ok(d)) => match generated_text(d) {
            Some(t) => Some(Ok(t)),
            None => Some(Err("Failed to extract text from Gemini response"@)),
        },
    }
}

/// A finished run's result as text: the generated text, or an external-service
/// error's message.
pub open spec fn finished_as(r: Result<String, AppError>, e: Result<Seq<char>, Seq<char>>) -> bool {
    match (r, e) {
        (Ok(t), Ok(u)) => t@ == u,
        (Err(x), Err(m)) => x is ExternalService && x.message_spec() == m,
        _ => false,
    }
}

/// One run of the ordered fallback chain: each model is tried at most once,
/// in order, until one yields text or the run fails.
pub struct Invoker {
    models: Vec<String>,
    /// The position of the model whose attempt is awaited.
    current: usize,
    /// Whether a call is outstanding.
    waiting: bool,
}

impl Invoker {
    /// The models of this run, in order.
    pub closed spec fn model_list(&self) -> Seq<Seq<char>> {
        views(self.models@)
    }

    /// The position of the model whose attempt is awaited.
    pub closed spec fn position(&self) -> int {
        self.current as int
    }

    /// Whether the run waits for the outcome of a call.
    pub closed spec fn pending(&self) -> bool {
        self.waiting && self.current < self.models@.len()
    }

    /// A run over `models`, in that order.
    pub fn with_models(models: Vec<String>) -> (r: Invoker)
        ensures
            r.model_list() == views(models@),
            !r.pending(),
            r.position() == 0,
    {
        Invoker { models, current: 0, waiting: false }
    }

    /// A run over the default models.
    pub fn new() -> (r: Invoker)
        ensures
            r.model_list() == default_models(),
            !r.pending(),
            r.position() == 0,
    {
        Invoker::with_models(models())
    }

    /// Whether the run waits for the outcome of a call.
    pub fn is_pending(&self) -> (r: bool)
        ensures
            r == self.pending(),
    {
        self.waiting && self.current < self.models.len()
    }

    /// Begins the run: call the first model, or fail at once when there is none.
    pub fn start(&mut self) -> (r: Step)
        requires
            !old(self).pending(),
            old(self).position() == 0,
        ensures
            final(self).model_list() == old(self).model_list(),
            final(self).position() == 0,
            old(self).model_list().len() > 0 ==> final(self).pending() && r is Call && r->Call_0@
                == old(self).model_list()[0],
            old(self).model_list().len() == 0 ==> !final(self).pending() && r is Finished
                && finished_as(r->Finished_0, Err("All models are currently unavailable"@)),
    {
        if self.models.len() > 0 {
            self.waiting = true;
            Step::Call(self.models[0].clone())
        } else {
            Step::Finished(
                Err(AppError::ExternalService(String::from_str("All models are currently unavailable"))),
            )
        }
    }

    /// Takes the outcome of the awaited call: either the run goes on with the
    /// next model, or it is finished with the result that the outcome decides.
    /// Nothing is called after a model yields text.
    pub fn advance(&mut self, a: Attempt) -> (r: Step)
        requires
            old(self).pending(),
        ensures
            final(self).model_list() == old(self).model_list(),
            match attempt_result(old(self).position(), old(self).model_list().len() as int, a) {
                None => {
                    &&& final(self).pending()
                    &&& final(self).position() == old(self).position() + 1
                    &&& r is Call
                    &&& r->Call_0@ == old(self).model_list()[final(self).position()]
                },
                Some(e) => !final(self).pending() && r is Finished && finished_as(
                    r->Finished_0,
                    e,
                ),
            },
    {
        let last = self.current >= self.models.len() - 1;
        match a {
            Attempt::SendFailed => {
                if !last {
                    self.current = self.current + 1;
                    return Step::Call(self.models[self.current].clone());
                }
                self.waiting = false;
                Step::Finished(
                    Err(AppError::ExternalService(String::from_str("All models are currently unavailable"))),
                )
            },
            Attempt::Failed { status, body } => {
                if !last {
                    self.current = self.current + 1;
                    return Step::Call(self.models[self.current].clone());
                }
                self.waiting = false;
                let mut m = String::from_str("All models failed. Last error ");
                m.append(status.as_str());
                m.append(": ");
                match body {
                    Some(b) => m.append(b.as_str()),
                    None => m.append("Unknown error"),
                }
                Step::Finished(Err(AppError::ExternalService(m)))
            },
            Attempt::Succeeded(Err(e)) => {
                self.waiting = false;
                let mut m = String::from_str("Failed to parse Gemini response: ");
                m.append(e.as_str());
                Step::Finished(Err(AppError::ExternalService(m)))
            },
            Attempt::Succeeded(Ok(d)) => {
                self.waiting = false;
                match response_text(&d) {
                    Some(t) => Step::Finished(Ok(t)),
                    None => Step::Finished(
                        Err(
                            AppError::ExternalService(
                                String::from_str("Failed to extract text from Gemini response"),
                            ),
                        ),
                    ),
                }
            },
        }
    }
}


/// What the web service answers with as ideas: the generated text, or a note
/// that the call failed.
pub open spec fn reply_of(r: Result<String, AppError>) -> Seq<char> {
    match r {
        Ok(t) => t@,
        Err(e) => "LLM call failed: "@ + e.message_spec(),
    }
}

/// The web service's ideas field: the generated text, or why there is none.
pub fn ideas_reply(r: Result<String, AppError>) -> (s: String)
    ensures
        s@ == reply_of(r),
{
    match r {
        Ok(t) => t,
        Err(e) => {
            let mut s = String::from_str("LLM call failed: ");
            let m = e.message();
            s.append(m.as_str());
            s
        },
    }
}

} // verus!
