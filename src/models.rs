use vstd::prelude::*;

use crate::json::{as_items, as_text, get, items, member, opt, text, Json};
use crate::text::{
    chars_of, decimal, decimal_string, find_first, find_last, index_of, last_index_of,
    lemma_find_first, lemma_find_first_at, lemma_find_last, lemma_split_nonempty, lemma_trim_end_white_suffix,
    lemma_trim_start_concat, split, split_on, trim, trim_end, trim_right, trim_start, trimmed,
    views,
};

verus! {

/// A fetched Reddit post with its top-level comments, in listing order.
pub struct RedditPost {
    pub url: String,
    pub title: String,
    pub body: String,
    pub comments: Vec<String>,
}

/// One product idea as the model describes it.
#[derive(Clone)]
pub struct Idea {
    pub product_name: String,
    pub target_user: String,
    pub core_problem: String,
    pub mvp_features: Vec<String>,
    pub monetization: String,
    pub feasibility: String,
}

/// The outcome of analysing one post.
pub struct AnalysisResult {
    pub url: String,
    pub title: String,
    /// The ideas rendered for reading, or the model's raw text when none parsed.
    pub ideas_text: String,
    pub ideas: Vec<Idea>,
}

/// The lines listing the features, each as `  - feature`.
pub open spec fn feature_lines(f: Seq<String>) -> Seq<char>
    decreases f.len(),
{
    if f.len() == 0 {
        Seq::empty()
    } else {
        feature_lines(f.drop_last()) + "  - "@ + f.last()@ + "\n"@
    }
}

/// The rendering of the `n`-th idea (counting from one).
pub open spec fn idea_block(n: nat, idea: Idea) -> Seq<char> {
    "### "@ + decimal(n) + ". "@ + idea.product_name@ + "\n\n"@ + "**Target User:** "@
        + idea.target_user@ + "\n\n"@ + "**Core Problem:** "@ + idea.core_problem@ + "\n\n"@
        + "**MVP Features:**\n"@ + feature_lines(idea.mvp_features@) + "\n**Monetization:** "@
        + idea.monetization@ + "\n\n"@ + "**Why Feasible for Solo Builder:** "@
        + idea.feasibility@ + "\n"@
}

/// The renderings of all ideas, separated by rules.
pub open spec fn idea_blocks(ideas: Seq<Idea>) -> Seq<char>
    decreases ideas.len(),
{
    if ideas.len() == 0 {
        Seq::empty()
    } else {
        let sep = if ideas.len() > 1 {
            "\n---\n\n"@
        } else {
            Seq::empty()
        };
        idea_blocks(ideas.drop_last()) + sep + idea_block(ideas.len(), ideas.last())
    }
}

/// The readable text of a list of ideas.
pub open spec fn ideas_text_of(ideas: Seq<Idea>) -> Seq<char> {
    if ideas.len() == 0 {
        "(No structured ideas parsed)"@
    } else {
        idea_blocks(ideas)
    }
}

fn push_features(out: &mut String, features: &Vec<String>)
    ensures
        final(out)@ == old(out)@ + feature_lines(features@),
{
    let ghost start = out@;
    let mut i: usize = 0;
    assert(features@.take(0) =~= Seq::<String>::empty());
    while i < features.len()
        invariant
            i <= features.len(),
            out@ == start + feature_lines(features@.take(i as int)),
        decreases features.len() - i,
    {
        assert(features@.take(i + 1).drop_last() =~= features@.take(i as int));
        out.append("  - ");
        out.append(features[i].as_str());
        out.append("\n");
        assert(out@ =~= start + feature_lines(features@.take(i + 1)));
        i = i + 1;
    }
    assert(features@.take(i as int) =~= features@);
}

/// Renders parsed ideas as readable text, numbered from one.
pub fn format_ideas_text(ideas: &Vec<Idea>) -> (r: String)
    ensures
        r@ == ideas_text_of(ideas@),
{
    if ideas.len() == 0 {
        return String::from_str("(No structured ideas parsed)");
    }
    let mut out = String::new();
    let mut i: usize = 0;
    assert(ideas@.take(0) =~= Seq::<Idea>::empty());
    while i < ideas.len()
        invariant
            i <= ideas.len(),
            out@ == idea_blocks(ideas@.take(i as int)),
        decreases ideas.len() - i,
    {
        let ghost before = out@;
        assert(ideas@.take(i + 1).drop_last() =~= ideas@.take(i as int));
        assert(ideas@.take(i + 1).last() == ideas@[i as int]);
        if i > 0 {
            out.append("\n---\n\n");
        }
        let ghost with_sep = out@;
        let idea = &ideas[i];
        out.append("### ");
        let num = decimal_string(i + 1);
        out.append(num.as_str());
        out.append(". ");
        out.append(idea.product_name.as_str());
        out.append("\n\n");
        out.append("**Target User:** ");
        out.append(idea.target_user.as_str());
        out.append("\n\n");
        out.append("**Core Problem:** ");
        out.append(idea.core_problem.as_str());
        out.append("\n\n");
        out.append("**MVP Features:**\n");
        push_features(&mut out, &idea.mvp_features);
        out.append("\n**Monetization:** ");
        out.append(idea.monetization.as_str());
        out.append("\n\n");
        out.append("**Why Feasible for Solo Builder:** ");
        out.append(idea.feasibility.as_str());
        out.append("\n");
        assert(out@ =~= with_sep + idea_block((i + 1) as nat, ideas@[i as int]));
        assert(out@ =~= idea_blocks(ideas@.take(i + 1)));
        i = i + 1;
    }
    assert(ideas@.take(i as int) =~= ideas@);
    out
}

/// Pairs a post with the model's raw answer and the ideas parsed from it; when
/// none parsed, the raw answer is kept as the text.
pub fn analysis_result(url: String, title: String, raw: String, ideas: Vec<Idea>) -> (r:
    AnalysisResult)
    ensures
        r.url == url,
        r.title == title,
        r.ideas == ideas,
        r.ideas_text@ == if ideas@.len() == 0 {
            raw@
        } else {
            ideas_text_of(ideas@)
        },
{
    let ideas_text = if ideas.len() == 0 {
        raw
    } else {
        format_ideas_text(&ideas)
    };
    AnalysisResult { url, title, ideas_text, ideas }
}

/// The subreddit named at or after piece `i`: the first piece that follows an
/// `r` piece and is not empty.
pub open spec fn subreddit_from(parts: Seq<Seq<char>>, i: int) -> Seq<char>
    decreases parts.len() - i,
{
    if i < 0 || i + 1 >= parts.len() {
        "unknown"@
    } else if parts[i] == "r"@ && parts[i + 1].len() > 0 {
        parts[i + 1]
    } else {
        subreddit_from(parts, i + 1)
    }
}

/// The subreddit that a URL's path names, or `unknown`.
pub open spec fn subreddit_of(url: Seq<char>) -> Seq<char> {
    subreddit_from(split_on(url, '/'), 0)
}

/// Reads the subreddit name out of a Reddit URL (the piece after `/r/`), or
/// `unknown` when there is none.
pub fn extract_subreddit(url: &str) -> (r: String)
    ensures
        r@ == subreddit_of(url@),
{
    let parts = split(url, '/');
    let r_piece = String::from_str("r");
    proof {
        lemma_split_nonempty(url@, '/');
    }
    let mut i: usize = 0;
    while i < parts.len() - 1
        invariant
            views(parts@) == split_on(url@, '/'),
            parts@.len() >= 1,
            r_piece@ == "r"@,
            subreddit_from(views(parts@), 0) == subreddit_from(views(parts@), i as int),
        decreases parts.len() - i,
    {
        if parts[i] == r_piece && !parts[i + 1].as_str().is_empty() {
            return parts[i + 1].clone();
        }
        i = i + 1;
    }
    String::from_str("unknown")
}


/// `t` opens with a code fence.
pub open spec fn opens_fence(t: Seq<char>) -> bool {
    t.len() >= 3 && t[0] == '`' && t[1] == '`' && t[2] == '`'
}

/// `t` closes with a code fence.
pub open spec fn closes_fence(t: Seq<char>) -> bool {
    t.len() >= 3 && t[t.len() - 1] == '`' && t[t.len() - 2] == '`' && t[t.len() - 3] == '`'
}

/// The model's answer trimmed and, when it opens with a fence, without the
/// fence line and the closing fence.
pub open spec fn unfenced(raw: Seq<char>) -> Seq<char> {
    let t = trimmed(raw);
    if opens_fence(t) {
        let nl = find_first(t, '\n');
        let a = if nl < t.len() {
            t.subrange(nl + 1, t.len() as int)
        } else {
            t
        };
        let e = trim_end(a);
        if closes_fence(e) {
            trimmed(e.subrange(0, e.len() - 3))
        } else {
            trimmed(a)
        }
    } else {
        t
    }
}

/// The text from the first `[` to the last `]` of the unfenced answer, when
/// the first comes before the last.
pub open spec fn idea_span(raw: Seq<char>) -> Option<Seq<char>> {
    let s = unfenced(raw);
    let a = find_first(s, '[');
    let b = find_last(s, ']');
    if a < s.len() && 0 <= b && a < b {
        Some(s.subrange(a, b + 1))
    } else {
        None
    }
}

fn opens_fence_exec(v: &Vec<char>) -> (r: bool)
    ensures
        r == opens_fence(v@),
{
    v.len() >= 3 && v[0] == '`' && v[1] == '`' && v[2] == '`'
}

fn closes_fence_exec(v: &Vec<char>) -> (r: bool)
    ensures
        r == closes_fence(v@),
{
    let n = v.len();
    n >= 3 && v[n - 1] == '`' && v[n - 2] == '`' && v[n - 3] == '`'
}

/// Cuts the JSON array out of the model's answer: drops a surrounding code
/// fence, then keeps the first `[` through the last `]`.
pub fn idea_json_span(raw: &str) -> (r: Option<String>)
    ensures
        match r {
            Some(s) => idea_span(raw@) == Some(s@),
            None => idea_span(raw@) is None,
        },
{
    let t = trim(raw);
    let tv = chars_of(t.as_str());
    let s = if opens_fence_exec(&tv) {
        let nl = index_of(&tv, '\n');
        proof {
            lemma_find_first(tv@, '\n');
        }
        let a: &str = if nl < tv.len() {
            t.as_str().substring_char(nl + 1, tv.len())
        } else {
            t.as_str()
        };
        let e = trim_right(a);
        let ev = chars_of(e.as_str());
        if closes_fence_exec(&ev) {
            trim(e.as_str().substring_char(0, ev.len() - 3))
        } else {
            trim(a)
        }
    } else {
        t
    };
    let sv = chars_of(s.as_str());
    let start = index_of(&sv, '[');
    let end = last_index_of(&sv, ']');
    proof {
        lemma_find_first(sv@, '[');
        lemma_find_last(sv@, ']');
    }
    match end {
        Some(e) => {
            if start < sv.len() && start < e {
                Some(String::from_str(s.as_str().substring_char(start, e + 1)))
            } else {
                None
            }
        },
        None => None,
    }
}

/// An answer wrapped in a fenced `json` block.
pub open spec fn fenced_json(a: Seq<char>) -> Seq<char> {
    "```json\n"@ + a + "\n```"@
}

/// Wrapping an answer that does not itself open with a fence in a fenced
/// `json` block leaves the extracted array text, and so the parsed ideas,
/// unchanged.
pub proof fn lemma_fence_transparent(a: Seq<char>)
    requires
        !opens_fence(trimmed(a)),
    ensures
        idea_span(fenced_json(a)) == idea_span(a),
{
    reveal_strlit("```json\n");
    reveal_strlit("\n```");
    let f = fenced_json(a);
    let n = f.len();
    assert(f[0] == '`');
    assert(f[n - 1] == '`');
    assert(trim_start(f) == f);
    assert(trim_end(f) == f);
    assert(trimmed(f) == f);
    assert(opens_fence(f));
    assert forall|j: int| 0 <= j < 7 implies f[j] != '\n' by {}
    assert(f[7] == '\n');
    lemma_find_first_at(f, '\n', 7);
    let rest = a + "\n```"@;
    assert(f.subrange(8, n as int) =~= rest);
    assert(rest[rest.len() - 1] == '`');
    assert(trim_end(rest) == rest);
    assert(closes_fence(rest));
    let body = a.push('\n');
    assert(rest.subrange(0, rest.len() - 3) =~= body);
    lemma_trim_start_concat(a, seq!['\n']);
    assert(a + seq!['\n'] =~= body);
    if trim_start(a).len() > 0 {
        assert(trim_start(a) + seq!['\n'] =~= trim_start(a).push('\n'));
        lemma_trim_end_white_suffix(trim_start(a), '\n');
    } else {
        assert(trim_start(seq!['\n']) == trim_start(seq!['\n'].drop_first()));
        assert(seq!['\n'].drop_first() =~= Seq::<char>::empty());
    }
    assert(trimmed(body) == trimmed(a));
    assert(unfenced(f) == trimmed(a));
}


/// The texts of a list of JSON values that are all strings.
pub open spec fn texts_of(s: Seq<Json>) -> Option<Seq<Seq<char>>> {
    if forall|i: int| 0 <= i < s.len() ==> s[i] is Str {
        Some(s.map_values(|j: Json| j->Str_0@))
    } else {
        None
    }
}

/// The text of member `key` of `j`, when it is a string.
pub open spec fn text_member(j: Json, key: Seq<char>) -> Option<Seq<char>> {
    text(member(j, key))
}

/// The texts of member `key` of `j`, when it is an array of strings.
pub open spec fn texts_member(j: Json, key: Seq<char>) -> Option<Seq<Seq<char>>> {
    match items(member(j, key)) {
        Some(s) => texts_of(s),
        None => None,
    }
}

/// `j` is an idea record: an object whose six fields are present, with
/// strings and a list of strings as their values.
pub open spec fn is_idea_record(j: Json) -> bool {
    &&& text_member(j, "product_name"@) is Some
    &&& text_member(j, "target_user"@) is Some
    &&& text_member(j, "core_problem"@) is Some
    &&& texts_member(j, "mvp_features"@) is Some
    &&& text_member(j, "monetization"@) is Some
    &&& text_member(j, "feasibility"@) is Some
}

/// `idea` holds what the record `j` holds.
pub open spec fn idea_of_record(idea: Idea, j: Json) -> bool {
    &&& text_member(j, "product_name"@) == Some(idea.product_name@)
    &&& text_member(j, "target_user"@) == Some(idea.target_user@)
    &&& text_member(j, "core_problem"@) == Some(idea.core_problem@)
    &&& texts_member(j, "mvp_features"@) == Some(views(idea.mvp_features@))
    &&& text_member(j, "monetization"@) == Some(idea.monetization@)
    &&& text_member(j, "feasibility"@) == Some(idea.feasibility@)
}

/// `j` is an array of idea records.
pub open spec fn is_idea_list(j: Option<Json>) -> bool {
    match items(j) {
        Some(s) => forall|i: int| 0 <= i < s.len() ==> is_idea_record(s[i]),
        None => false,
    }
}

fn text_field(j: &Json, key: &str) -> (r: Option<String>)
    ensures
        match r {
            Some(t) => text_member(*j, key@) == Some(t@),
            None => text_member(*j, key@) is None,
        },
{
    match as_text(get(Some(j), key)) {
        Some(t) => Some(t.clone()),
        None => None,
    }
}

fn texts_field(j: &Json, key: &str) -> (r: Option<Vec<String>>)
    ensures
        match r {
            Some(v) => texts_member(*j, key@) == Some(views(v@)),
            None => texts_member(*j, key@) is None,
        },
{
    let list = match as_items(get(Some(j), key)) {
        Some(l) => l,
        None => {
            return None;
        },
    };
    let mut out: Vec<String> = Vec::new();
    let mut i: usize = 0;
    while i < list.len()
        invariant
            items(member(*j, key@)) == Some(list@),
            i <= list@.len(),
            out@.len() == i,
            forall|k: int| 0 <= k < i ==> list@[k] is Str && out@[k]@ == list@[k]->Str_0@,
        decreases list.len() - i,
    {
        match &list[i] {
            Json::Str(t) => out.push(t.clone()),
            _ => {
                assert(!(list@[i as int] is Str));
                return None;
            },
        }
        i = i + 1;
    }
    assert(views(out@) =~= list@.map_values(|x: Json| x->Str_0@));
    Some(out)
}

/// Decodes one idea record.
pub fn idea_from_json(j: &Json) -> (r: Option<Idea>)
    ensures
        r is Some <==> is_idea_record(*j),
        r is Some ==> idea_of_record(r->Some_0, *j),
{
    let product_name = match text_field(j, "product_name") {
        Some(t) => t,
        None => {
            return None;
        },
    };
    let target_user = match text_field(j, "target_user") {
        Some(t) => t,
        None => {
            return None;
        },
    };
    let core_problem = match text_field(j, "core_problem") {
        Some(t) => t,
        None => {
            return None;
        },
    };
    let mvp_features = match texts_field(j, "mvp_features") {
        Some(t) => t,
        None => {
            return None;
        },
    };
    let monetization = match text_field(j, "monetization") {
        Some(t) => t,
        None => {
            return None;
        },
    };
    let feasibility = match text_field(j, "feasibility") {
        Some(t) => t,
        None => {
            return None;
        },
    };
    Some(Idea { product_name, target_user, core_problem, mvp_features, monetization, feasibility })
}

/// Decodes an array of idea records; any other value, or any element that is
/// not a record, gives no ideas at all.
pub fn ideas_from_json(j: Option<&Json>) -> (r: Vec<Idea>)
    ensures
        is_idea_list(opt(j)) ==> r@.len() == items(opt(j))->Some_0.len() && forall|i: int|
            0 <= i < r@.len() ==> idea_of_record(#[trigger] r@[i], items(opt(j))->Some_0[i]),
        !is_idea_list(opt(j)) ==> r@.len() == 0,
{
    let list = match as_items(j) {
        Some(l) => l,
        None => {
            return Vec::new();
        },
    };
    let mut out: Vec<Idea> = Vec::new();
    let mut i: usize = 0;
    while i < list.len()
        invariant
            items(opt(j)) == Some(list@),
            i <= list@.len(),
            out@.len() == i,
            forall|k: int| 0 <= k < i ==> is_idea_record(list@[k]),
            forall|k: int| 0 <= k < i ==> idea_of_record(#[trigger] out@[k], list@[k]),
        decreases list.len() - i,
    {
        match idea_from_json(&list[i]) {
            Some(idea) => out.push(idea),
            None => {
                return Vec::new();
            },
        }
        i = i + 1;
    }
    out
}

} // verus!
