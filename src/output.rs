use vstd::prelude::*;

use crate::cli::OutputFormat;
use crate::gemini::{json_string, json_string_of};
use crate::models::{AnalysisResult, Idea};
use crate::text::{decimal, decimal_string};

verus! {

/// The rule between two results in plain text.
pub const TEXT_RULE: &'static str = "\n\u{2550}\u{2550}\u{2550}\u{2550}\u{2550}\u{2550}\u{2550}\u{2550}\u{2550}\u{2550}\u{2550}\u{2550}\u{2550}\u{2550}\u{2550}\u{2550}\u{2550}\u{2550}\u{2550}\u{2550}\u{2550}\u{2550}\u{2550}\u{2550}\u{2550}\u{2550}\u{2550}\u{2550}\u{2550}\u{2550}\u{2550}\u{2550}\u{2550}\u{2550}\u{2550}\u{2550}\u{2550}\u{2550}\u{2550}\u{2550}\n\n";

/// One result in plain text.
pub open spec fn text_block(r: AnalysisResult) -> Seq<char> {
    "URL: "@ + r.url@ + "\n"@ + "Title: "@ + r.title@ + "\n\n"@ + "Ideas:\n"@ + r.ideas_text@
        + "\n"@
}

/// The results in plain text, separated by rules.
pub open spec fn text_of(rs: Seq<AnalysisResult>) -> Seq<char>
    decreases rs.len(),
{
    if rs.len() == 0 {
        Seq::empty()
    } else {
        let sep = if rs.len() > 1 {
            TEXT_RULE@
        } else {
            Seq::empty()
        };
        text_of(rs.drop_last()) + sep + text_block(rs.last())
    }
}

/// The `n`-th result (counting from one) in Markdown.
pub open spec fn markdown_block(n: nat, r: AnalysisResult) -> Seq<char> {
    "## Post "@ + decimal(n) + "\n\n"@ + "**URL:** "@ + r.url@ + "\n\n"@ + "**Title:** "@
        + r.title@ + "\n\n"@ + "### Ideas\n\n"@ + r.ideas_text@ + "\n\n"@
}

/// The Markdown blocks of the results, separated by rules.
pub open spec fn markdown_blocks(rs: Seq<AnalysisResult>) -> Seq<char>
    decreases rs.len(),
{
    if rs.len() == 0 {
        Seq::empty()
    } else {
        let sep = if rs.len() > 1 {
            "---\n\n"@
        } else {
            Seq::empty()
        };
        markdown_blocks(rs.drop_last()) + sep + markdown_block(rs.len(), rs.last())
    }
}

/// The results as a Markdown document.
pub open spec fn markdown_of(rs: Seq<AnalysisResult>) -> Seq<char> {
    "# Reddit Startup Analysis\n\n"@ + markdown_blocks(rs)
}

/// Renders the results as plain text.
pub fn format_text(results: &Vec<AnalysisResult>) -> (r: String)
    ensures
        r@ == text_of(results@),
{
    let mut out = String::new();
    let mut i: usize = 0;
    assert(results@.take(0) =~= Seq::<AnalysisResult>::empty());
    while i < results.len()
        invariant
            i <= results@.len(),
            out@ == text_of(results@.take(i as int)),
        decreases results.len() - i,
    {
        assert(results@.take(i + 1).drop_last() =~= results@.take(i as int));
        assert(results@.take(i + 1).last() == results@[i as int]);
        if i > 0 {
            out.append(TEXT_RULE);
        }
        let ghost with_sep = out@;
        let r = &results[i];
        out.append("URL: ");
        out.append(r.url.as_str());
        out.append("\n");
        out.append("Title: ");
        out.append(r.title.as_str());
        out.append("\n\n");
        out.append("Ideas:\n");
        out.append(r.ideas_text.as_str());
        out.append("\n");
        assert(out@ =~= with_sep + text_block(results@[i as int]));
        assert(out@ =~= text_of(results@.take(i + 1)));
        i = i + 1;
    }
    assert(results@.take(i as int) =~= results@);
    out
}

/// Renders the results as a Markdown document, numbering the posts from one.
pub fn format_markdown(results: &Vec<AnalysisResult>) -> (r: String)
    ensures
        r@ == markdown_of(results@),
{
    let mut out = String::from_str("# Reddit Startup Analysis\n\n");
    let ghost head = out@;
    let mut i: usize = 0;
    assert(results@.take(0) =~= Seq::<AnalysisResult>::empty());
    assert(out@ =~= head + markdown_blocks(results@.take(0)));
    while i < results.len()
        invariant
            i <= results@.len(),
            head == "# Reddit Startup Analysis\n\n"@,
            out@ == head + markdown_blocks(results@.take(i as int)),
        decreases results.len() - i,
    {
        assert(results@.take(i + 1).drop_last() =~= results@.take(i as int));
        assert(results@.take(i + 1).last() == results@[i as int]);
        let ghost before = out@;
        if i > 0 {
            out.append("---\n\n");
        }
        let ghost with_sep = out@;
        let r = &results[i];
        out.append("## Post ");
        let n = decimal_string(i + 1);
        out.append(n.as_str());
        out.append("\n\n");
        out.append("**URL:** ");
        out.append(r.url.as_str());
        out.append("\n\n");
        out.append("**Title:** ");
        out.append(r.title.as_str());
        out.append("\n\n");
        out.append("### Ideas\n\n");
        out.append(r.ideas_text.as_str());
        out.append("\n\n");
        assert(out@ =~= with_sep + markdown_block((i + 1) as nat, results@[i as int]));
        assert(out@ =~= head + markdown_blocks(results@.take(i + 1)));
        i = i + 1;
    }
    assert(results@.take(i as int) =~= results@);
    out
}


/// A list rendered as a pretty JSON array of `items` at an indentation of
/// `close` for its closing bracket: `[]` when empty.
pub open spec fn json_array(len: nat, items: Seq<char>, close: Seq<char>) -> Seq<char> {
    if len == 0 {
        "[]"@
    } else {
        "[\n"@ + items + "\n"@ + close + "]"@
    }
}

/// The features of an idea as the items of a pretty JSON array.
pub open spec fn feature_items(f: Seq<String>) -> Seq<char>
    decreases f.len(),
{
    if f.len() == 0 {
        Seq::empty()
    } else {
        let sep = if f.len() > 1 {
            ",\n"@
        } else {
            Seq::empty()
        };
        feature_items(f.drop_last()) + sep + "          "@ + json_string_of(f.last()@)
    }
}

/// An idea as a pretty JSON object, at the depth of an idea in the output.
pub open spec fn idea_json(i: Idea) -> Seq<char> {
    "      {\n"@ + "        \"product_name\": "@ + json_string_of(i.product_name@) + ",\n"@
        + "        \"target_user\": "@ + json_string_of(i.target_user@) + ",\n"@
        + "        \"core_problem\": "@ + json_string_of(i.core_problem@) + ",\n"@
        + "        \"mvp_features\": "@ + json_array(
        i.mvp_features@.len(),
        feature_items(i.mvp_features@),
        "        "@,
    ) + ",\n"@ + "        \"monetization\": "@ + json_string_of(i.monetization@) + ",\n"@
        + "        \"feasibility\": "@ + json_string_of(i.feasibility@) + "\n"@ + "      }"@
}

/// The ideas as the items of a pretty JSON array.
pub open spec fn idea_items(ideas: Seq<Idea>) -> Seq<char>
    decreases ideas.len(),
{
    if ideas.len() == 0 {
        Seq::empty()
    } else {
        let sep = if ideas.len() > 1 {
            ",\n"@
        } else {
            Seq::empty()
        };
        idea_items(ideas.drop_last()) + sep + idea_json(ideas.last())
    }
}

/// A result as a pretty JSON object.
pub open spec fn result_json(r: AnalysisResult) -> Seq<char> {
    "  {\n"@ + "    \"url\": "@ + json_string_of(r.url@) + ",\n"@ + "    \"title\": "@
        + json_string_of(r.title@) + ",\n"@ + "    \"ideas_text\": "@ + json_string_of(
        r.ideas_text@,
    ) + ",\n"@ + "    \"ideas\": "@ + json_array(r.ideas@.len(), idea_items(r.ideas@), "    "@)
        + "\n"@ + "  }"@
}

/// The results as the items of a pretty JSON array.
pub open spec fn result_items(rs: Seq<AnalysisResult>) -> Seq<char>
    decreases rs.len(),
{
    if rs.len() == 0 {
        Seq::empty()
    } else {
        let sep = if rs.len() > 1 {
            ",\n"@
        } else {
            Seq::empty()
        };
        result_items(rs.drop_last()) + sep + result_json(rs.last())
    }
}

/// The results as a pretty JSON document, indented by two spaces per level.
pub open spec fn json_of(rs: Seq<AnalysisResult>) -> Seq<char> {
    json_array(rs.len(), result_items(rs), Seq::empty())
}

fn push_quoted(out: &mut String, value: &str)
    ensures
        final(out)@ == old(out)@ + json_string_of(value@),
{
    let q = json_string(value);
    out.append(q.as_str());
}

fn push_field(out: &mut String, prefix: &str, value: &str, suffix: &str)
    ensures
        final(out)@ == old(out)@ + prefix@ + json_string_of(value@) + suffix@,
{
    out.append(prefix);
    push_quoted(out, value);
    out.append(suffix);
}

fn push_features_json(out: &mut String, f: &Vec<String>)
    ensures
        final(out)@ == old(out)@ + json_array(f@.len(), feature_items(f@), "        "@),
{
    if f.len() == 0 {
        out.append("[]");
        return;
    }
    let ghost start = out@;
    out.append("[\n");
    let ghost open = out@;
    let mut i: usize = 0;
    assert(f@.take(0) =~= Seq::<String>::empty());
    assert(out@ =~= open + feature_items(f@.take(0)));
    while i < f.len()
        invariant
            i <= f@.len(),
            open == start + "[\n"@,
            out@ == open + feature_items(f@.take(i as int)),
        decreases f.len() - i,
    {
        assert(f@.take(i + 1).drop_last() =~= f@.take(i as int));
        assert(f@.take(i + 1).last() == f@[i as int]);
        let ghost before = out@;
        if i > 0 {
            out.append(",\n");
        }
        out.append("          ");
        push_quoted(out, f[i].as_str());
        assert(out@ =~= open + feature_items(f@.take(i + 1)));
        i = i + 1;
    }
    assert(f@.take(i as int) =~= f@);
    out.append("\n");
    out.append("        ");
    out.append("]");
    assert(out@ =~= start + json_array(f@.len(), feature_items(f@), "        "@));
}

fn push_idea_json(out: &mut String, idea: &Idea)
    ensures
        final(out)@ == old(out)@ + idea_json(*idea),
{
    let ghost start = out@;
    out.append("      {\n");
    push_field(out, "        \"product_name\": ", idea.product_name.as_str(), ",\n");
    push_field(out, "        \"target_user\": ", idea.target_user.as_str(), ",\n");
    push_field(out, "        \"core_problem\": ", idea.core_problem.as_str(), ",\n");
    out.append("        \"mvp_features\": ");
    push_features_json(out, &idea.mvp_features);
    out.append(",\n");
    push_field(out, "        \"monetization\": ", idea.monetization.as_str(), ",\n");
    push_field(out, "        \"feasibility\": ", idea.feasibility.as_str(), "\n");
    out.append("      }");
    assert(out@ =~= start + idea_json(*idea));
}

fn push_ideas_json(out: &mut String, ideas: &Vec<Idea>)
    ensures
        final(out)@ == old(out)@ + json_array(ideas@.len(), idea_items(ideas@), "    "@),
{
    if ideas.len() == 0 {
        out.append("[]");
        return;
    }
    let ghost start = out@;
    out.append("[\n");
    let ghost open = out@;
    let mut i: usize = 0;
    assert(ideas@.take(0) =~= Seq::<Idea>::empty());
    assert(out@ =~= open + idea_items(ideas@.take(0)));
    while i < ideas.len()
        invariant
            i <= ideas@.len(),
            open == start + "[\n"@,
            out@ == open + idea_items(ideas@.take(i as int)),
        decreases ideas.len() - i,
    {
        assert(ideas@.take(i + 1).drop_last() =~= ideas@.take(i as int));
        assert(ideas@.take(i + 1).last() == ideas@[i as int]);
        if i > 0 {
            out.append(",\n");
        }
        push_idea_json(out, &ideas[i]);
        assert(out@ =~= open + idea_items(ideas@.take(i + 1)));
        i = i + 1;
    }
    assert(ideas@.take(i as int) =~= ideas@);
    out.append("\n");
    out.append("    ");
    out.append("]");
    assert(out@ =~= start + json_array(ideas@.len(), idea_items(ideas@), "    "@));
}

fn push_result_json(out: &mut String, r: &AnalysisResult)
    ensures
        final(out)@ == old(out)@ + result_json(*r),
{
    let ghost start = out@;
    out.append("  {\n");
    push_field(out, "    \"url\": ", r.url.as_str(), ",\n");
    push_field(out, "    \"title\": ", r.title.as_str(), ",\n");
    push_field(out, "    \"ideas_text\": ", r.ideas_text.as_str(), ",\n");
    out.append("    \"ideas\": ");
    push_ideas_json(out, &r.ideas);
    out.append("\n");
    out.append("  }");
    assert(out@ =~= start + result_json(*r));
}

/// Renders the results as pretty-printed JSON, fields in declaration order.
pub fn format_json(results: &Vec<AnalysisResult>) -> (r: String)
    ensures
        r@ == json_of(results@),
{
    let mut out = String::new();
    if results.len() == 0 {
        out.append("[]");
        return out;
    }
    out.append("[\n");
    let ghost open = out@;
    let mut i: usize = 0;
    assert(results@.take(0) =~= Seq::<AnalysisResult>::empty());
    assert(out@ =~= open + result_items(results@.take(0)));
    while i < results.len()
        invariant
            i <= results@.len(),
            open == "[\n"@,
            out@ == open + result_items(results@.take(i as int)),
        decreases results.len() - i,
    {
        assert(results@.take(i + 1).drop_last() =~= results@.take(i as int));
        assert(results@.take(i + 1).last() == results@[i as int]);
        if i > 0 {
            out.append(",\n");
        }
        push_result_json(&mut out, &results[i]);
        assert(out@ =~= open + result_items(results@.take(i + 1)));
        i = i + 1;
    }
    assert(results@.take(i as int) =~= results@);
    out.append("\n");
    out.append("]");
    assert(out@ =~= json_of(results@));
    out
}

/// The results in the chosen format.
pub open spec fn rendered(rs: Seq<AnalysisResult>, format: OutputFormat) -> Seq<char> {
    match format {
        OutputFormat::Text => text_of(rs),
        OutputFormat::Json => json_of(rs),
        OutputFormat::Markdown => markdown_of(rs),
    }
}

/// Renders the results in the chosen format.
pub fn format_results(results: &Vec<AnalysisResult>, format: &OutputFormat) -> (r: String)
    ensures
        r@ == rendered(results@, *format),
{
    match format {
        OutputFormat::Text => format_text(results),
        OutputFormat::Json => format_json(results),
        OutputFormat::Markdown => format_markdown(results),
    }
}

} // verus!
