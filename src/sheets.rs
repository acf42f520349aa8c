use vstd::prelude::*;

use crate::config::AppConfig;
use crate::models::Idea;
use crate::text::views;

verus! {

/// The sheet range that rows are appended to: ten columns.
pub const SHEET_RANGE: &'static str = "Sheet1!A:J";

/// The features of an idea joined into one cell, separated by `; `.
pub open spec fn joined(f: Seq<Seq<char>>) -> Seq<char>
    decreases f.len(),
{
    if f.len() == 0 {
        Seq::empty()
    } else if f.len() == 1 {
        f[0]
    } else {
        joined(f.drop_last()) + "; "@ + f.last()
    }
}

/// Joins the features of an idea into one cell.
pub fn join_features(f: &Vec<String>) -> (r: String)
    ensures
        r@ == joined(views(f@)),
{
    let mut out = String::new();
    let mut i: usize = 0;
    assert(views(f@).take(0) =~= Seq::<Seq<char>>::empty());
    while i < f.len()
        invariant
            i <= f@.len(),
            out@ == joined(views(f@).take(i as int)),
        decreases f.len() - i,
    {
        assert(views(f@).take(i + 1).drop_last() =~= views(f@).take(i as int));
        if i > 0 {
            out.append("; ");
        }
        out.append(f[i].as_str());
        proof {
            if i == 0 {
                assert(out@ =~= views(f@).take(1)[0]);
            }
        }
        assert(out@ =~= joined(views(f@).take(i + 1)));
        i = i + 1;
    }
    assert(views(f@).take(i as int) =~= views(f@));
    out
}

/// The ten cells of an idea's row: time, subreddit, post URL, post title and
/// the idea's six fields.
pub open spec fn row_of(
    timestamp: Seq<char>,
    subreddit: Seq<char>,
    url: Seq<char>,
    title: Seq<char>,
    idea: Idea,
) -> Seq<Seq<char>> {
    seq![
        timestamp,
        subreddit,
        url,
        title,
        idea.product_name@,
        idea.target_user@,
        idea.core_problem@,
        joined(views(idea.mvp_features@)),
        idea.monetization@,
        idea.feasibility@,
    ]
}

/// One spreadsheet row per idea, in order.
pub fn sheet_rows(
    timestamp: &str,
    subreddit: &str,
    post_url: &str,
    post_title: &str,
    ideas: &Vec<Idea>,
) -> (r: Vec<Vec<String>>)
    ensures
        r@.len() == ideas@.len(),
        forall|i: int|
            0 <= i < r@.len() ==> views(#[trigger] r@[i]@) == row_of(
                timestamp@,
                subreddit@,
                post_url@,
                post_title@,
                ideas@[i],
            ),
{
    let mut rows: Vec<Vec<String>> = Vec::new();
    let mut i: usize = 0;
    while i < ideas.len()
        invariant
            i <= ideas@.len(),
            rows@.len() == i,
            forall|k: int|
                0 <= k < i ==> views(#[trigger] rows@[k]@) == row_of(
                    timestamp@,
                    subreddit@,
                    post_url@,
                    post_title@,
                    ideas@[k],
                ),
        decreases ideas.len() - i,
    {
        let idea = &ideas[i];
        let mut row: Vec<String> = Vec::new();
        row.push(String::from_str(timestamp));
        row.push(String::from_str(subreddit));
        row.push(String::from_str(post_url));
        row.push(String::from_str(post_title));
        row.push(idea.product_name.clone());
        row.push(idea.target_user.clone());
        row.push(idea.core_problem.clone());
        row.push(join_features(&idea.mvp_features));
        row.push(idea.monetization.clone());
        row.push(idea.feasibility.clone());
        assert(views(row@) =~= row_of(timestamp@, subreddit@, post_url@, post_title@, ideas@[i as int]));
        rows.push(row);
        i = i + 1;
    }
    rows
}

/// Whether a post's ideas are to be exported: export is configured and at
/// least one idea was parsed.
pub fn should_export(config: &AppConfig, ideas: &Vec<Idea>) -> (r: bool)
    ensures
        r == (config.sheets_enabled_spec() && ideas@.len() > 0),
{
    config.sheets_enabled() && ideas.len() > 0
}

} // verus!
