use vstd::prelude::*;

use crate::errors::AppError;
use crate::models::AnalysisResult;
use crate::text::{split, split_on, trim, trimmed, views};

verus! {

/// The URLs of a batch file: its lines trimmed, without blank lines and
/// `#` comments, in file order.
pub open spec fn batch_lines(lines: Seq<Seq<char>>) -> Seq<Seq<char>>
    decreases lines.len(),
{
    if lines.len() == 0 {
        Seq::empty()
    } else {
        let prev = batch_lines(lines.drop_last());
        let t = trimmed(lines.last());
        if t.len() > 0 && t[0] != '#' {
            prev.push(t)
        } else {
            prev
        }
    }
}

/// Reads the URLs out of a batch file's text.
pub fn batch_urls(content: &str) -> (r: Vec<String>)
    ensures
        views(r@) == batch_lines(split_on(content@, '\n')),
{
    let lines = split(content, '\n');
    let mut out: Vec<String> = Vec::new();
    let mut i: usize = 0;
    assert(views(lines@).take(0) =~= Seq::<Seq<char>>::empty());
    assert(views(out@) =~= Seq::<Seq<char>>::empty());
    while i < lines.len()
        invariant
            i <= lines@.len(),
            views(lines@) == split_on(content@, '\n'),
            views(out@) == batch_lines(views(lines@).take(i as int)),
        decreases lines.len() - i,
    {
        assert(views(lines@).take(i + 1).drop_last() =~= views(lines@).take(i as int));
        assert(views(lines@).take(i + 1).last() == lines@[i as int]@);
        let t = trim(lines[i].as_str());
        let keep = if t.as_str().is_empty() {
            false
        } else {
            t.as_str().get_char(0) != '#'
        };
        if keep {
            out.push(t);
        }
        assert(views(out@) =~= batch_lines(views(lines@).take(i + 1)));
        i = i + 1;
    }
    assert(views(lines@).take(i as int) =~= views(lines@));
    out
}

/// The pieces of a comma-separated list, trimmed, without empty ones.
pub open spec fn name_list(pieces: Seq<Seq<char>>) -> Seq<Seq<char>>
    decreases pieces.len(),
{
    if pieces.len() == 0 {
        Seq::empty()
    } else {
        let prev = name_list(pieces.drop_last());
        let t = trimmed(pieces.last());
        if t.len() > 0 {
            prev.push(t)
        } else {
            prev
        }
    }
}

/// Reads subreddit names out of a comma-separated list.
pub fn subreddit_names(list: &str) -> (r: Vec<String>)
    ensures
        views(r@) == name_list(split_on(list@, ',')),
{
    let pieces = split(list, ',');
    let mut out: Vec<String> = Vec::new();
    let mut i: usize = 0;
    assert(views(pieces@).take(0) =~= Seq::<Seq<char>>::empty());
    assert(views(out@) =~= Seq::<Seq<char>>::empty());
    while i < pieces.len()
        invariant
            i <= pieces@.len(),
            views(pieces@) == split_on(list@, ','),
            views(out@) == name_list(views(pieces@).take(i as int)),
        decreases pieces.len() - i,
    {
        assert(views(pieces@).take(i + 1).drop_last() =~= views(pieces@).take(i as int));
        assert(views(pieces@).take(i + 1).last() == pieces@[i as int]@);
        let t = trim(pieces[i].as_str());
        if !t.as_str().is_empty() {
            out.push(t);
        }
        assert(views(out@) =~= name_list(views(pieces@).take(i + 1)));
        i = i + 1;
    }
    assert(views(pieces@).take(i as int) =~= views(pieces@));
    out
}


/// The running totals of a sweep across subreddits.
#[derive(Clone, Copy)]
pub struct RunTotals {
    pub subreddits_processed: usize,
    pub posts_analyzed: usize,
    pub ideas_generated: usize,
    pub posts_failed: usize,
}

/// What the sweep waits for.
#[derive(PartialEq, Eq, Structural, Clone, Copy)]
pub enum Awaiting {
    /// The list of post URLs of the current subreddit.
    Listing,
    /// The analysis of the current post.
    Analysis,
    /// Nothing: the sweep is over.
    Nothing,
}

/// What the driver of a sweep is to do next.
pub enum SweepAction {
    /// Fetch the hot-post URLs of this subreddit.
    Fetch(String),
    /// Analyse the post at `url`, found in `subreddit`.
    Analyze { subreddit: String, url: String },
    /// Stop: the sweep is over.
    Done,
}

/// The state of a sweep, as the contracts see it.
pub struct SweepView {
    pub names: Seq<Seq<char>>,
    pub max_ideas: Option<usize>,
    /// The position of the current subreddit.
    pub sub: int,
    /// The post URLs of the current subreddit.
    pub urls: Seq<Seq<char>>,
    /// The position of the current post among them.
    pub pos: int,
    pub totals: RunTotals,
    pub awaiting: Awaiting,
    pub results: Seq<AnalysisResult>,
}

/// What an action asks for, as the contracts see it.
pub open spec fn action_is(a: SweepAction, fetch: Option<Seq<char>>, analyze: Option<(Seq<char>, Seq<char>)>) -> bool {
    match a {
        SweepAction::Fetch(n) => fetch == Some(n@) && analyze is None,
        SweepAction::Analyze { subreddit, url } => fetch is None && analyze == Some(
            (subreddit@, url@),
        ),
        SweepAction::Done => fetch is None && analyze is None,
    }
}

/// The state after moving on from the current position: to the next post of
/// the current subreddit, else to the next subreddit (counting it), else to
/// the end.
pub open spec fn moved_on(v: SweepView) -> SweepView {
    if v.pos < v.urls.len() {
        SweepView { awaiting: Awaiting::Analysis, ..v }
    } else if v.sub + 1 < v.names.len() {
        SweepView {
            sub: v.sub + 1,
            urls: Seq::empty(),
            pos: 0,
            totals: RunTotals {
                subreddits_processed: v.totals.subreddits_processed.saturating_add(1),
                ..v.totals
            },
            awaiting: Awaiting::Listing,
            ..v
        }
    } else {
        SweepView { awaiting: Awaiting::Nothing, ..v }
    }
}

/// The action that a state asks for.
pub open spec fn action_of(a: SweepAction, v: SweepView) -> bool {
    match v.awaiting {
        Awaiting::Listing => action_is(a, Some(v.names[v.sub]), None),
        Awaiting::Analysis => action_is(a, None, Some((v.names[v.sub], v.urls[v.pos]))),
        Awaiting::Nothing => action_is(a, None, None),
    }
}

/// The cap on ideas is set and reached.
pub open spec fn cap_reached(max_ideas: Option<usize>, ideas: usize) -> bool {
    match max_ideas {
        Some(m) => ideas >= m,
        None => false,
    }
}

/// A sweep across subreddits: a failed subreddit or post is counted and
/// skipped, and the sweep stops as soon as the cap on ideas is reached.
pub struct Sweep {
    names: Vec<String>,
    max_ideas: Option<usize>,
    sub: usize,
    urls: Vec<String>,
    pos: usize,
    totals: RunTotals,
    awaiting: Awaiting,
    results: Vec<AnalysisResult>,
}

impl View for Sweep {
    type V = SweepView;

    closed spec fn view(&self) -> SweepView {
        SweepView {
            names: views(self.names@),
            max_ideas: self.max_ideas,
            sub: self.sub as int,
            urls: views(self.urls@),
            pos: self.pos as int,
            totals: self.totals,
            awaiting: self.awaiting,
            results: self.results@,
        }
    }
}

impl Sweep {
    /// The positions are within the lists.
    pub open spec fn wf(&self) -> bool {
        &&& 0 <= self@.sub < self@.names.len()
        &&& 0 <= self@.pos <= self@.urls.len()
        &&& self@.awaiting == Awaiting::Analysis ==> self@.pos < self@.urls.len()
    }

    /// Prepares a sweep over the subreddits named in a comma-separated list,
    /// with an optional cap on the ideas generated.
    pub fn new(list: &str, max_ideas: Option<usize>) -> (r: Result<Sweep, AppError>)
        ensures
            name_list(split_on(list@, ',')).len() == 0 <==> r is Err,
            r is Err ==> r->Err_0 is InvalidInput && r->Err_0.message_spec()
                == "No valid subreddit names provided"@,
            r is Ok ==> {
                let v = r->Ok_0@;
                &&& r->Ok_0.wf()
                &&& v.names == name_list(split_on(list@, ','))
                &&& v.max_ideas == max_ideas
                &&& v.sub == 0
                &&& v.urls.len() == 0
                &&& v.pos == 0
                &&& v.totals == RunTotals {
                    subreddits_processed: 1,
                    posts_analyzed: 0,
                    ideas_generated: 0,
                    posts_failed: 0,
                }
                &&& v.awaiting == Awaiting::Listing
                &&& v.results.len() == 0
            },
    {
        let names = subreddit_names(list);
        if names.len() == 0 {
            return Err(
                AppError::InvalidInput(String::from_str("No valid subreddit names provided")),
            );
        }
        let r = Sweep {
            names,
            max_ideas,
            sub: 0,
            urls: Vec::new(),
            pos: 0,
            totals: RunTotals {
                subreddits_processed: 1,
                posts_analyzed: 0,
                ideas_generated: 0,
                posts_failed: 0,
            },
            awaiting: Awaiting::Listing,
            results: Vec::new(),
        };
        assert(r@.urls =~= Seq::<Seq<char>>::empty());
        Ok(r)
    }

    /// What to do now.
    pub fn action(&self) -> (r: SweepAction)
        requires
            self.wf(),
        ensures
            action_of(r, self@),
    {
        match self.awaiting {
            Awaiting::Listing => SweepAction::Fetch(self.names[self.sub].clone()),
            Awaiting::Analysis => SweepAction::Analyze {
                subreddit: self.names[self.sub].clone(),
                url: self.urls[self.pos].clone(),
            },
            Awaiting::Nothing => SweepAction::Done,
        }
    }

    /// The running totals.
    pub fn totals(&self) -> (r: RunTotals)
        ensures
            r == self@.totals,
    {
        self.totals
    }

    /// The analyses so far, in the order the posts were processed.
    pub fn into_results(self) -> (r: Vec<AnalysisResult>)
        ensures
            r@ == self@.results,
    {
        self.results
    }

    fn move_on(&mut self)
        requires
            0 <= old(self)@.sub < old(self)@.names.len(),
            0 <= old(self)@.pos <= old(self)@.urls.len(),
        ensures
            final(self)@ == moved_on(old(self)@),
            final(self).wf(),
    {
        if self.pos < self.urls.len() {
            self.awaiting = Awaiting::Analysis;
        } else if self.sub < self.names.len() - 1 {
            self.sub = self.sub + 1;
            self.urls = Vec::new();
            self.pos = 0;
            self.totals.subreddits_processed = self.totals.subreddits_processed.saturating_add(1);
            self.awaiting = Awaiting::Listing;
            assert(self@.urls =~= Seq::<Seq<char>>::empty());
        } else {
            self.awaiting = Awaiting::Nothing;
        }
    }

    /// Takes the current subreddit's post URLs, or the failure to fetch them
    /// (which skips the subreddit), and moves on.
    pub fn on_listing(&mut self, listing: Result<Vec<String>, AppError>)
        requires
            old(self).wf(),
            old(self)@.awaiting == Awaiting::Listing,
        ensures
            final(self).wf(),
            final(self)@ == moved_on(
                SweepView {
                    urls: match listing {
                        Ok(u) => views(u@),
                        Err(_) => Seq::empty(),
                    },
                    pos: 0,
                    ..old(self)@
                },
            ),
    {
        match listing {
            Ok(u) => {
                self.urls = u;
            },
            Err(_) => {
                self.urls = Vec::new();
                assert(self@.urls =~= Seq::<Seq<char>>::empty());
            },
        }
        self.pos = 0;
        self.move_on();
    }

    /// Takes the current post's analysis, or its failure, updates the totals,
    /// and moves on; the sweep ends at once when the cap on ideas is reached.
    pub fn on_post(&mut self, outcome: Result<AnalysisResult, AppError>)
        requires
            old(self).wf(),
            old(self)@.awaiting == Awaiting::Analysis,
        ensures
            final(self).wf(),
            match outcome {
                Ok(res) => {
                    let ideas = old(self)@.totals.ideas_generated.saturating_add(
                        res.ideas@.len() as usize,
                    );
                    let counted = SweepView {
                        totals: RunTotals {
                            posts_analyzed: old(self)@.totals.posts_analyzed.saturating_add(1),
                            ideas_generated: ideas,
                            ..old(self)@.totals
                        },
                        results: old(self)@.results.push(res),
                        ..old(self)@
                    };
                    if cap_reached(old(self)@.max_ideas, ideas) {
                        final(self)@ == SweepView { awaiting: Awaiting::Nothing, ..counted }
                    } else {
                        final(self)@ == moved_on(SweepView { pos: counted.pos + 1, ..counted })
                    }
                },
                Err(_) => final(self)@ == moved_on(
                    SweepView {
                        totals: RunTotals {
                            posts_failed: old(self)@.totals.posts_failed.saturating_add(1),
                            ..old(self)@.totals
                        },
                        pos: old(self)@.pos + 1,
                        ..old(self)@
                    },
                ),
            },
    {
        assert(self@.urls.len() == self.urls@.len());
        assert(self.pos < self.urls.len());
        match outcome {
            Ok(res) => {
                let n = res.ideas.len();
                self.totals.posts_analyzed = self.totals.posts_analyzed.saturating_add(1);
                self.totals.ideas_generated = self.totals.ideas_generated.saturating_add(n);
                self.results.push(res);
                let reached = match self.max_ideas {
                    Some(m) => self.totals.ideas_generated >= m,
                    None => false,
                };
                if reached {
                    self.awaiting = Awaiting::Nothing;
                    return;
                }
                self.pos = self.pos + 1;
                self.move_on();
            },
            Err(_) => {
                self.totals.posts_failed = self.totals.posts_failed.saturating_add(1);
                self.pos = self.pos + 1;
                self.move_on();
            },
        }
    }
}

} // verus!
