use vstd::prelude::*;

verus! {

/// How results are rendered.
#[derive(PartialEq, Eq, Structural, Clone, Copy, Debug)]
pub enum OutputFormat {
    Text,
    Json,
    Markdown,
}

/// One invocation of the tool.
pub enum Command {
    /// Analyse one post.
    Analyze { url: String, comments: usize, format: OutputFormat, save: Option<String> },
    /// Analyse the posts listed in a file, one URL per line.
    Batch { file: String, format: OutputFormat, save: Option<String> },
    /// Analyse a subreddit's hot posts.
    Subreddit {
        name: String,
        limit: usize,
        comments: usize,
        format: OutputFormat,
        save: Option<String>,
    },
    /// Sweep several subreddits, skipping failures, up to an optional cap on ideas.
    Multi {
        subreddits: String,
        limit: usize,
        comments: usize,
        max_ideas: Option<usize>,
        format: OutputFormat,
        save: Option<String>,
    },
}

/// The parsed command line.
pub struct Cli {
    pub command: Command,
}

} // verus!
