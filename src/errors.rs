use vstd::prelude::*;

verus! {

/// The error taxonomy of a run.
pub enum AppError {
    /// A malformed or non-post URL, or an empty list of subreddit names.
    InvalidInput(String),
    /// Any Reddit or model-provider transport, status or decoding failure.
    ExternalService(String),
    /// A local file could not be read or written.
    Io(String),
    /// The spreadsheet export failed; callers only ever report it.
    SheetsExport(String),
}

impl AppError {
    /// The text of the error as shown to a user.
    pub fn message(&self) -> (r: String)
        ensures
            r@ == self.message_spec(),
    {
        match self {
            AppError::InvalidInput(m) => m.clone(),
            AppError::ExternalService(m) => m.clone(),
            AppError::Io(m) => m.clone(),
            AppError::SheetsExport(m) => {
                let mut r = String::from_str("Sheets export: ");
                r.append(m.as_str());
                r
            },
        }
    }

    pub open spec fn message_spec(&self) -> Seq<char> {
        match self {
            AppError::InvalidInput(m) => m@,
            AppError::ExternalService(m) => m@,
            AppError::Io(m) => m@,
            AppError::SheetsExport(m) => "Sheets export: "@ + m@,
        }
    }
}

} // verus!
