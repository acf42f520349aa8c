use vstd::prelude::*;

verus! {

/// The settings a run reads from its environment.
pub struct AppConfig {
    pub gemini_api_key: String,
    pub google_sheet_id: Option<String>,
    pub google_credentials_path: Option<String>,
}

impl AppConfig {
    /// Export is on when both the sheet id and the credentials path are set.
    pub open spec fn sheets_enabled_spec(&self) -> bool {
        self.google_sheet_id is Some && self.google_credentials_path is Some
    }

    /// Whether spreadsheet export is configured.
    pub fn sheets_enabled(&self) -> (r: bool)
        ensures
            r == self.sheets_enabled_spec(),
    {
        self.google_sheet_id.is_some() && self.google_credentials_path.is_some()
    }
}

} // verus!
