//! Process-wide settings, resolved from the raw values of their variables.
use vstd::prelude::*;
use vstd::string::*;

verus! {

/// The address the service listens on when none is configured.
pub open spec fn default_host() -> Seq<char> {
    "127.0.0.1:8000"@
}

/// Resolved process-wide settings.
#[derive(Debug, Clone)]
pub struct Settings {
    pub app_host: String,
    pub use_complete_isolation: bool,
}

impl Settings {
    /// Resolves the settings from the raw values of the host and isolation
    /// variables, `None` where a variable is unset. The host defaults to
    /// `127.0.0.1:8000`; complete isolation is on exactly when its value is
    /// the boolean literal `true`, and off when unset or unparsable.
    pub fn from_values(app_host: Option<String>, complete_isolation: Option<String>) -> (r: Settings)
        ensures
            r.app_host@ == (match app_host {
                Some(h) => h@,
                None => default_host(),
            }),
            r.use_complete_isolation == (complete_isolation is Some && complete_isolation->Some_0@ == "true"@),
    {
        let host = match app_host {
            Some(h) => h,
            None => String::from_str("127.0.0.1:8000"),
        };
        let complete = match complete_isolation {
            Some(v) => v == String::from_str("true"),
            None => false,
        };
        Settings { app_host: host, use_complete_isolation: complete }
    }
}

} // verus!
