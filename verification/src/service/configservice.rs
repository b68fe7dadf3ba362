use vstd::prelude::*;
use vstd::string::StringExecFns;

verus! {

/// What the application keeps between its runs: the code of the language in
/// use.
#[derive(Clone, Debug, PartialEq, Eq)]
pub struct AppConfig {
    pub lang: String,
}

impl Default for AppConfig {
    /// The configuration of a first run: English.
    fn default() -> (cfg: Self)
        ensures
            cfg.lang@ == "en"@,
    {
        AppConfig { lang: String::from_str("en") }
    }
}

} // verus!
