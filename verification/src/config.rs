use vstd::prelude::*;

verus! {

/// The user-tunable settings.  Loading and saving them is the shell's
/// business; the defaults live here.
pub struct Config {
    pub gemini_api_key: Option<String>,
    pub bitwarden_server: Option<String>,
    pub bitwarden_email: Option<String>,
    pub clipboard_history_size: Option<usize>,
    pub max_recent_files: Option<usize>,
}

impl Config {
    /// The configuration file under the configuration directory.
    pub fn config_path(base_dir: &str) -> (r: String)
        ensures
            r@ == base_dir@ + "/config.json"@,
    {
        String::from_str(base_dir).concat("/config.json")
    }

    /// The scripts directory under the configuration directory.
    pub fn scripts_dir(base_dir: &str) -> (r: String)
        ensures
            r@ == base_dir@ + "/scripts"@,
    {
        String::from_str(base_dir).concat("/scripts")
    }

    /// A data file under the configuration directory.
    pub fn data_path(base_dir: &str, name: &str) -> (r: String)
        ensures
            r@ == base_dir@ + "/"@ + name@,
    {
        String::from_str(base_dir).concat("/").concat(name)
    }

    /// How many clipboard entries to keep (fifty unless configured).
    pub fn clipboard_history_size(&self) -> (r: usize)
        ensures
            r == self.clipboard_history_size.unwrap_or(50),
    {
        match self.clipboard_history_size {
            Some(n) => n,
            None => 50,
        }
    }

    /// How many recent files to keep (a hundred unless configured).
    pub fn max_recent_files(&self) -> (r: usize)
        ensures
            r == self.max_recent_files.unwrap_or(100),
    {
        match self.max_recent_files {
            Some(n) => n,
            None => 100,
        }
    }
}

impl Default for Config {
    fn default() -> (r: Config)
        ensures
            r.gemini_api_key is None,
            r.bitwarden_server is None,
            r.bitwarden_email is None,
            r.clipboard_history_size is None,
            r.max_recent_files is None,
    {
        Config {
            gemini_api_key: None,
            bitwarden_server: None,
            bitwarden_email: None,
            clipboard_history_size: None,
            max_recent_files: None,
        }
    }
}

} // verus!
