//! The persisted configuration record, its defaults, where it lives, and
//! what to do with whatever was found on disk.
use vstd::prelude::*;
use vstd::string::*;

verus! {

/// Name of the configuration file inside the configuration directory.
pub const CONFIG_FILE_NAME: &'static str = "ddrpc.toml";

/// Directory used when the host has no per-user configuration location.
pub const FALLBACK_DIR: &'static str = "./ddrpc/";

/// Suffix appended to the per-user configuration location.
pub const APP_DIR_SUFFIX: &'static str = "/ddrpc/";

/// Text shown when no watched process is running and none is configured.
pub const DEFAULT_IDLE_TEXT: &'static str = "Idle";

/// Icon shown when no watched process is running and none is configured.
pub const DEFAULT_IDLE_IMAGE: &'static str = "idle";

/// One watched executable and the presence it stands for.
pub struct ProcessConfig {
    pub name: String,
    pub text: String,
    pub image: String,
}

/// The ordered list of watched executables and the idle fallback.
pub struct ProcessesConfig {
    pub processes: Vec<ProcessConfig>,
    pub idle_text: String,
    pub idle_image: String,
}

/// Settings for the session with the chat client.
pub struct DiscordConfig {
    pub application_id: String,
}

/// The whole persisted record.
pub struct DConfig {
    pub discord: DiscordConfig,
    pub processes: ProcessesConfig,
}

pub open spec fn is_default_processes(p: ProcessesConfig) -> bool {
    &&& p.processes@.len() == 0
    &&& p.idle_text@ == DEFAULT_IDLE_TEXT@
    &&& p.idle_image@ == DEFAULT_IDLE_IMAGE@
}

pub open spec fn is_default_config(c: DConfig) -> bool {
    &&& c.discord.application_id@.len() == 0
    &&& is_default_processes(c.processes)
}

impl ProcessConfig {
    pub fn new(name: String, text: String, image: String) -> (r: ProcessConfig)
        ensures
            r.name == name,
            r.text == text,
            r.image == image,
    {
        ProcessConfig { name, text, image }
    }
}

impl Default for ProcessesConfig {
    fn default() -> (r: ProcessesConfig)
        ensures
            is_default_processes(r),
    {
        ProcessesConfig {
            processes: Vec::new(),
            idle_text: String::from_str(DEFAULT_IDLE_TEXT),
            idle_image: String::from_str(DEFAULT_IDLE_IMAGE),
        }
    }
}

impl Default for DConfig {
    fn default() -> (r: DConfig)
        ensures
            is_default_config(r),
    {
        DConfig {
            discord: DiscordConfig { application_id: String::new() },
            processes: ProcessesConfig::default(),
        }
    }
}

/// The configuration directory for a given per-user configuration location.
pub open spec fn dir_path_of(user_dir: Option<Seq<char>>) -> Seq<char> {
    match user_dir {
        Some(d) => d + APP_DIR_SUFFIX@,
        None => FALLBACK_DIR@,
    }
}

/// Relies on dirs::config_dir: the per-user configuration location, if the
/// host has one and it is valid UTF-8. It depends on the environment, so
/// nothing is promised of it.
#[verifier::external_body]
fn user_config_dir() -> (r: Option<String>) {
    dirs::config_dir().and_then(|path| path.to_str().map(|s| s.to_owned()))
}

/// The configuration directory (ending in a slash) under the given per-user
/// configuration location, or the relative fallback when there is none.
pub fn dir_path_from(user_dir: Option<String>) -> (r: String)
    ensures
        r@ == dir_path_of(
            match user_dir {
                Some(d) => Some(d@),
                None => None,
            },
        ),
{
    match user_dir {
        Some(d) => d.concat(APP_DIR_SUFFIX),
        None => String::from_str(FALLBACK_DIR),
    }
}

/// Whether `s` is a configuration directory that `dir_path_of` can give.
pub open spec fn is_config_dir(s: Seq<char>) -> bool {
    s == FALLBACK_DIR@ || exists|d: Seq<char>| s == #[trigger] dir_path_of(Some(d))
}

/// The configuration directory of this user, ending in a slash.
pub fn dir_path() -> (r: String)
    ensures
        is_config_dir(r@),
{
    let user_dir = user_config_dir();
    dir_path_from(user_dir)
}

/// The configuration file's path under the given per-user configuration
/// location: the directory that `dir_path_from` gives, then the file name.
pub fn file_path_from(user_dir: Option<String>) -> (r: String)
    ensures
        r@ == dir_path_of(
            match user_dir {
                Some(d) => Some(d@),
                None => None,
            },
        ) + CONFIG_FILE_NAME@,
{
    dir_path_from(user_dir).concat(CONFIG_FILE_NAME)
}

/// The path of the configuration file of this user.
pub fn file_path() -> (r: String)
    ensures
        exists|d: Option<Seq<char>>| r@ == #[trigger] dir_path_of(d) + CONFIG_FILE_NAME@,
{
    let user_dir = user_config_dir();
    let r = file_path_from(user_dir);
    assert(r@ == dir_path_of(
        match user_dir {
            Some(s) => Some(s@),
            None => None,
        },
    ) + CONFIG_FILE_NAME@);
    r
}

/// What was found where the configuration file should be.
pub enum StoredConfig {
    /// No file at the configuration path.
    Missing,
    /// A file exists but could not be read.
    Unreadable,
    /// A file was read but is not text, or its text does not match the schema.
    Invalid,
    /// A file was read and decoded.
    Valid(DConfig),
}

/// What to do about the stored configuration, and which record to go on with.
pub enum ConfigPlan {
    /// Go on with the stored record; the file stays as it is.
    Use(DConfig),
    /// Write this record to a new file, then go on with it.
    Create(DConfig),
    /// Delete the file, write this record in its place, then go on with it.
    Replace(DConfig),
    /// The configuration cannot be had: stop with a failure status.
    Fail,
}

/// Decides what to do with a file that was read: keep what decoded, or
/// replace a file that did not decode with a fresh default.
pub fn verify_config_integrity(decoded: Option<DConfig>) -> (r: ConfigPlan)
    ensures
        match decoded {
            Some(c) => r == ConfigPlan::Use(c),
            None => match r {
                ConfigPlan::Replace(c) => is_default_config(c),
                _ => false,
            },
        },
{
    match decoded {
        Some(c) => ConfigPlan::Use(c),
        None => ConfigPlan::Replace(DConfig::default()),
    }
}

/// Decides how to obtain the configuration from what was found on disk:
/// a missing file is created with the defaults, an invalid one is replaced
/// by them, a valid one is used as it is, and an unreadable one is fatal.
pub fn initialize_config(stored: StoredConfig) -> (r: ConfigPlan)
    ensures
        match stored {
            StoredConfig::Missing => match r {
                ConfigPlan::Create(c) => is_default_config(c),
                _ => false,
            },
            StoredConfig::Unreadable => r == ConfigPlan::Fail,
            StoredConfig::Invalid => match r {
                ConfigPlan::Replace(c) => is_default_config(c),
                _ => false,
            },
            StoredConfig::Valid(c) => r == ConfigPlan::Use(c),
        },
{
    match stored {
        StoredConfig::Missing => ConfigPlan::Create(DConfig::default()),
        StoredConfig::Unreadable => ConfigPlan::Fail,
        StoredConfig::Invalid => verify_config_integrity(None),
        StoredConfig::Valid(c) => verify_config_integrity(Some(c)),
    }
}

impl ConfigPlan {
    /// The record to go on with, if there is one.
    pub fn into_config(self) -> (r: Option<DConfig>)
        ensures
            match self {
                ConfigPlan::Use(c) | ConfigPlan::Create(c) | ConfigPlan::Replace(c) => r == Some(c),
                ConfigPlan::Fail => r.is_none(),
            },
    {
        match self {
            ConfigPlan::Use(c) => Some(c),
            ConfigPlan::Create(c) => Some(c),
            ConfigPlan::Replace(c) => Some(c),
            ConfigPlan::Fail => None,
        }
    }
}

} // verus!
