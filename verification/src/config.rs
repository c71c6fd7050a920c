//! The configuration of the client, and how it is looked for.

use crate::text::str_eq;
use crate::utils::Secret;
use vstd::prelude::*;
use vstd::string::*;

verus! {

/// Configuration of the whole client.
pub struct AppConfig {
    pub client_secret: Secret<String>,
    pub max_grace_period: i32,
    pub skip_tokens: bool,
    pub disable_ssl: bool,
    pub cache_size_mebibytes: u32,
    pub cache_engine: String,
    pub rocks_opt: Option<RocksConfig>,
    pub fs_opt: Option<FsConfig>,
    pub port: u16,
    pub bind_address: String,
    pub worker_threads: Option<usize>,
    pub keep_alive: usize,
    pub enforce_secure_tls: bool,
    pub disable_ad_headers: bool,
    pub reject_invalid_sni: bool,
    pub gzip_compress: bool,
    pub external_ip: Option<String>,
    pub external_port: Option<u16>,
    pub external_max_speed: Option<u32>,
}

/// Configuration of the RocksDB cache engine. Sizes are in mebibytes.
pub struct RocksConfig {
    pub path: String,
    pub disable_bloom_filter: bool,
    pub lru_size: Option<usize>,
    pub parallelism: Option<i32>,
    pub write_buffer_size: Option<usize>,
    pub write_rate_limit: Option<usize>,
}

/// Configuration of the file system cache engine. The buffer is in kibibytes.
pub struct FsConfig {
    pub path: String,
    pub rw_buffer_size: usize,
    pub lru_size_mebibytes: usize,
}

/// Connections with a wrong server name are rejected, unless the configuration says otherwise.
pub fn opt_reject_invalid_sni() -> (reject: bool)
    ensures
        reject,
{
    true
}

/// Kibibytes in the buffer of the file system engine, unless the configuration says otherwise.
pub fn fsce_rw_buf_sz() -> (kibibytes: usize)
    ensures
        kibibytes == 16,
{
    16
}

/// Mebibytes that the file system engine keeps in memory, unless the configuration says otherwise.
pub fn fsce_lru_sz() -> (mebibytes: usize)
    ensures
        mebibytes == 128,
{
    128
}

/// What is done with a configuration file that was attempted to be read.
#[derive(Clone, Copy, PartialEq, Eq, Structural)]
pub enum FileAction {
    ParseYaml,
    ParseJson,
    /// The file could not be read.
    IoError,
    /// The file was read, but its extension names no known format.
    UnexpectedProblem,
}

/// What is done with a file of the given extension.
pub open spec fn file_action(was_read: bool, extension: Option<Seq<char>>) -> FileAction {
    if !was_read {
        FileAction::IoError
    } else if extension == Some("yaml"@) {
        FileAction::ParseYaml
    } else if extension == Some("json"@) {
        FileAction::ParseJson
    } else {
        FileAction::UnexpectedProblem
    }
}

/// Decides what is done with a file: how it is parsed is determined by its extension.
pub fn read_and_parse_file(was_read: bool, extension: Option<&str>) -> (action: FileAction)
    ensures
        action == file_action(
            was_read,
            match extension {
                Some(e) => Some(e@),
                None => None,
            },
        ),
{
    if !was_read {
        return FileAction::IoError;
    }
    match extension {
        Some(e) => if str_eq(e, "yaml") {
            FileAction::ParseYaml
        } else if str_eq(e, "json") {
            proof {
                reveal_strlit("yaml");
                reveal_strlit("json");
                assert("yaml"@[0] != "json"@[0]);
            }
            FileAction::ParseJson
        } else {
            FileAction::UnexpectedProblem
        },
        None => FileAction::UnexpectedProblem,
    }
}

/// Why a configuration file gives no configuration, with the text of the cause.
pub enum ConfigError {
    YamlParseError(String),
    JsonParseError(String),
    IoError(String),
    UnexpectedProblem,
}

impl ConfigError {
    /// The text of the error.
    pub open spec fn display(self) -> Seq<char> {
        match self {
            ConfigError::IoError(base) => "error opening or reading file: "@ + base@,
            ConfigError::YamlParseError(base) => "error parsing yaml: "@ + base@,
            ConfigError::JsonParseError(base) => "error parsing json: "@ + base@,
            ConfigError::UnexpectedProblem =>
                "unexpected problem happened when handling config parse"@,
        }
    }

    /// The text of the error.
    pub fn to_text(&self) -> (text: String)
        ensures
            text@ == self.display(),
    {
        let (start, base): (&'static str, &String) = match self {
            ConfigError::IoError(base) => ("error opening or reading file: ", base),
            ConfigError::YamlParseError(base) => ("error parsing yaml: ", base),
            ConfigError::JsonParseError(base) => ("error parsing json: ", base),
            ConfigError::UnexpectedProblem => {
                return "unexpected problem happened when handling config parse".to_string();
            },
        };
        let mut text: String = start.to_string();
        text.append(base.as_str());
        text
    }
}

/// The files that may hold the configuration, in the order in which they are tried.
pub fn settings_files() -> (files: Vec<&'static str>)
    ensures
        files@ == seq!["./settings.yaml", "./settings.json"],
{
    vec!["./settings.yaml", "./settings.json"]
}

/// What the search for a configuration does next.
pub enum SearchStep {
    /// Try the file at this place in the order.
    Try(usize),
    /// Use the configuration that was found.
    Found(AppConfig),
    /// There is no valid configuration.
    GiveUp,
}

/// The file to try, once `tried` of `files` were tried without success.
pub open spec fn next_file(files: usize, tried: usize) -> SearchStep {
    if tried < files {
        SearchStep::Try(tried)
    } else {
        SearchStep::GiveUp
    }
}

/// The step that follows the outcome of trying the file at the place `tried`.
pub open spec fn step_after(files: usize, tried: usize, outcome: Option<AppConfig>) -> SearchStep {
    match outcome {
        Some(config) => SearchStep::Found(config),
        None => next_file(files, (tried + 1) as usize),
    }
}

/// The search through files for a valid configuration. The first one that is valid wins.
pub struct ConfigSearch {
    files: usize,
    tried: usize,
}

impl ConfigSearch {
    /// The number of files.
    pub closed spec fn files(self) -> usize {
        self.files
    }

    /// The number of files that were tried without success.
    pub closed spec fn tried(self) -> usize {
        self.tried
    }

    /// A search through so many files.
    pub fn new(files: usize) -> (search: Self)
        ensures
            search.files() == files,
            search.tried() == 0,
    {
        ConfigSearch { files, tried: 0 }
    }

    /// What to do first.
    pub fn begin(&self) -> (step: SearchStep)
        ensures
            step == next_file(self.files(), self.tried()),
    {
        if self.tried < self.files {
            SearchStep::Try(self.tried)
        } else {
            SearchStep::GiveUp
        }
    }

    /// What to do once a file was tried: use its configuration, or go on to the next file.
    pub fn try_files(&mut self, outcome: Option<AppConfig>) -> (step: SearchStep)
        requires
            old(self).tried() < old(self).files(),
        ensures
            step == step_after(old(self).files(), old(self).tried(), outcome),
            final(self).files() == old(self).files(),
            final(self).tried() == old(self).tried() + (if outcome is None {
                1int
            } else {
                0
            }),
    {
        match outcome {
            Some(config) => SearchStep::Found(config),
            None => {
                self.tried = self.tried + 1;
                self.begin()
            },
        }
    }
}

/// What a search that has come to `step` finds, if trying the file at each place has the outcome
/// given for it.
pub open spec fn found_by(files: usize, step: SearchStep, outcomes: Seq<Option<AppConfig>>) -> Option<
    AppConfig,
>
    decreases
            files - (match step {
                SearchStep::Try(i) => i as int,
                _ => files as int,
            }),
{
    match step {
        SearchStep::Found(config) => Some(config),
        SearchStep::GiveUp => None,
        SearchStep::Try(i) => if i < files {
            found_by(files, step_after(files, i, outcomes[i as int]), outcomes)
        } else {
            None
        },
    }
}

/// The search finds the configuration of the first file that has a valid one, and nothing if no file
/// has.
pub proof fn first_valid_file_wins(outcomes: Seq<Option<AppConfig>>)
    requires
        outcomes.len() <= usize::MAX,
    ensures
        ({
            let files = outcomes.len() as usize;
            match found_by(files, next_file(files, 0), outcomes) {
                Some(config) => exists|i: int|
                    {
                        &&& 0 <= i < outcomes.len()
                        &&& #[trigger] outcomes[i] == Some(config)
                        &&& forall|j: int| 0 <= j < i ==> #[trigger] outcomes[j] is None
                    },
                None => forall|j: int| 0 <= j < outcomes.len() ==> #[trigger] outcomes[j] is None,
            }
        }),
{
    lemma_search_from(outcomes, 0);
}

proof fn lemma_search_from(outcomes: Seq<Option<AppConfig>>, at: usize)
    requires
        outcomes.len() <= usize::MAX,
        at <= outcomes.len(),
        forall|j: int| 0 <= j < at ==> #[trigger] outcomes[j] is None,
    ensures
        ({
            let files = outcomes.len() as usize;
            match found_by(files, next_file(files, at), outcomes) {
                Some(config) => exists|i: int|
                    {
                        &&& 0 <= i < outcomes.len()
                        &&& #[trigger] outcomes[i] == Some(config)
                        &&& forall|j: int| 0 <= j < i ==> #[trigger] outcomes[j] is None
                    },
                None => forall|j: int| 0 <= j < outcomes.len() ==> #[trigger] outcomes[j] is None,
            }
        }),
    decreases outcomes.len() - at,
{
    let files = outcomes.len() as usize;
    if at < files {
        match outcomes[at as int] {
            Some(config) => {
                reveal_with_fuel(found_by, 2);
                assert(outcomes[at as int] == Some(config));
            },
            None => {
                lemma_search_from(outcomes, (at + 1) as usize);
            },
        }
    }
}

/// The least size of the cache, in mebibytes.
pub const MIN_CACHE_MEBIBYTES: u32 = 40960;

impl AppConfig {
    /// Whether the cache is large enough for the client to run.
    pub fn meets_minimum_cache_size(&self) -> (large_enough: bool)
        ensures
            large_enough == (self.cache_size_mebibytes >= 40960),
    {
        self.cache_size_mebibytes >= MIN_CACHE_MEBIBYTES
    }
}

/// The cache engine to run.
pub enum CacheEngine<'a> {
    Fs(&'a FsConfig),
    Rocks(&'a RocksConfig),
}

/// The cache engine that a configuration asks for, or the text of the problem with it.
pub open spec fn engine_of(config: AppConfig) -> Result<CacheEngine<'static>, Seq<char>> {
    if config.cache_engine@ == "fs"@ {
        match config.fs_opt {
            Some(opt) => Ok(CacheEngine::Fs(&opt)),
            None => Err("fs ce config not provided"@),
        }
    } else if config.cache_engine@ == "rocksdb"@ {
        match config.rocks_opt {
            Some(opt) => Ok(CacheEngine::Rocks(&opt)),
            None => Err("rocksdb ce config not provided"@),
        }
    } else {
        Err("\""@ + config.cache_engine@ + "\" is not a valid cache engine"@)
    }
}

/// Selects the cache engine that the configuration asks for.
pub fn create_dyn_cache(config: &AppConfig) -> (r: Result<CacheEngine<'_>, String>)
    ensures
        match engine_of(*config) {
            Ok(engine) => r matches Ok(e) && e == engine,
            Err(text) => r matches Err(s) && s@ == text,
        },
{
    if str_eq(config.cache_engine.as_str(), "fs") {
        match &config.fs_opt {
            Some(opt) => Ok(CacheEngine::Fs(opt)),
            None => Err("fs ce config not provided".to_string()),
        }
    } else if str_eq(config.cache_engine.as_str(), "rocksdb") {
        match &config.rocks_opt {
            Some(opt) => Ok(CacheEngine::Rocks(opt)),
            None => Err("rocksdb ce config not provided".to_string()),
        }
    } else {
        let mut text: String = "\"".to_string();
        text.append(config.cache_engine.as_str());
        text.append("\" is not a valid cache engine");
        Err(text)
    }
}

} // verus!
