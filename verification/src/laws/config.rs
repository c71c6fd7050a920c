//! Laws of the configuration.

use crate::config::{
    create_dyn_cache, fsce_lru_sz, fsce_rw_buf_sz, opt_reject_invalid_sni, read_and_parse_file,
    settings_files, AppConfig, CacheEngine, ConfigError, ConfigSearch, FileAction, SearchStep,
};
use vstd::prelude::*;

verus! {

/// Files are parsed by their extension, and only once they were read.
pub proof fn files_are_parsed_by_extension(
    was_read: bool,
    extension: Option<&str>,
    action: FileAction,
)
    requires
        call_ensures(read_and_parse_file, (was_read, extension), action),
    ensures
        action == FileAction::IoError <==> !was_read,
        action == FileAction::ParseYaml <==> was_read && (extension matches Some(e) && e@
            == "yaml"@),
        action == FileAction::ParseJson <==> was_read && (extension matches Some(e) && e@
            == "json"@),
{
    reveal_strlit("yaml");
    reveal_strlit("json");
    assert("yaml"@[0] != "json"@[0]);
}

/// The YAML file is looked for first, then the JSON file, and no other.
pub proof fn yaml_comes_first(files: Vec<&'static str>)
    requires
        call_ensures(settings_files, (), files),
    ensures
        files@.len() == 2,
        files@[0]@ == "./settings.yaml"@,
        files@[1]@ == "./settings.json"@,
{
}

/// A search begins with the first file. A file without a valid configuration leads to the next one, or
/// to the end behind the last; a valid configuration ends the search.
pub proof fn searches_go_through_the_files(
    files: usize,
    search: ConfigSearch,
    first: SearchStep,
    going: &mut ConfigSearch,
    outcome: Option<AppConfig>,
    step: SearchStep,
)
    requires
        call_ensures(ConfigSearch::new, (files,), search),
        call_ensures(ConfigSearch::begin, (&search,), first),
        old(going).tried() < old(going).files(),
        call_ensures(ConfigSearch::try_files, (going, outcome), step),
    ensures
        files > 0 ==> first == SearchStep::Try(0),
        files == 0 ==> first == SearchStep::GiveUp,
        outcome matches Some(config) ==> step == SearchStep::Found(config),
        outcome is None ==> final(going).tried() == old(going).tried() + 1,
        outcome is None && old(going).tried() + 1 < old(going).files() ==> step == SearchStep::Try(
            (old(going).tried() + 1) as usize,
        ),
        outcome is None && old(going).tried() + 1 == old(going).files() ==> step
            == SearchStep::GiveUp,
        final(going).files() == old(going).files(),
{
}

/// The cache has to hold at least forty gibibytes.
pub proof fn caches_hold_forty_gibibytes(config: &AppConfig, large_enough: bool)
    requires
        call_ensures(AppConfig::meets_minimum_cache_size, (config,), large_enough),
    ensures
        large_enough <==> config.cache_size_mebibytes * 1048576 >= 40 * 1073741824,
{
}

/// The engine that is named is selected, with its own options; without them, or with any other name,
/// none is.
pub proof fn engines_are_selected_by_name(
    config: &AppConfig,
    r: Result<CacheEngine<'_>, String>,
)
    requires
        call_ensures(create_dyn_cache, (config,), r),
    ensures
        config.cache_engine@ == "fs"@ ==> match config.fs_opt {
            Some(opt) => r matches Ok(CacheEngine::Fs(o)) && *o == opt,
            None => r matches Err(e) && e@ == "fs ce config not provided"@,
        },
        config.cache_engine@ == "rocksdb"@ ==> match config.rocks_opt {
            Some(opt) => r matches Ok(CacheEngine::Rocks(o)) && *o == opt,
            None => r matches Err(e) && e@ == "rocksdb ce config not provided"@,
        },
        config.cache_engine@ != "fs"@ && config.cache_engine@ != "rocksdb"@ ==> (r matches Err(e)
            && e@ == "\""@ + config.cache_engine@ + "\" is not a valid cache engine"@),
{
    reveal_strlit("fs");
    reveal_strlit("rocksdb");
    assert("fs"@.len() == 2 && "rocksdb"@.len() == 7);
}

/// Server names are checked by default; the buffer holds 16 kibibytes and the memory cache 128
/// mebibytes.
pub proof fn defaults_are_set(reject: bool, kibibytes: usize, mebibytes: usize)
    requires
        call_ensures(opt_reject_invalid_sni, (), reject),
        call_ensures(fsce_rw_buf_sz, (), kibibytes),
        call_ensures(fsce_lru_sz, (), mebibytes),
    ensures
        reject,
        kibibytes == 16,
        mebibytes == 128,
{
}

/// Errors tell what was attempted, and the cause.
pub proof fn config_errors_tell_their_cause(error: ConfigError, text: String)
    requires
        call_ensures(ConfigError::to_text, (&error,), text),
    ensures
        error matches ConfigError::IoError(base) ==> text@ == "error opening or reading file: "@
            + base@,
        error matches ConfigError::YamlParseError(base) ==> text@ == "error parsing yaml: "@
            + base@,
        error matches ConfigError::JsonParseError(base) ==> text@ == "error parsing json: "@
            + base@,
        error is UnexpectedProblem ==> text@
            == "unexpected problem happened when handling config parse"@,
{
}

} // verus!
