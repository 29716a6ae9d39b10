//! Decisions of the configuration loader and of the watcher that reloads the
//! configuration when its files change.  The file-system events, the timer
//! and the channel are driven by the caller, which hands each outcome here.

use vstd::prelude::*;
use vstd::string::*;
use crate::configuration::schema::Config;
use crate::text::str_equal;
use crate::configuration::validate::{ConfigError, config_is_valid, is_refusal_of, validate_configuration};

verus! {

/// What a file-system notification says happened.
#[derive(Debug, Clone, Copy, PartialEq, Eq)]
pub enum FsEventKind {
    Any,
    Access,
    Create,
    Modify,
    Remove,
    Other,
}

/// Only creations, modifications and removals can change the configuration.
pub open spec fn relevant_kind(kind: FsEventKind) -> bool {
    kind == FsEventKind::Create || kind == FsEventKind::Modify || kind == FsEventKind::Remove
}

pub fn is_relevant_event(kind: &FsEventKind) -> (b: bool)
    ensures
        b == relevant_kind(*kind),
{
    match kind {
        FsEventKind::Create | FsEventKind::Modify | FsEventKind::Remove => true,
        _ => false,
    }
}

/// `path` without what `std::path::Path::components` skips at its end on
/// Unix: trailing `/` separators and `.` components.
pub open spec fn trim_path_end(path: Seq<char>) -> Seq<char>
    decreases path.len(),
{
    if path.len() > 0 && (path.last() == '/' || (path.last() == '.' && (path.len() == 1 || path[path.len()
        - 2] == '/'))) {
        trim_path_end(path.drop_last())
    } else {
        path
    }
}

/// The text of `s` after the last `c`; all of `s` when there is none.
pub open spec fn after_last(s: Seq<char>, c: char) -> Seq<char>
    decreases s.len(),
{
    if s.len() == 0 {
        s
    } else if s.last() == c {
        Seq::empty()
    } else {
        after_last(s.drop_last(), c).push(s.last())
    }
}

/// `std::path::Path::file_name` on Unix: the last component, unless there is
/// none or it is `..`.
pub open spec fn file_name(path: Seq<char>) -> Option<Seq<char>> {
    let last = after_last(trim_path_end(path), '/');
    if last.len() == 0 || last == ".."@ {
        None
    } else {
        Some(last)
    }
}

/// `std::path::Path::extension` on Unix: the part of the file name after its
/// final `.`, unless it has none or its only `.` begins it.
pub open spec fn path_extension(path: Seq<char>) -> Option<Seq<char>> {
    match file_name(path) {
        Some(name) => {
            let ext = after_last(name, '.');
            if ext.len() + 1 >= name.len() {
                None
            } else {
                Some(ext)
            }
        },
        None => None,
    }
}

/// `std::path::Path::extension` of `path`, as an owned string. The result is
/// the one std documents for Unix paths, where `/` is the only separator, as
/// `path_extension` states it; `to_str` cannot fail on text that came from a
/// `&str`.
#[verifier::external_body]
fn extension_of(path: &str) -> (e: Option<String>)
    ensures
        match e {
            Some(x) => path_extension(path@) == Some(x@),
            None => path_extension(path@) is None,
        },
{
    std::path::Path::new(path).extension().and_then(|x| x.to_str()).map(|x| x.to_owned())
}

/// The extensions of configuration files.
pub open spec fn is_config_extension(e: Seq<char>) -> bool {
    e == "toml"@ || e == "yml"@ || e == "yaml"@
}

pub open spec fn is_config_path(path: Seq<char>) -> bool {
    path_extension(path) matches Some(e) && is_config_extension(e)
}

/// Whether any of `paths` names a TOML or YAML file.
pub fn touches_config_file(paths: &Vec<String>) -> (b: bool)
    ensures
        b == exists|i: int| 0 <= i < paths.len() && is_config_path(#[trigger] paths@[i]@),
{
    let mut i: usize = 0;
    while i < paths.len()
        invariant
            i <= paths.len(),
            forall|j: int| 0 <= j < i ==> !is_config_path(#[trigger] paths@[j]@),
        decreases paths.len() - i,
    {
        let ext = extension_of(paths[i].as_str());
        match ext {
            Some(e) => {
                let es = e.as_str();
                proof {
                    reveal_strlit("toml");
                    reveal_strlit("yml");
                    reveal_strlit("yaml");
                }
                if str_equal(es, "toml") || str_equal(es, "yml") || str_equal(es, "yaml") {
                    assert(is_config_path(paths@[i as int]@));
                    return true;
                }
            },
            None => {},
        }
        i = i + 1;
    }
    false
}

/// Whether a notification should trigger a reload: it must be relevant and
/// touch a configuration file.
pub fn should_signal_reload(kind: &FsEventKind, paths: &Vec<String>) -> (b: bool)
    ensures
        b == (relevant_kind(*kind) && exists|i: int|
            0 <= i < paths.len() && is_config_path(#[trigger] paths@[i]@)),
{
    is_relevant_event(kind) && touches_config_file(paths)
}

/// What woke the watcher loop.
#[derive(Debug, Clone, Copy, PartialEq, Eq)]
pub enum WatchEvent {
    /// The shutdown signal fired.
    Shutdown,
    /// The notification channel closed.
    ChannelClosed,
    /// A change notification arrived.
    FilesChanged,
}

/// What the watcher loop does next.
#[derive(Debug, Clone, Copy, PartialEq, Eq)]
pub enum WatchAction {
    /// Leave the loop.
    Stop,
    /// Wait for the burst of notifications to settle, drain them and reload.
    Reload,
}

pub fn watcher_step(event: WatchEvent) -> (a: WatchAction)
    ensures
        a == WatchAction::Reload <==> event == WatchEvent::FilesChanged,
{
    match event {
        WatchEvent::FilesChanged => WatchAction::Reload,
        _ => WatchAction::Stop,
    }
}

/// The configuration that serves after a reload attempt: a successful load
/// replaces it, a failed one keeps the last good one.
pub open spec fn after_reload<E>(current: Config, loaded: Result<Config, E>) -> Config {
    match loaded {
        Ok(next) => next,
        Err(_) => current,
    }
}

/// The configuration that serves after a reload attempt, and whether it was
/// replaced.
pub fn apply_reload<E>(current: Config, loaded: Result<Config, E>) -> (r: (Config, bool))
    ensures
        r.0 == after_reload(current, loaded),
        r.1 == loaded is Ok,
{
    match loaded {
        Ok(next) => (next, true),
        Err(_) => (current, false),
    }
}

/// Accepts a parsed configuration only if every rule holds.
pub fn finish_load(config: Config) -> (r: Result<Config, ConfigError>)
    ensures
        match r {
            Ok(c) => c == config && config_is_valid(config),
            Err(e) => !config_is_valid(config) && is_refusal_of(e, config),
        },
{
    match validate_configuration(&config) {
        Ok(()) => Ok(config),
        Err(e) => Err(e),
    }
}

/// The format of a configuration file.
#[derive(Debug, Clone, Copy, PartialEq, Eq)]
pub enum FileFormat {
    Yaml,
    Toml,
}

/// Which file of a configuration layer to read: the YAML one if it exists,
/// else the TOML one, else none.
pub fn select_source(yaml_exists: bool, toml_exists: bool) -> (f: Option<FileFormat>)
    ensures
        f == (if yaml_exists {
            Some(FileFormat::Yaml)
        } else if toml_exists {
            Some(FileFormat::Toml)
        } else {
            None
        }),
{
    if yaml_exists {
        Some(FileFormat::Yaml)
    } else if toml_exists {
        Some(FileFormat::Toml)
    } else {
        None
    }
}

/// The YAML and TOML file names of the configuration layer `name`.
pub fn layer_file_names(name: &str) -> (r: (String, String))
    ensures
        r.0@ == name@ + ".yml"@,
        r.1@ == name@ + ".toml"@,
{
    let mut yaml = name.to_owned();
    yaml.append(".yml");
    let mut toml = name.to_owned();
    toml.append(".toml");
    (yaml, toml)
}


/// The serving configuration always satisfies the rules: it starts valid, and
/// a reload either installs a configuration that passed validation or keeps
/// the one that served before.
pub proof fn law_reload_keeps_config_valid(current: Config, loaded: Result<Config, ConfigError>)
    requires
        config_is_valid(current),
        loaded matches Ok(c) ==> config_is_valid(c),
    ensures
        config_is_valid(after_reload(current, loaded)),
{
}

/// A failed reload leaves the serving configuration exactly as it was.
pub proof fn law_failed_reload_changes_nothing<E>(current: Config, err: E)
    ensures
        after_reload(current, Err::<Config, E>(err)) == current,
{
}

} // verus!
