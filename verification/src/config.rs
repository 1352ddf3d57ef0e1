//! The two persisted records — `Config` (where the bar application lives) and
//! `Cache` (the last bar and style applied) — together with the paths they and
//! the switch logic use, and the policy that interprets a load attempt.
//!
//! The records are stored as structured text under fixed per-user locations.
//! Reading, writing and decoding the files is the surrounding binary's work;
//! the library states where the files live and what a load outcome means.

use vstd::prelude::*;
use vstd::string::*;

use crate::errors::BarChangerError;
use crate::errors::is_config_not_found;
use crate::errors::is_deserialization;

verus! {

/// Where the bar application's files live: `waybar_dir` is taken relative to
/// `home_dir` for every derived path.
pub struct Config {
    pub home_dir: String,
    pub waybar_dir: String,
}

/// The last bar and style successfully applied; a field is `None` only while
/// no switch of that kind has ever succeeded.
pub struct Cache {
    pub last_bar: Option<String>,
    pub last_style: Option<String>,
}

/// The subdirectory, relative to the home directory, where the bar
/// application keeps its configuration by default.
pub open spec fn default_waybar_dir() -> Seq<char> {
    ".config/waybar/"@
}

/// The directory holding the persisted `Config` record.
pub open spec fn config_dir_location_of(home: Seq<char>) -> Seq<char> {
    home + "/.config/bar-changer/"@
}

/// The file holding the persisted `Config` record.
pub open spec fn config_file_location_of(home: Seq<char>) -> Seq<char> {
    home + "/.config/bar-changer/config.toml"@
}

/// The directory holding the persisted `Cache` record.
pub open spec fn cache_dir_location_of(home: Seq<char>) -> Seq<char> {
    home + "/.cache/bar-changer/"@
}

/// The file holding the persisted `Cache` record.
pub open spec fn cache_file_location_of(home: Seq<char>) -> Seq<char> {
    home + "/.cache/bar-changer/cache.toml"@
}

/// The live configuration file the bar application reads.
pub open spec fn active_config_path_of(home: Seq<char>, waybar: Seq<char>) -> Seq<char> {
    home + "/"@ + waybar + "/config"@
}

/// The live stylesheet the bar application reads.
pub open spec fn active_style_path_of(home: Seq<char>, waybar: Seq<char>) -> Seq<char> {
    home + "/"@ + waybar + "/style.css"@
}

/// The source configuration template of the named bar.
pub open spec fn bar_config_path_of(home: Seq<char>, waybar: Seq<char>, bar: Seq<char>) -> Seq<
    char,
> {
    home + "/"@ + waybar + "/bars/"@ + bar + "/config"@
}

/// The source stylesheet template of the named bar.
pub open spec fn bar_style_path_of(home: Seq<char>, waybar: Seq<char>, bar: Seq<char>) -> Seq<
    char,
> {
    home + "/"@ + waybar + "/bars/"@ + bar + "/style.css"@
}

impl Config {
    /// The record used when nothing is persisted yet: the given home
    /// directory and the bar application's usual configuration subpath.
    pub fn use_default_dirs(home_dir: String) -> (r: Self)
        ensures
            r.home_dir == home_dir,
            r.waybar_dir@ == default_waybar_dir(),
    {
        Config { home_dir, waybar_dir: String::from_str(".config/waybar/") }
    }

    /// The directory this record is persisted under.
    pub fn config_dir_location(&self) -> (r: String)
        ensures
            r@ == config_dir_location_of(self.home_dir@),
    {
        let mut s = self.home_dir.clone();
        s.append("/.config/bar-changer/");
        s
    }

    /// The file this record is persisted in.
    pub fn config_file_location(&self) -> (r: String)
        ensures
            r@ == config_file_location_of(self.home_dir@),
    {
        let mut s = self.home_dir.clone();
        s.append("/.config/bar-changer/config.toml");
        s
    }

    /// The live configuration file of the bar application.
    pub fn active_config_path(&self) -> (r: String)
        ensures
            r@ == active_config_path_of(self.home_dir@, self.waybar_dir@),
    {
        let mut s = self.home_dir.clone();
        s.append("/");
        s.append(self.waybar_dir.as_str());
        s.append("/config");
        s
    }

    /// The live stylesheet of the bar application.
    pub fn active_style_path(&self) -> (r: String)
        ensures
            r@ == active_style_path_of(self.home_dir@, self.waybar_dir@),
    {
        let mut s = self.home_dir.clone();
        s.append("/");
        s.append(self.waybar_dir.as_str());
        s.append("/style.css");
        s
    }

    /// The source configuration template of the bar named `bar`.
    pub fn bar_config_path(&self, bar: &String) -> (r: String)
        ensures
            r@ == bar_config_path_of(self.home_dir@, self.waybar_dir@, bar@),
    {
        let mut s = self.home_dir.clone();
        s.append("/");
        s.append(self.waybar_dir.as_str());
        s.append("/bars/");
        s.append(bar.as_str());
        s.append("/config");
        s
    }

    /// The source stylesheet template of the bar named `bar`.
    pub fn bar_style_path(&self, bar: &String) -> (r: String)
        ensures
            r@ == bar_style_path_of(self.home_dir@, self.waybar_dir@, bar@),
    {
        let mut s = self.home_dir.clone();
        s.append("/");
        s.append(self.waybar_dir.as_str());
        s.append("/bars/");
        s.append(bar.as_str());
        s.append("/style.css");
        s
    }

    /// The meaning of a `Config` load attempt. `found` reports whether the
    /// record's file existed; `parsed` is the decoded record, or `None` when
    /// decoding failed. A missing file is `ConfigNotFound` — the caller, not
    /// this policy, may choose to fall back to defaults — and a file that
    /// would not decode is a `DeSerialization` failure.
    pub fn interpret_load(found: bool, parsed: Option<Config>) -> (r: Result<
        Config,
        BarChangerError,
    >)
        ensures
            !found ==> is_config_not_found(r, "Config file did not exist"@),
            found && parsed is Some ==> r == Ok::<Config, BarChangerError>(parsed->0),
            found && parsed is None ==> is_deserialization(r, "config"@),
    {
        if !found {
            Err(BarChangerError::ConfigNotFound(String::from_str("Config file did not exist")))
        } else {
            match parsed {
                Some(c) => Ok(c),
                None => Err(BarChangerError::DeSerialization(String::from_str("config"))),
            }
        }
    }
}

/// The file the cache record is persisted in, under the given home directory.
pub fn cache_file_location(home: &String) -> (r: String)
    ensures
        r@ == cache_file_location_of(home@),
{
    let mut s = home.clone();
    s.append("/.cache/bar-changer/cache.toml");
    s
}

/// The directory the cache record is persisted under.
pub fn cache_dir_location(home: &String) -> (r: String)
    ensures
        r@ == cache_dir_location_of(home@),
{
    let mut s = home.clone();
    s.append("/.cache/bar-changer/");
    s
}

impl Cache {
    /// The record used while no switch has ever succeeded.
    pub fn empty() -> (r: Self)
        ensures
            r == (Cache { last_bar: None, last_style: None }),
    {
        Cache { last_bar: None, last_style: None }
    }

    /// The meaning of a `Cache` load attempt. Unlike `Config::interpret_load`,
    /// a missing file is not an error: an empty record stands in for it (and
    /// the caller persists that record at once). A file that would not decode
    /// is surfaced as a `DeSerialization` failure rather than discarded — a
    /// corrupt cache is worth reporting.
    pub fn interpret_load(found: bool, parsed: Option<Cache>) -> (r: Result<
        Cache,
        BarChangerError,
    >)
        ensures
            !found ==> r == Ok::<Cache, BarChangerError>(
                Cache { last_bar: None, last_style: None },
            ),
            found && parsed is Some ==> r == Ok::<Cache, BarChangerError>(parsed->0),
            found && parsed is None ==> is_deserialization(r, "cache"@),
    {
        if !found {
            Ok(Cache { last_bar: None, last_style: None })
        } else {
            match parsed {
                Some(c) => Ok(c),
                None => Err(BarChangerError::DeSerialization(String::from_str("cache"))),
            }
        }
    }
}

} // verus!
