//! The switch itself: selecting a bar, selecting a style, and the decision
//! table that ties the two to the command-line arguments and the cache.
//!
//! Every function here only decides and composes. File contents come in as
//! plain values, and what must be written goes out as [`FileWrite`] records;
//! the surrounding binary reads the sources, carries out the writes of a
//! successful outcome, and persists the cache. An error outcome carries no
//! writes at all, so a failed switch never touches the active slot.

use vstd::prelude::*;
use vstd::string::*;

use crate::config::Cache;
use crate::config::Config;
use crate::config::active_config_path_of;
use crate::config::active_style_path_of;
use crate::errors::BarChangerError;
use crate::errors::is_config_not_found;
use crate::errors::is_invalid_input;
use crate::errors::is_io;
use crate::errors::is_style_not_found;
use crate::style::compose_fresh;
use crate::style::compose_reapplied;
use crate::style::fresh_style_of;
use crate::style::has_newline;
use crate::style::reapplied_style_of;

verus! {

/// One write the switch asks the surrounding binary to carry out: replace
/// the file at `path` with `content`, whole.
pub struct FileWrite {
    pub path: String,
    pub content: String,
}

/// Everything a successful switch decided: the write for the active
/// configuration file (when a bar was selected), the write for the active
/// stylesheet (when a style was applied), and the cache record as it must be
/// persisted afterwards. `cache_changed` is false only for the no-op branch,
/// where nothing needs persisting.
pub struct SwitchOutcome {
    pub config_write: Option<FileWrite>,
    pub style_write: Option<FileWrite>,
    pub cache: Cache,
    pub cache_changed: bool,
}

/// The style name a switch applies: the explicit argument when one was
/// given, the cached fallback otherwise. Meaningful only when one of the two
/// is present.
pub open spec fn effective_style_of(style: Option<String>, last_style: Option<String>) -> Seq<
    char,
> {
    if style is Some {
        style->0@
    } else {
        last_style->0@
    }
}

/// Picks the style to apply: the explicit argument first, the cached
/// last-used style second, and an invalid-input failure when neither exists.
pub fn resolve_style(style: Option<String>, cache: &Cache) -> (r: Result<String, BarChangerError>)
    ensures
        style is Some ==> r == Ok::<String, BarChangerError>(style->0),
        style is None && cache.last_style is Some ==> r == Ok::<String, BarChangerError>(
            cache.last_style->0,
        ),
        style is None && cache.last_style is None ==> is_invalid_input(
            r,
            "No style has been used previously"@,
        ),
{
    match style {
        Some(s) => Ok(s),
        None => match &cache.last_style {
            Some(s) => Ok(s.clone()),
            None => Err(
                BarChangerError::InvalidInput(
                    String::from_str("No style has been used previously"),
                ),
            ),
        },
    }
}

/// Selects the bar named `bar`: its source configuration, handed in as
/// `source` (or `None` when the source file does not exist or could not be
/// read), becomes the content of the active configuration file, unmodified.
/// A missing source fails under the bar's name, the identifier the user gave.
pub fn set_bar(bar: &String, config: &Config, source: Option<String>) -> (r: Result<
    FileWrite,
    BarChangerError,
>)
    ensures
        source is Some ==> r is Ok && r->Ok_0.path@ == active_config_path_of(
            config.home_dir@,
            config.waybar_dir@,
        ) && r->Ok_0.content == source->0,
        source is None ==> is_config_not_found(r, bar@),
{
    match source {
        Some(content) => Ok(FileWrite { path: config.active_config_path(), content }),
        None => Err(BarChangerError::ConfigNotFound(bar.clone())),
    }
}

/// Applies a style freshly over the bar named `bar`: resolves the effective
/// style (explicit argument or cached fallback), then composes the new
/// active stylesheet from the bar's source template, handed in as `source`.
/// The style is resolved before the source is looked at, so a switch with
/// nothing to fall back on fails as invalid input whatever the sources hold.
pub fn set_style(
    bar: &String,
    style: Option<String>,
    config: &Config,
    cache: &Cache,
    source: Option<String>,
) -> (r: Result<FileWrite, BarChangerError>)
    ensures
        style is None && cache.last_style is None ==> is_invalid_input(
            r,
            "No style has been used previously"@,
        ),
        (style is Some || cache.last_style is Some) && source is None ==> is_style_not_found(
            r,
            bar@,
        ),
        (style is Some || cache.last_style is Some) && source is Some ==> r is Ok
            && r->Ok_0.path@ == active_style_path_of(config.home_dir@, config.waybar_dir@)
            && r->Ok_0.content@ == fresh_style_of(
            effective_style_of(style, cache.last_style),
            source->0@,
        ),
{
    let style_name = match resolve_style(style, cache) {
        Ok(s) => s,
        Err(e) => {
            return Err(e);
        },
    };
    match source {
        Some(template) => Ok(
            FileWrite {
                path: config.active_style_path(),
                content: compose_fresh(&style_name, &template),
            },
        ),
        None => Err(BarChangerError::StyleNotFound(bar.clone())),
    }
}

/// Re-applies a style in place: the first line of the current active
/// stylesheet, handed in as `active_style`, is replaced by the directive for
/// `style_name` and the rest of the sheet is kept. A sheet with no newline
/// has no rest to keep and is rejected as invalid input.
pub fn change_style(style_name: &String, config: &Config, active_style: &String) -> (r: Result<
    FileWrite,
    BarChangerError,
>)
    ensures
        has_newline(active_style@) ==> r is Ok && r->Ok_0.path@ == active_style_path_of(
            config.home_dir@,
            config.waybar_dir@,
        ) && r->Ok_0.content@ == reapplied_style_of(style_name@, active_style@),
        !has_newline(active_style@) ==> is_invalid_input(r, "Failed to get styling"@),
{
    match compose_reapplied(style_name, active_style) {
        Ok(content) => Ok(FileWrite { path: config.active_style_path(), content }),
        Err(e) => Err(e),
    }
}

/// An owned copy of an optional name.
fn clone_opt(o: &Option<String>) -> (r: Option<String>)
    ensures
        r == *o,
{
    match o {
        Some(s) => Some(s.clone()),
        None => None,
    }
}

/// The whole switch, decided from the two command-line selections and the
/// cache. The file contents the branches may need come in as plain values:
/// `bar_source_config` and `bar_source_style` are the selected bar's source
/// templates (or `None` where missing), `active_style` is the sheet
/// currently active (or `None` where unreadable). The four branches:
///
/// - bar and style given: select the bar, apply the style freshly, remember
///   both in the cache;
/// - bar alone: select the bar, apply the cached style freshly (failing as
///   invalid input when none was ever used), remember the bar;
/// - style alone: re-apply over the current sheet in place, remember the
///   style;
/// - neither: nothing to do, the cache stands as it is.
///
/// An error leaves the outcome empty-handed: no write is produced, so the
/// active slot stays as it was.
pub fn switch(
    bar: Option<String>,
    style: Option<String>,
    config: &Config,
    cache: &Cache,
    bar_source_config: Option<String>,
    bar_source_style: Option<String>,
    active_style: Option<String>,
) -> (r: Result<SwitchOutcome, BarChangerError>)
    ensures
        bar is Some && bar_source_config is None ==> is_config_not_found(r, bar->0@),
        bar is Some && bar_source_config is Some && style is None && cache.last_style is None
            ==> is_invalid_input(r, "No style has been used previously"@),
        bar is Some && bar_source_config is Some && (style is Some || cache.last_style is Some)
            && bar_source_style is None ==> is_style_not_found(r, bar->0@),
        bar is Some && bar_source_config is Some && (style is Some || cache.last_style is Some)
            && bar_source_style is Some ==> r is Ok && ({
            let o = r->Ok_0;
            &&& o.config_write is Some
            &&& o.config_write->0.path@ == active_config_path_of(
                config.home_dir@,
                config.waybar_dir@,
            )
            &&& o.config_write->0.content == bar_source_config->0
            &&& o.style_write is Some
            &&& o.style_write->0.path@ == active_style_path_of(
                config.home_dir@,
                config.waybar_dir@,
            )
            &&& o.style_write->0.content@ == fresh_style_of(
                effective_style_of(style, cache.last_style),
                bar_source_style->0@,
            )
            &&& o.cache.last_bar == Some(bar->0)
            &&& (style is Some ==> o.cache.last_style == Some(style->0))
            &&& (style is None ==> o.cache.last_style == cache.last_style)
            &&& o.cache_changed
        }),
        bar is None && style is Some && active_style is None ==> is_io(
            r,
            "Failed to read active style sheet"@,
        ),
        bar is None && style is Some && active_style is Some && !has_newline(active_style->0@)
            ==> is_invalid_input(r, "Failed to get styling"@),
        bar is None && style is Some && active_style is Some && has_newline(active_style->0@)
            ==> r is Ok && ({
            let o = r->Ok_0;
            &&& o.config_write is None
            &&& o.style_write is Some
            &&& o.style_write->0.path@ == active_style_path_of(
                config.home_dir@,
                config.waybar_dir@,
            )
            &&& o.style_write->0.content@ == reapplied_style_of(style->0@, active_style->0@)
            &&& o.cache.last_bar == cache.last_bar
            &&& o.cache.last_style == Some(style->0)
            &&& o.cache_changed
        }),
        bar is None && style is None ==> r is Ok && ({
            let o = r->Ok_0;
            &&& o.config_write is None
            &&& o.style_write is None
            &&& o.cache == *cache
            &&& !o.cache_changed
        }),
{
    match (bar, style) {
        (Some(b), Some(s)) => {
            let config_write = match set_bar(&b, config, bar_source_config) {
                Ok(w) => w,
                Err(e) => {
                    return Err(e);
                },
            };
            let style_write = match set_style(&b, Some(s.clone()), config, cache, bar_source_style)
                {
                Ok(w) => w,
                Err(e) => {
                    return Err(e);
                },
            };
            Ok(
                SwitchOutcome {
                    config_write: Some(config_write),
                    style_write: Some(style_write),
                    cache: Cache { last_bar: Some(b), last_style: Some(s) },
                    cache_changed: true,
                },
            )
        },
        (Some(b), None) => {
            let config_write = match set_bar(&b, config, bar_source_config) {
                Ok(w) => w,
                Err(e) => {
                    return Err(e);
                },
            };
            let style_write = match set_style(&b, None, config, cache, bar_source_style) {
                Ok(w) => w,
                Err(e) => {
                    return Err(e);
                },
            };
            Ok(
                SwitchOutcome {
                    config_write: Some(config_write),
                    style_write: Some(style_write),
                    cache: Cache { last_bar: Some(b), last_style: clone_opt(&cache.last_style) },
                    cache_changed: true,
                },
            )
        },
        (None, Some(s)) => {
            match active_style {
                Some(current) => {
                    let style_write = match change_style(&s, config, &current) {
                        Ok(w) => w,
                        Err(e) => {
                            return Err(e);
                        },
                    };
                    Ok(
                        SwitchOutcome {
                            config_write: None,
                            style_write: Some(style_write),
                            cache: Cache {
                                last_bar: clone_opt(&cache.last_bar),
                                last_style: Some(s),
                            },
                            cache_changed: true,
                        },
                    )
                },
                None => Err(
                    BarChangerError::Io(String::from_str("Failed to read active style sheet")),
                ),
            }
        },
        (None, None) => Ok(
            SwitchOutcome {
                config_write: None,
                style_write: None,
                cache: Cache {
                    last_bar: clone_opt(&cache.last_bar),
                    last_style: clone_opt(&cache.last_style),
                },
                cache_changed: false,
            },
        ),
    }
}

} // verus!
