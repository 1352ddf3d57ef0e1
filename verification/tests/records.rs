use bar_changer::config::cache_dir_location;
use bar_changer::config::cache_file_location;
use bar_changer::config::Cache;
use bar_changer::config::Config;
use bar_changer::errors::BarChangerError;
use bar_changer::errors::Context;
use bar_changer::init::init_start;
use bar_changer::init::init_step;
use bar_changer::init::InitEffect;
use bar_changer::init::InitState;
use bar_changer::switch::switch;

#[test]
fn default_dirs() {
    let cfg = Config::use_default_dirs("/home/user".to_string());
    assert_eq!(cfg.home_dir, "/home/user");
    assert_eq!(cfg.waybar_dir, ".config/waybar/");
}

#[test]
fn record_locations() {
    let cfg = Config::use_default_dirs("/home/user".to_string());
    assert_eq!(
        cfg.config_dir_location(),
        "/home/user/.config/bar-changer/"
    );
    assert_eq!(
        cfg.config_file_location(),
        "/home/user/.config/bar-changer/config.toml"
    );
    let home = "/home/user".to_string();
    assert_eq!(cache_dir_location(&home), "/home/user/.cache/bar-changer/");
    assert_eq!(
        cache_file_location(&home),
        "/home/user/.cache/bar-changer/cache.toml"
    );
}

#[test]
fn derived_paths() {
    let cfg = Config {
        home_dir: "/home/user".to_string(),
        waybar_dir: ".config/waybar/".to_string(),
    };
    assert_eq!(cfg.active_config_path(), "/home/user/.config/waybar//config");
    assert_eq!(cfg.active_style_path(), "/home/user/.config/waybar//style.css");
    let bar = "main".to_string();
    assert_eq!(
        cfg.bar_config_path(&bar),
        "/home/user/.config/waybar//bars/main/config"
    );
    assert_eq!(
        cfg.bar_style_path(&bar),
        "/home/user/.config/waybar//bars/main/style.css"
    );
}

#[test]
fn config_load_missing_file_is_not_found() {
    let r = Config::interpret_load(false, None);
    assert!(matches!(r, Err(BarChangerError::ConfigNotFound(_))));
}

#[test]
fn config_load_malformed_is_deserialization() {
    let r = Config::interpret_load(true, None);
    match r {
        Err(BarChangerError::DeSerialization(m)) => assert_eq!(m, "config"),
        _ => panic!("expected DeSerialization"),
    }
}

#[test]
fn config_load_parsed_is_returned() {
    let cfg = Config {
        home_dir: "/h".to_string(),
        waybar_dir: "w".to_string(),
    };
    let r = Config::interpret_load(true, Some(cfg)).unwrap();
    assert_eq!(r.home_dir, "/h");
    assert_eq!(r.waybar_dir, "w");
}

#[test]
fn cache_load_missing_file_is_empty_record() {
    let r = Cache::interpret_load(false, None).unwrap();
    assert!(r.last_bar.is_none());
    assert!(r.last_style.is_none());
}

#[test]
fn cache_load_malformed_is_surfaced() {
    let r = Cache::interpret_load(true, None);
    match r {
        Err(BarChangerError::DeSerialization(m)) => assert_eq!(m, "cache"),
        _ => panic!("expected DeSerialization"),
    }
}

#[test]
fn cache_load_parsed_is_returned() {
    let cache = Cache {
        last_bar: Some("main".to_string()),
        last_style: Some("dark".to_string()),
    };
    let r = Cache::interpret_load(true, Some(cache)).unwrap();
    assert_eq!(r.last_bar.as_deref(), Some("main"));
    assert_eq!(r.last_style.as_deref(), Some("dark"));
}

#[test]
fn cache_round_trip_through_storage_format() {
    // A full switch decides the cache record; its persisted form is a small
    // key-value table, and reading that table back yields the same names.
    let cfg = Config {
        home_dir: "/home/user".to_string(),
        waybar_dir: ".config/waybar/".to_string(),
    };
    let cache = Cache {
        last_bar: None,
        last_style: None,
    };
    let outcome = switch(
        Some("main".to_string()),
        Some("dark".to_string()),
        &cfg,
        &cache,
        Some("{bar config}".to_string()),
        Some("body{}".to_string()),
        None,
    )
    .unwrap();
    let mut table = toml::Table::new();
    if let Some(b) = &outcome.cache.last_bar {
        table.insert("last_bar".to_string(), toml::Value::String(b.clone()));
    }
    if let Some(s) = &outcome.cache.last_style {
        table.insert("last_style".to_string(), toml::Value::String(s.clone()));
    }
    let stored = toml::to_string(&table).unwrap();
    let reloaded: toml::Table = toml::from_str(&stored).unwrap();
    assert_eq!(
        reloaded.get("last_bar").and_then(|v| v.as_str()),
        Some("main")
    );
    assert_eq!(
        reloaded.get("last_style").and_then(|v| v.as_str()),
        Some("dark")
    );
}

#[test]
fn error_messages_exact() {
    let e = BarChangerError::Io("broken pipe".to_string());
    assert_eq!(e.message(), "IO error: broken pipe");
    let e = BarChangerError::ConfigNotFound("main".to_string());
    assert_eq!(e.message(), "Config not found: main");
    let e = BarChangerError::InvalidInput("no style".to_string());
    assert_eq!(e.message(), "Invalid input: no style");
    let e = BarChangerError::StyleNotFound("main".to_string());
    assert_eq!(e.message(), "Style not found: main");
    let e = BarChangerError::PermissionDenied("setup".to_string());
    assert_eq!(e.message(), "Permission denied: setup");
    let e = BarChangerError::Serialization("config".to_string());
    assert_eq!(e.message(), "Failed serializing: config");
    let e = BarChangerError::DeSerialization("cache".to_string());
    assert_eq!(e.message(), "Failed deserializing: cache");
    let e = BarChangerError::Custom("oops".to_string());
    assert_eq!(e.message(), "Error: oops");
}

#[test]
fn error_from_string() {
    let e = BarChangerError::from("oops".to_string());
    assert!(matches!(e, BarChangerError::Custom(m) if m == "oops"));
}

#[test]
fn context_prefixes_custom_errors_only() {
    let r: Result<(), BarChangerError> = Err(BarChangerError::Custom("oops".to_string()));
    match r.context("Loading cache".to_string()) {
        Err(BarChangerError::Custom(m)) => assert_eq!(m, "Loading cache: oops"),
        _ => panic!("expected Custom"),
    }
    let r: Result<(), BarChangerError> = Err(BarChangerError::Io("disk".to_string()));
    match r.context("Loading cache".to_string()) {
        Err(BarChangerError::Io(m)) => assert_eq!(m, "disk"),
        _ => panic!("expected Io"),
    }
    let r: Result<u8, BarChangerError> = Ok(7);
    assert_eq!(r.context("Loading cache".to_string()).unwrap(), 7);
}

#[test]
fn init_starts_at_directory_question() {
    assert_eq!(init_start(false), InitState::AwaitingCreateConfirmation);
    assert_eq!(init_start(true), InitState::AwaitingPathChoice);
}

#[test]
fn init_create_confirmation_answers() {
    let s = InitState::AwaitingCreateConfirmation;
    let step = init_step(&s, &"y".to_string());
    assert_eq!(step.state, InitState::AwaitingPathChoice);
    assert!(matches!(step.effect, InitEffect::CreateConfigDir));
    let step = init_step(&s, &"Y".to_string());
    assert_eq!(step.state, InitState::AwaitingPathChoice);
    let step = init_step(&s, &"n".to_string());
    assert_eq!(step.state, InitState::Refused);
    assert!(matches!(step.effect, InitEffect::NoEffect));
    let step = init_step(&s, &"maybe".to_string());
    assert_eq!(step.state, InitState::AwaitingCreateConfirmation);
    assert!(matches!(step.effect, InitEffect::ReportInvalid));
}

#[test]
fn init_path_choice_answers() {
    let s = InitState::AwaitingPathChoice;
    let step = init_step(&s, &"y".to_string());
    assert_eq!(step.state, InitState::Done);
    assert!(matches!(step.effect, InitEffect::NoEffect));
    let step = init_step(&s, &"N".to_string());
    assert_eq!(step.state, InitState::AwaitingCustomPath);
    let step = init_step(&s, &"".to_string());
    assert_eq!(step.state, InitState::AwaitingPathChoice);
    assert!(matches!(step.effect, InitEffect::ReportInvalid));
}

#[test]
fn init_custom_path_is_taken_whole() {
    let step = init_step(&InitState::AwaitingCustomPath, &"bars/alt/".to_string());
    assert_eq!(step.state, InitState::Done);
    match step.effect {
        InitEffect::UseCustomPath(p) => assert_eq!(p, "bars/alt/"),
        _ => panic!("expected UseCustomPath"),
    }
}

#[test]
fn init_terminal_states_stay_put() {
    let step = init_step(&InitState::Done, &"y".to_string());
    assert_eq!(step.state, InitState::Done);
    let step = init_step(&InitState::Refused, &"y".to_string());
    assert_eq!(step.state, InitState::Refused);
}
