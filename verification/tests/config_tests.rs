use scx_loader::config::config_eq;
use scx_loader::config::get_default_config;
use scx_loader::config::get_scx_flags_for_mode;
use scx_loader::config::parse_config_content;
use scx_loader::config::select_config_path;
use scx_loader::config::ConfigError;
use scx_loader::defaults::get_default_scx_flags_for_mode;
use scx_loader::SchedMode;
use scx_loader::SupportedSched;

#[test]
fn test_default_config() {
    let config_str = r#"
default_mode = "Auto"

[scheds.scx_bpfland]
auto_mode = []
gaming_mode = ["-k", "-m", "performance"]
lowlatency_mode = ["--lowlatency"]
powersave_mode = ["-m", "powersave"]

[scheds.scx_rusty]
auto_mode = []
gaming_mode = []
lowlatency_mode = []
powersave_mode = []

[scheds.scx_lavd]
auto_mode = []
gaming_mode = ["--performance"]
lowlatency_mode = ["--performance"]
powersave_mode = ["--powersave"]
"#;

    let parsed_config = parse_config_content(config_str).expect("Failed to parse config");
    let expected_config = get_default_config();

    assert!(config_eq(&parsed_config, &expected_config));
}

#[test]
fn test_simple_fallback_config_flags() {
    let config_str = r#"
default_mode = "Auto"
"#;

    let parsed_config = parse_config_content(config_str).expect("Failed to parse config");

    let bpfland_flags =
        get_scx_flags_for_mode(&parsed_config, &SupportedSched::Bpfland, SchedMode::Gaming);
    let expected_flags =
        get_default_scx_flags_for_mode(&SupportedSched::Bpfland, SchedMode::Gaming);
    assert_eq!(
        bpfland_flags
            .iter()
            .map(|x| x.as_str())
            .collect::<Vec<&str>>(),
        expected_flags
    );
}

#[test]
fn test_sched_fallback_config_flags() {
    let config_str = r#"
default_mode = "Auto"

[scheds.scx_lavd]
auto_mode = ["--help"]
"#;

    let parsed_config = parse_config_content(config_str).expect("Failed to parse config");

    let lavd_flags = get_scx_flags_for_mode(&parsed_config, &SupportedSched::Lavd, SchedMode::Gaming);
    let expected_flags = get_default_scx_flags_for_mode(&SupportedSched::Lavd, SchedMode::Gaming);
    assert_eq!(
        lavd_flags.iter().map(|x| x.as_str()).collect::<Vec<&str>>(),
        expected_flags
    );

    let lavd_flags = get_scx_flags_for_mode(&parsed_config, &SupportedSched::Lavd, SchedMode::Auto);
    assert_eq!(
        lavd_flags.iter().map(|x| x.as_str()).collect::<Vec<&str>>(),
        vec!["--help"]
    );
}

#[test]
fn test_empty_config() {
    let config_str = "";
    let result = parse_config_content(config_str);
    assert!(result.is_err());
}

#[test]
fn test_empty_config_error_kind() {
    assert!(matches!(parse_config_content(""), Err(ConfigError::EmptyFile)));
}

#[test]
fn test_no_file_scenarios() {
    // With no file found, the caller falls back to the built-in configuration.
    let config = get_default_config();

    let flags = get_scx_flags_for_mode(&config, &SupportedSched::Bpfland, SchedMode::Gaming);
    assert_eq!(flags, vec!["-k", "-m", "performance"]);

    let flags = get_scx_flags_for_mode(&config, &SupportedSched::Lavd, SchedMode::PowerSave);
    assert_eq!(flags, vec!["--powersave"]);
}

#[test]
fn test_empty_override_is_final() {
    let config_str = r#"
[scheds.scx_bpfland]
gaming_mode = []
"#;
    let parsed_config = parse_config_content(config_str).expect("Failed to parse config");

    let gaming = get_scx_flags_for_mode(&parsed_config, &SupportedSched::Bpfland, SchedMode::Gaming);
    assert!(gaming.is_empty());

    // The other modes still fall back to the built-in table.
    let powersave =
        get_scx_flags_for_mode(&parsed_config, &SupportedSched::Bpfland, SchedMode::PowerSave);
    assert_eq!(powersave, vec!["-m", "powersave"]);
}

#[test]
fn test_rusty_modes_resolve_empty() {
    let config_str = r#"
[scheds.scx_rusty]
"#;
    let parsed_config = parse_config_content(config_str).expect("Failed to parse config");
    for mode in [
        SchedMode::Auto,
        SchedMode::Gaming,
        SchedMode::LowLatency,
        SchedMode::PowerSave,
    ] {
        let flags = get_scx_flags_for_mode(&parsed_config, &SupportedSched::Rusty, mode);
        assert!(flags.is_empty());
    }
}

#[test]
fn test_default_sched_and_mode_parsed() {
    let config_str = r#"
default_sched = "scx_lavd"
default_mode = "LowLatency"
"#;
    let parsed_config = parse_config_content(config_str).expect("Failed to parse config");
    assert_eq!(parsed_config.default_sched, Some(SupportedSched::Lavd));
    assert_eq!(parsed_config.default_mode, Some(SchedMode::LowLatency));
}

#[test]
fn test_parse_error_on_malformed_document() {
    assert!(matches!(
        parse_config_content("this is = not [ valid toml"),
        Err(ConfigError::Parse)
    ));
}

#[test]
fn test_parse_error_on_schema_mismatch() {
    // A wrong type or an unknown name anywhere in the schema is a parse error.
    for bad in [
        "default_sched = 123",
        "default_sched = \"unknown_sched\"",
        "default_mode = \"Bogus\"",
        "default_mode = [\"Auto\"]",
        "scheds = 5",
        "[scheds]\nscx_lavd = 3",
        "[scheds.scx_lavd]\nauto_mode = \"--help\"",
        "[scheds.scx_lavd]\nauto_mode = [1, 2]",
    ] {
        assert!(
            matches!(parse_config_content(bad), Err(ConfigError::Parse)),
            "expected a parse error for: {bad}"
        );
    }
}

#[test]
fn test_unknown_sched_key_retained_but_inert() {
    let config_str = r#"
[scheds.some_future_sched]
gaming_mode = ["-x"]
"#;
    let parsed_config = parse_config_content(config_str).expect("Failed to parse config");
    // The record is kept...
    assert_eq!(parsed_config.scheds.len(), 1);
    assert_eq!(parsed_config.scheds[0].0, "some_future_sched");
    // ...but never consulted for a known scheduler.
    let flags = get_scx_flags_for_mode(&parsed_config, &SupportedSched::Bpfland, SchedMode::Gaming);
    assert_eq!(flags, vec!["-k", "-m", "performance"]);
}

#[test]
fn test_unknown_top_level_keys_ignored() {
    let config_str = r#"
some_future_knob = true
default_mode = "Gaming"
"#;
    let parsed_config = parse_config_content(config_str).expect("Failed to parse config");
    assert_eq!(parsed_config.default_mode, Some(SchedMode::Gaming));
}

#[test]
fn test_round_trip_of_built_in_config() {
    // A document spelling out every built-in entry parses back to a
    // configuration equivalent to the built-in one, and resolves like it.
    let config_str = r#"
default_mode = "Auto"

[scheds.scx_bpfland]
auto_mode = []
gaming_mode = ["-k", "-m", "performance"]
lowlatency_mode = ["--lowlatency"]
powersave_mode = ["-m", "powersave"]

[scheds.scx_rusty]
auto_mode = []
gaming_mode = []
lowlatency_mode = []
powersave_mode = []

[scheds.scx_lavd]
auto_mode = []
gaming_mode = ["--performance"]
lowlatency_mode = ["--performance"]
powersave_mode = ["--powersave"]
"#;
    let parsed_config = parse_config_content(config_str).expect("Failed to parse config");
    let built_in = get_default_config();
    assert!(config_eq(&parsed_config, &built_in));
    assert!(config_eq(&built_in, &parsed_config));
    for sched in [
        SupportedSched::Bpfland,
        SupportedSched::Rusty,
        SupportedSched::Lavd,
    ] {
        for mode in [
            SchedMode::Auto,
            SchedMode::Gaming,
            SchedMode::LowLatency,
            SchedMode::PowerSave,
        ] {
            assert_eq!(
                get_scx_flags_for_mode(&parsed_config, &sched, mode),
                get_scx_flags_for_mode(&built_in, &sched, mode)
            );
        }
    }
}

#[test]
fn test_config_eq_is_order_insensitive() {
    let a = parse_config_content(
        "[scheds.scx_lavd]\nauto_mode = [\"-a\"]\n[scheds.scx_rusty]\ngaming_mode = []\n",
    )
    .expect("Failed to parse config");
    let b = parse_config_content(
        "[scheds.scx_rusty]\ngaming_mode = []\n[scheds.scx_lavd]\nauto_mode = [\"-a\"]\n",
    )
    .expect("Failed to parse config");
    assert!(config_eq(&a, &b));
}

#[test]
fn test_config_eq_tells_configs_apart() {
    let a = parse_config_content("[scheds.scx_lavd]\nauto_mode = [\"-a\"]\n")
        .expect("Failed to parse config");
    let b = parse_config_content("[scheds.scx_lavd]\nauto_mode = []\n")
        .expect("Failed to parse config");
    let c = parse_config_content("[scheds.scx_lavd]\ngaming_mode = [\"-a\"]\n")
        .expect("Failed to parse config");
    assert!(!config_eq(&a, &b));
    assert!(!config_eq(&a, &c));
    assert!(!config_eq(&b, &c));
}

#[test]
fn test_select_config_path_order() {
    assert_eq!(select_config_path(true, true), Some("/etc/scx_loader/config.toml"));
    assert_eq!(select_config_path(true, false), Some("/etc/scx_loader/config.toml"));
    assert_eq!(select_config_path(false, true), Some("/etc/scx_loader.toml"));
    assert_eq!(select_config_path(false, false), None);
}
