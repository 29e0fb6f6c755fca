use rs_crtsh::config::{
    apply_args_to_config, apply_flags, apply_output_config, apply_request_config, apply_retry_config,
    create_config_from_preset, get_preset, load_preset, validate_config, Args, Config, ConfigError,
    ConfigFile, ConfigPreset, Format, NamedPreset, OutputConfig, DEFAULT_RETRY_COUNT,
    DEFAULT_RETRY_DELAY_NANOS, DEFAULT_TIMEOUT_SECS,
};

fn empty_preset() -> ConfigPreset {
    ConfigPreset { url: None, timeout: None, timing: None, verbose: None, retry: None, retry_delay_nanos: None }
}

fn full_preset() -> ConfigPreset {
    ConfigPreset {
        url: Some(String::from("https://example.test/q")),
        timeout: Some(5),
        timing: Some(true),
        verbose: Some(true),
        retry: Some(2),
        retry_delay_nanos: Some(250_000_000),
    }
}

fn named(name: &str, preset: ConfigPreset) -> NamedPreset {
    NamedPreset { name: String::from(name), preset }
}

fn no_args() -> Args {
    Args {
        config: None,
        column_names: vec![],
        format: None,
        hostname: None,
        preset: None,
        retry: DEFAULT_RETRY_COUNT,
        retry_delay_nanos: DEFAULT_RETRY_DELAY_NANOS,
        timeout: DEFAULT_TIMEOUT_SECS,
        timing: false,
        verbose: false,
    }
}

fn configured() -> Config {
    Config {
        retry: 4,
        retry_delay_nanos: 7,
        timeout: 9,
        timing: true,
        url: String::from("https://example.test/q"),
        verbose: true,
    }
}

#[test]
fn default_config_has_the_documented_values() {
    let config = Config::default();
    assert_eq!(config.retry, 0);
    assert_eq!(config.retry_delay_nanos, 1_000_000_000);
    assert_eq!(config.timeout, 30);
    assert!(!config.timing);
    assert_eq!(config.url, "");
    assert!(!config.verbose);
}

#[test]
fn empty_preset_gives_the_defaults() {
    assert_eq!(create_config_from_preset(&empty_preset()), Config::default());
}

#[test]
fn preset_overrides_what_it_sets() {
    assert_eq!(
        create_config_from_preset(&full_preset()),
        Config {
            retry: 2,
            retry_delay_nanos: 250_000_000,
            timeout: 5,
            timing: true,
            url: String::from("https://example.test/q"),
            verbose: true,
        }
    );
    let mut partly = empty_preset();
    partly.retry = Some(3);
    let config = create_config_from_preset(&partly);
    assert_eq!(config.retry, 3);
    assert_eq!(config.timeout, 30);
}

#[test]
fn preset_is_found_by_name() {
    let file = ConfigFile { preset: vec![named("slow", empty_preset()), named("fast", full_preset())] };
    assert_eq!(get_preset(&file, Some("fast")), Ok(&full_preset()));
    assert_eq!(get_preset(&file, Some("slow")), Ok(&empty_preset()));
}

#[test]
fn first_preset_of_a_name_is_taken() {
    let mut other = empty_preset();
    other.timeout = Some(1);
    let file = ConfigFile { preset: vec![named("a", other.clone()), named("a", full_preset())] };
    assert_eq!(get_preset(&file, Some("a")), Ok(&other));
}

#[test]
fn unknown_preset_is_an_error() {
    let file = ConfigFile { preset: vec![named("slow", empty_preset())] };
    let error = get_preset(&file, Some("fast")).unwrap_err();
    assert_eq!(error, ConfigError::PresetNotFound { name: String::from("fast") });
    assert_eq!(error.message(), "Preset 'fast' not found in config file");
    let empty = ConfigFile { preset: vec![] };
    assert_eq!(
        get_preset(&empty, Some("fast")),
        Err(ConfigError::PresetNotFound { name: String::from("fast") })
    );
}

#[test]
fn first_preset_is_taken_without_a_name() {
    let file = ConfigFile { preset: vec![named("fast", full_preset()), named("slow", empty_preset())] };
    assert_eq!(get_preset(&file, None), Ok(&full_preset()));
}

#[test]
fn file_without_presets_is_an_error() {
    let file = ConfigFile { preset: vec![] };
    let error = get_preset(&file, None).unwrap_err();
    assert_eq!(error, ConfigError::NoPresets);
    assert_eq!(error.message(), "No presets found in config file");
    assert_eq!(load_preset(&file, None), Err(ConfigError::NoPresets));
}

#[test]
fn load_preset_makes_the_config_of_the_preset() {
    let file = ConfigFile { preset: vec![named("slow", empty_preset()), named("fast", full_preset())] };
    assert_eq!(load_preset(&file, Some("fast")), Ok(create_config_from_preset(&full_preset())));
    assert_eq!(load_preset(&file, None), Ok(Config::default()));
    assert_eq!(
        load_preset(&file, Some("none")),
        Err(ConfigError::PresetNotFound { name: String::from("none") })
    );
}

#[test]
fn config_without_url_is_refused() {
    let error = validate_config(&Config::default()).unwrap_err();
    assert_eq!(error, ConfigError::MissingUrl);
    assert_eq!(error.message(), "URL is required. Use -u/--url option or specify in config file.");
    assert_eq!(validate_config(&configured()), Ok(()));
}

#[test]
fn hostname_makes_the_url() {
    let mut config = configured();
    let mut args = no_args();
    args.hostname = Some(String::from("example.org"));
    apply_request_config(&mut config, &args);
    assert_eq!(config.url, "https://crt.sh/?q=example.org&output=json");
    assert_eq!(config.timeout, 9);
    let mut unchanged = configured();
    apply_request_config(&mut unchanged, &no_args());
    assert_eq!(unchanged, configured());
}

#[test]
fn timeout_other_than_default_replaces_the_configured_one() {
    let mut config = configured();
    let mut args = no_args();
    args.timeout = 60;
    apply_request_config(&mut config, &args);
    assert_eq!(config.timeout, 60);
    assert_eq!(config.url, "https://example.test/q");
}

#[test]
fn retry_settings_other_than_default_replace_the_configured_ones() {
    let mut config = configured();
    let mut args = no_args();
    args.retry = 5;
    apply_retry_config(&mut config, &args);
    assert_eq!(config.retry, 5);
    assert_eq!(config.retry_delay_nanos, 7);
    args.retry = DEFAULT_RETRY_COUNT;
    args.retry_delay_nanos = 2_000_000_000;
    apply_retry_config(&mut config, &args);
    assert_eq!(config.retry, 5);
    assert_eq!(config.retry_delay_nanos, 2_000_000_000);
}

#[test]
fn flags_switch_on_and_never_off() {
    let mut config = Config::default();
    let mut args = no_args();
    args.timing = true;
    apply_flags(&mut config, &args);
    assert!(config.timing);
    assert!(!config.verbose);
    args.timing = false;
    args.verbose = true;
    apply_flags(&mut config, &args);
    assert!(config.timing);
    assert!(config.verbose);
    apply_flags(&mut config, &no_args());
    assert!(config.timing);
    assert!(config.verbose);
}

#[test]
fn format_name_chooses_the_format() {
    let mut output = OutputConfig { format: Format::Table, column_names: vec![] };
    let mut args = no_args();
    args.format = Some(String::from("raw"));
    apply_output_config(&mut output, &args);
    assert_eq!(output.format, Format::Raw);
    args.format = Some(String::from("table"));
    apply_output_config(&mut output, &args);
    assert_eq!(output.format, Format::Table);
    output.format = Format::Raw;
    args.format = Some(String::from("csv"));
    apply_output_config(&mut output, &args);
    assert_eq!(output.format, Format::Table);
    output.format = Format::Raw;
    args.format = None;
    apply_output_config(&mut output, &args);
    assert_eq!(output.format, Format::Raw);
}

#[test]
fn columns_default_to_all() {
    let mut output = OutputConfig { format: Format::Table, column_names: vec![String::from("x")] };
    apply_output_config(&mut output, &no_args());
    assert_eq!(
        output.column_names,
        vec![
            "id",
            "common_name",
            "entry_timestamp",
            "issuer_ca_id",
            "issuer_name",
            "name_value",
            "not_before",
            "not_after",
            "result_count",
            "serial_number"
        ]
    );
}

#[test]
fn columns_named_replace_all_others() {
    let mut output = OutputConfig { format: Format::Table, column_names: vec![String::from("x")] };
    let mut args = no_args();
    args.column_names = vec![String::from("id"), String::from("not_after")];
    apply_output_config(&mut output, &args);
    assert_eq!(output.column_names, vec!["id", "not_after"]);
}

#[test]
fn command_line_is_laid_over_the_config() {
    let mut config = configured();
    let mut output = OutputConfig { format: Format::Table, column_names: vec![] };
    let args = Args {
        config: None,
        column_names: vec![String::from("id")],
        format: Some(String::from("raw")),
        hostname: Some(String::from("example.org")),
        preset: None,
        retry: 1,
        retry_delay_nanos: 3,
        timeout: 2,
        timing: false,
        verbose: false,
    };
    apply_args_to_config(&mut config, &mut output, args);
    assert_eq!(
        config,
        Config {
            retry: 1,
            retry_delay_nanos: 3,
            timeout: 2,
            timing: true,
            url: String::from("https://crt.sh/?q=example.org&output=json"),
            verbose: true,
        }
    );
    assert_eq!(output, OutputConfig { format: Format::Raw, column_names: vec![String::from("id")] });
}
