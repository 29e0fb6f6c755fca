//! The configuration of one run, and how presets and command-line arguments
//! make it.

use vstd::prelude::*;
use vstd::string::StringExecFns;
use crate::crt::CrtField;
use crate::text::{lines_view, text_view};

verus! {

/// Retries made after the first attempt, unless configured.
pub const DEFAULT_RETRY_COUNT: u32 = 0;

/// The delay before the first retry, in nanoseconds, unless configured: one
/// second.
pub const DEFAULT_RETRY_DELAY_NANOS: u64 = 1_000_000_000;

/// The request timeout in seconds, unless configured.
pub const DEFAULT_TIMEOUT_SECS: u64 = 30;

/// What one run of the pipeline is asked to do.
///
/// `retry` counts the attempts made after the first one. `retry_delay_nanos`
/// is the delay before the first retry; it doubles with every further retry.
#[derive(Debug, Clone, PartialEq, Eq)]
pub struct Config {
    pub retry: u32,
    pub retry_delay_nanos: u64,
    pub timeout: u64,
    pub timing: bool,
    pub url: String,
    pub verbose: bool,
}

/// A configuration with its URL as a sequence of characters.
pub struct ConfigView {
    pub retry: u32,
    pub retry_delay_nanos: u64,
    pub timeout: u64,
    pub timing: bool,
    pub url: Seq<char>,
    pub verbose: bool,
}

impl View for Config {
    type V = ConfigView;

    open spec fn view(&self) -> ConfigView {
        ConfigView {
            retry: self.retry,
            retry_delay_nanos: self.retry_delay_nanos,
            timeout: self.timeout,
            timing: self.timing,
            url: self.url@,
            verbose: self.verbose,
        }
    }
}

/// The configuration that holds when nothing was configured.
pub open spec fn default_config() -> ConfigView {
    ConfigView {
        retry: DEFAULT_RETRY_COUNT,
        retry_delay_nanos: DEFAULT_RETRY_DELAY_NANOS,
        timeout: DEFAULT_TIMEOUT_SECS,
        timing: false,
        url: Seq::empty(),
        verbose: false,
    }
}

impl Default for Config {
    fn default() -> (config: Config)
        ensures
            config@ == default_config(),
    {
        Config {
            retry: DEFAULT_RETRY_COUNT,
            retry_delay_nanos: DEFAULT_RETRY_DELAY_NANOS,
            timeout: DEFAULT_TIMEOUT_SECS,
            timing: false,
            url: String::new(),
            verbose: false,
        }
    }
}

/// A named set of overrides from a configuration file. A member that is
/// `None` leaves the default in place.
#[derive(Debug, Clone, PartialEq, Eq)]
pub struct ConfigPreset {
    pub url: Option<String>,
    pub timeout: Option<u64>,
    pub timing: Option<bool>,
    pub verbose: Option<bool>,
    pub retry: Option<u32>,
    pub retry_delay_nanos: Option<u64>,
}

/// A preset under its name.
#[derive(Debug, Clone, PartialEq, Eq)]
pub struct NamedPreset {
    pub name: String,
    pub preset: ConfigPreset,
}

/// The presets of a configuration file, in the order in which the file's
/// reader hands them over.
#[derive(Debug, Clone, PartialEq, Eq)]
pub struct ConfigFile {
    pub preset: Vec<NamedPreset>,
}

/// What is wrong with a configuration.
#[derive(Debug, Clone, PartialEq, Eq)]
pub enum ConfigError {
    /// No URL was configured.
    MissingUrl,
    /// The configuration file has no preset of this name.
    PresetNotFound { name: String },
    /// The configuration file has no preset at all.
    NoPresets,
}

/// A configuration error with its texts as sequences of characters.
pub enum ConfigErrorView {
    MissingUrl,
    PresetNotFound { name: Seq<char> },
    NoPresets,
}

impl View for ConfigError {
    type V = ConfigErrorView;

    open spec fn view(&self) -> ConfigErrorView {
        match self {
            ConfigError::MissingUrl => ConfigErrorView::MissingUrl,
            ConfigError::PresetNotFound { name } => ConfigErrorView::PresetNotFound { name: name@ },
            ConfigError::NoPresets => ConfigErrorView::NoPresets,
        }
    }
}

impl ConfigError {
    /// The error in words.
    pub open spec fn message_text(self) -> Seq<char> {
        match self {
            ConfigError::MissingUrl => "URL is required. Use -u/--url option or specify in config file."@,
            ConfigError::PresetNotFound { name } => "Preset '"@ + name@ + "' not found in config file"@,
            ConfigError::NoPresets => "No presets found in config file"@,
        }
    }

    /// The error in words.
    pub fn message(&self) -> (text: String)
        ensures
            text@ == self.message_text(),
    {
        match self {
            ConfigError::MissingUrl => String::from_str(
                "URL is required. Use -u/--url option or specify in config file.",
            ),
            ConfigError::PresetNotFound { name } => {
                let mut text = String::from_str("Preset '");
                text.append(name.as_str());
                text.append("' not found in config file");
                text
            },
            ConfigError::NoPresets => String::from_str("No presets found in config file"),
        }
    }
}

/// The value of an option, or `default` where it is `None`.
pub open spec fn value_or<T>(value: Option<T>, default: T) -> T {
    match value {
        Some(v) => v,
        None => default,
    }
}

/// The configuration that a preset stands for.
pub open spec fn preset_config(preset: ConfigPreset) -> ConfigView {
    ConfigView {
        retry: value_or(preset.retry, DEFAULT_RETRY_COUNT),
        retry_delay_nanos: value_or(preset.retry_delay_nanos, DEFAULT_RETRY_DELAY_NANOS),
        timeout: value_or(preset.timeout, DEFAULT_TIMEOUT_SECS),
        timing: value_or(preset.timing, false),
        url: value_or(text_view(preset.url), Seq::empty()),
        verbose: value_or(preset.verbose, false),
    }
}

/// Makes the configuration that a preset stands for: each member that the
/// preset sets, and the default for each that it does not.
pub fn create_config_from_preset(preset: &ConfigPreset) -> (config: Config)
    ensures
        config@ == preset_config(*preset),
{
    Config {
        retry: match preset.retry {
            Some(retry) => retry,
            None => DEFAULT_RETRY_COUNT,
        },
        retry_delay_nanos: match preset.retry_delay_nanos {
            Some(delay) => delay,
            None => DEFAULT_RETRY_DELAY_NANOS,
        },
        timeout: match preset.timeout {
            Some(timeout) => timeout,
            None => DEFAULT_TIMEOUT_SECS,
        },
        timing: match preset.timing {
            Some(timing) => timing,
            None => false,
        },
        url: match &preset.url {
            Some(url) => url.clone(),
            None => String::new(),
        },
        verbose: match preset.verbose {
            Some(verbose) => verbose,
            None => false,
        },
    }
}

/// The index of the first preset called `name` at or after `start`.
pub open spec fn preset_index_from(presets: Seq<NamedPreset>, name: Seq<char>, start: int) -> Option<int>
    decreases presets.len() - start,
{
    if start < 0 || start >= presets.len() {
        None
    } else if presets[start].name@ == name {
        Some(start)
    } else {
        preset_index_from(presets, name, start + 1)
    }
}

/// The preset that a name selects: the first one of that name, or the first
/// one of the file where no name is given.
pub open spec fn selected_preset(presets: Seq<NamedPreset>, name: Option<Seq<char>>) -> Result<
    ConfigPreset,
    ConfigErrorView,
> {
    match name {
        Some(wanted) => match preset_index_from(presets, wanted, 0) {
            Some(i) => Ok(presets[i].preset),
            None => Err(ConfigErrorView::PresetNotFound { name: wanted }),
        },
        None => if presets.len() > 0 {
            Ok(presets[0].preset)
        } else {
            Err(ConfigErrorView::NoPresets)
        },
    }
}

/// The text of an optional name.
pub open spec fn name_view(name: Option<&str>) -> Option<Seq<char>> {
    match name {
        Some(n) => Some(n@),
        None => None,
    }
}

/// Picks the preset that `preset_name` selects: the first preset of that
/// name, or the first preset of the file where no name is given.
pub fn get_preset<'a>(config_file: &'a ConfigFile, preset_name: Option<&str>) -> (found: Result<
    &'a ConfigPreset,
    ConfigError,
>)
    ensures
        match found {
            Ok(preset) => selected_preset(config_file.preset@, name_view(preset_name)) == Ok::<
                ConfigPreset,
                ConfigErrorView,
            >(*preset),
            Err(e) => selected_preset(config_file.preset@, name_view(preset_name)) == Err::<
                ConfigPreset,
                ConfigErrorView,
            >(e@),
        },
{
    match preset_name {
        Some(name) => {
            let wanted = name.to_owned();
            let mut i: usize = 0;
            while i < config_file.preset.len()
                invariant
                    i <= config_file.preset.len(),
                    preset_name == Some(name),
                    wanted@ == name@,
                    preset_index_from(config_file.preset@, name@, 0) == preset_index_from(
                        config_file.preset@,
                        name@,
                        i as int,
                    ),
                decreases config_file.preset.len() - i,
            {
                if config_file.preset[i].name == wanted {
                    return Ok(&config_file.preset[i].preset);
                }
                i += 1;
            }
            Err(ConfigError::PresetNotFound { name: wanted })
        },
        None => {
            if config_file.preset.len() > 0 {
                Ok(&config_file.preset[0].preset)
            } else {
                Err(ConfigError::NoPresets)
            }
        },
    }
}

/// The configuration that a configuration file gives under a preset name.
pub open spec fn loaded_config(presets: Seq<NamedPreset>, name: Option<Seq<char>>) -> Result<
    ConfigView,
    ConfigErrorView,
> {
    match selected_preset(presets, name) {
        Ok(preset) => Ok(preset_config(preset)),
        Err(e) => Err(e),
    }
}

/// Makes the configuration that the selected preset of a configuration file
/// stands for.
pub fn load_preset(config_file: &ConfigFile, preset_name: Option<&str>) -> (loaded: Result<
    Config,
    ConfigError,
>)
    ensures
        match loaded {
            Ok(config) => loaded_config(config_file.preset@, name_view(preset_name)) == Ok::<
                ConfigView,
                ConfigErrorView,
            >(config@),
            Err(e) => loaded_config(config_file.preset@, name_view(preset_name)) == Err::<
                ConfigView,
                ConfigErrorView,
            >(e@),
        },
{
    match get_preset(config_file, preset_name) {
        Ok(preset) => Ok(create_config_from_preset(preset)),
        Err(e) => Err(e),
    }
}

/// Accepts a configuration that names a URL.
pub fn validate_config(config: &Config) -> (valid: Result<(), ConfigError>)
    ensures
        config.url@.len() > 0 ==> valid is Ok,
        config.url@.len() == 0 ==> valid == Err::<(), ConfigError>(ConfigError::MissingUrl),
{
    if config.url.as_str().is_empty() {
        return Err(ConfigError::MissingUrl);
    }
    Ok(())
}

/// How the result is shown.
#[derive(Debug, Clone, Copy, PartialEq, Eq, Structural)]
pub enum Format {
    /// The records in a table.
    Table,
    /// The body as text.
    Raw,
}

/// How the result is shown, and which columns of the records.
#[derive(Debug, Clone, PartialEq, Eq)]
pub struct OutputConfig {
    pub format: Format,
    pub column_names: Vec<String>,
}

/// What the command line gave. `retry`, `retry_delay_nanos` and `timeout`
/// hold their default where the command line did not name them.
#[derive(Debug, Clone, PartialEq, Eq)]
pub struct Args {
    pub config: Option<String>,
    pub column_names: Vec<String>,
    pub format: Option<String>,
    pub hostname: Option<String>,
    pub preset: Option<String>,
    pub retry: u32,
    pub retry_delay_nanos: u64,
    pub timeout: u64,
    pub timing: bool,
    pub verbose: bool,
}

/// The URL that searches the service for a host name.
pub open spec fn api_url(hostname: Seq<char>) -> Seq<char> {
    "https://crt.sh/?q="@ + hostname + "&output=json"@
}

/// The format that a name stands for: `raw` for the body as text, any other
/// name for the table.
pub open spec fn format_named(name: Seq<char>) -> Format {
    if name == "raw"@ {
        Format::Raw
    } else {
        Format::Table
    }
}

/// The columns that are shown where none was chosen: all of them.
pub open spec fn default_column_names() -> Seq<Seq<char>> {
    seq![
        CrtField::Id.key(),
        CrtField::CommonName.key(),
        CrtField::EntryTimestamp.key(),
        CrtField::IssuerCaId.key(),
        CrtField::IssuerName.key(),
        CrtField::NameValue.key(),
        CrtField::NotBefore.key(),
        CrtField::NotAfter.key(),
        CrtField::ResultCount.key(),
        CrtField::SerialNumber.key(),
    ]
}

/// Takes target and timeout from the command line: a host name makes the
/// URL, and a timeout other than the default replaces the configured one.
pub fn apply_request_config(config: &mut Config, args: &Args)
    ensures
        final(config)@ == (ConfigView {
            url: match args.hostname {
                Some(hostname) => api_url(hostname@),
                None => old(config).url@,
            },
            timeout: if args.timeout != DEFAULT_TIMEOUT_SECS {
                args.timeout
            } else {
                old(config).timeout
            },
            ..old(config)@
        }),
{
    if let Some(hostname) = &args.hostname {
        let mut url = String::from_str("https://crt.sh/?q=");
        url.append(hostname.as_str());
        url.append("&output=json");
        config.url = url;
    }
    if args.timeout != DEFAULT_TIMEOUT_SECS {
        config.timeout = args.timeout;
    }
}

/// Takes format and columns from the command line: a format name chooses
/// the format, and the columns named replace all others; where none is
/// named, every column is shown.
pub fn apply_output_config(output: &mut OutputConfig, args: &Args)
    ensures
        final(output).format == match args.format {
            Some(name) => format_named(name@),
            None => old(output).format,
        },
        lines_view(final(output).column_names@) == if args.column_names@.len() > 0 {
            lines_view(args.column_names@)
        } else {
            default_column_names()
        },
{
    if let Some(format) = &args.format {
        let raw = String::from_str("raw");
        output.format = if *format == raw {
            Format::Raw
        } else {
            Format::Table
        };
    }
    if args.column_names.len() > 0 {
        let mut names: Vec<String> = Vec::new();
        let mut i: usize = 0;
        while i < args.column_names.len()
            invariant
                i <= args.column_names.len(),
                lines_view(names@) == lines_view(args.column_names@).take(i as int),
            decreases args.column_names.len() - i,
        {
            let name = args.column_names[i].clone();
            names.push(name);
            proof {
                assert(lines_view(args.column_names@).take(i + 1) =~= lines_view(args.column_names@).take(
                    i as int,
                ).push(name@));
            }
            i += 1;
        }
        output.column_names = names;
        return ;
    }
    let mut names: Vec<String> = Vec::new();
    names.push(String::from_str(CrtField::Id.name()));
    names.push(String::from_str(CrtField::CommonName.name()));
    names.push(String::from_str(CrtField::EntryTimestamp.name()));
    names.push(String::from_str(CrtField::IssuerCaId.name()));
    names.push(String::from_str(CrtField::IssuerName.name()));
    names.push(String::from_str(CrtField::NameValue.name()));
    names.push(String::from_str(CrtField::NotBefore.name()));
    names.push(String::from_str(CrtField::NotAfter.name()));
    names.push(String::from_str(CrtField::ResultCount.name()));
    names.push(String::from_str(CrtField::SerialNumber.name()));
    output.column_names = names;
}

/// Takes the retry settings from the command line: each one that differs
/// from its default replaces the configured one.
pub fn apply_retry_config(config: &mut Config, args: &Args)
    ensures
        final(config)@ == (ConfigView {
            retry: if args.retry != DEFAULT_RETRY_COUNT {
                args.retry
            } else {
                old(config).retry
            },
            retry_delay_nanos: if args.retry_delay_nanos != DEFAULT_RETRY_DELAY_NANOS {
                args.retry_delay_nanos
            } else {
                old(config).retry_delay_nanos
            },
            ..old(config)@
        }),
{
    if args.retry != DEFAULT_RETRY_COUNT {
        config.retry = args.retry;
    }
    if args.retry_delay_nanos != DEFAULT_RETRY_DELAY_NANOS {
        config.retry_delay_nanos = args.retry_delay_nanos;
    }
}

/// Takes the flags from the command line: a flag that is given switches its
/// setting on, and none switches one off.
pub fn apply_flags(config: &mut Config, args: &Args)
    ensures
        final(config)@ == (ConfigView {
            timing: old(config).timing || args.timing,
            verbose: old(config).verbose || args.verbose,
            ..old(config)@
        }),
{
    if args.timing {
        config.timing = true;
    }
    if args.verbose {
        config.verbose = true;
    }
}

/// The configuration after the command line was laid over it.
pub open spec fn config_with_args(config: ConfigView, args: Args) -> ConfigView {
    ConfigView {
        retry: if args.retry != DEFAULT_RETRY_COUNT {
            args.retry
        } else {
            config.retry
        },
        retry_delay_nanos: if args.retry_delay_nanos != DEFAULT_RETRY_DELAY_NANOS {
            args.retry_delay_nanos
        } else {
            config.retry_delay_nanos
        },
        timeout: if args.timeout != DEFAULT_TIMEOUT_SECS {
            args.timeout
        } else {
            config.timeout
        },
        timing: config.timing || args.timing,
        url: match args.hostname {
            Some(hostname) => api_url(hostname@),
            None => config.url,
        },
        verbose: config.verbose || args.verbose,
    }
}

/// Lays the command line over the configuration: what the command line
/// names replaces what the configuration file or the defaults gave.
pub fn apply_args_to_config(config: &mut Config, output: &mut OutputConfig, args: Args)
    ensures
        final(config)@ == config_with_args(old(config)@, args),
        final(output).format == match args.format {
            Some(name) => format_named(name@),
            None => old(output).format,
        },
        lines_view(final(output).column_names@) == if args.column_names@.len() > 0 {
            lines_view(args.column_names@)
        } else {
            default_column_names()
        },
{
    apply_request_config(config, &args);
    apply_output_config(output, &args);
    apply_retry_config(config, &args);
    apply_flags(config, &args);
}

} // verus!
