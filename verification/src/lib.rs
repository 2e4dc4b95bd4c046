//! Engine options for the game: read from the configuration file of the
//! home directory, overlaid with the command line, checked, and then read
//! and changed field by field.

pub mod cli;
pub mod config;

pub mod engine;
pub mod home;
pub mod json;
pub mod launcher;
pub mod resolution;
pub mod resources;
pub mod text;

use crate::cli::{
    apply_arguments, overlay, parse_args, parsed_arguments, parsed_overlay, CommandLine,
    CommandLineView,
};
use crate::config::{
    options_from_config, options_of, options_outcome, parse_json_config, parsed_config,
    write_json_config, written_config, ConfigRead, ConfigReadView, ConfigValues,
    ConfigValuesView,
};
use crate::engine::{EngineOptions, EngineOptionsView};
use crate::home::{build_json_config_location, config_file_name, path_in, Platform};
use crate::resources::ResourceVersion;
use crate::text::text_view;
use vstd::prelude::*;
use vstd::string::*;

verus! {

/// The message for options without a data directory.
pub const MISSING_DATA_DIR: &'static str = "Vanilla data directory has to be set either in config file or per command line switch";

/// What building the options answers where no data directory is set.
pub open spec fn missing_data_dir_message() -> Seq<char> {
    MISSING_DATA_DIR@
}

/// The last check on merged options: the data directory has to be set.
pub open spec fn validated(options: EngineOptionsView, refusal: Option<Seq<char>>) -> Result<
    EngineOptionsView,
    Seq<char>,
> {
    match refusal {
        Some(message) => Err(message),
        None => if options.vanilla_data_dir.len() == 0 {
            Err(missing_data_dir_message())
        } else {
            Ok(options)
        },
    }
}

/// The options that a configuration and a command line give together: the
/// options of the configuration with the command line laid over them, if the
/// command line is taken and a data directory is set by one of the two.
pub open spec fn merged_options(
    stracciatella_home: Seq<char>,
    values: ConfigValuesView,
    command_line: CommandLineView,
) -> Result<EngineOptionsView, Seq<char>> {
    validated(
        overlay(options_of(stracciatella_home, values), command_line).0,
        overlay(options_of(stracciatella_home, values), command_line).1,
    )
}

fn validate(options: EngineOptions, refusal: Option<String>) -> (checked: Result<
    EngineOptions,
    String,
>)
    ensures
        options_outcome(checked) == validated(options@, text_view(refusal)),
{
    match refusal {
        Some(message) => Err(message),
        None => {
            if options.vanilla_data_dir.as_str().unicode_len() == 0 {
                Err(
                    MISSING_DATA_DIR.to_owned(),
                )
            } else {
                Ok(options)
            }
        },
    }
}

/// Merges a configuration and a command line into engine options. The
/// command line goes over the configuration, and the configuration over the
/// defaults. Either there are checked options, or an error and no options.
pub fn merge_engine_options(
    stracciatella_home: &str,
    values: ConfigValues,
    command_line: &CommandLine,
) -> (options: Result<EngineOptions, String>)
    ensures
        options_outcome(options) == merged_options(
            stracciatella_home@,
            values@,
            command_line.deep_view(),
        ),
{
    let mut merged = options_from_config(stracciatella_home, values);
    let refusal = apply_arguments(&mut merged, command_line);
    validate(merged, refusal)
}

/// What building the options gives, from the outcome of reading the
/// configuration file and the outcome of the option parser on the command line.
pub open spec fn built_options(
    stracciatella_home: Seq<char>,
    read: ConfigReadView,
    args: Seq<Seq<char>>,
) -> Result<EngineOptionsView, Seq<char>> {
    match parsed_config(stracciatella_home, read) {
        Ok(configured) => {
            let merged = parsed_overlay(configured, parsed_arguments(args));
            validated(merged.0, merged.1)
        },
        Err(message) => Err(message),
    }
}

/// Builds the engine options for a session. `stracciatella_home` is the
/// engine's home directory, `read` is what reading the configuration file in
/// it gave, and `args` is the command line with the program's name first. The stages run
/// in order and the first that fails gives the error: reading the
/// configuration, reading the command line, and the check that a data
/// directory is set.
pub fn build_engine_options_from_env_and_args(
    stracciatella_home: &str,
    read: ConfigRead,
    args: Vec<String>,
) -> (options: Result<EngineOptions, String>)
    ensures
        options_outcome(options) == built_options(
            stracciatella_home@,
            read.deep_view(),
            args.deep_view(),
        ),
{
    match parse_json_config(stracciatella_home, read) {
        Ok(configured) => {
            let mut merged = configured;
            let refusal = parse_args(&mut merged, args);
            validate(merged, refusal)
        },
        Err(message) => Err(message),
    }
}

/// A configuration without a data directory, under a command line without
/// one, never gives options; where the command line is taken, the error is
/// that the data directory has to be set.
pub proof fn lemma_data_dir_is_required(
    stracciatella_home: Seq<char>,
    values: ConfigValuesView,
    command_line: CommandLineView,
)
    requires
        values.data_dir.len() == 0,
        command_line.datadir is None,
    ensures
        merged_options(stracciatella_home, values, command_line) is Err,
        overlay(options_of(stracciatella_home, values), command_line).1 is None
            ==> merged_options(stracciatella_home, values, command_line) == Err::<
            EngineOptionsView,
            Seq<char>,
        >(missing_data_dir_message()),
{
}

/// Options are only ever built with a data directory.
pub proof fn lemma_built_options_have_data_dir(
    stracciatella_home: Seq<char>,
    values: ConfigValuesView,
    command_line: CommandLineView,
)
    ensures
        merged_options(stracciatella_home, values, command_line) matches Ok(options)
            ==> options.vanilla_data_dir.len() > 0,
{
}

/// The configuration file to write: where, and with which contents.
#[derive(Debug, PartialEq, Eq)]
pub struct ConfigFile {
    pub path: String,
    pub contents: String,
}

pub ghost struct ConfigFileView {
    pub path: Seq<char>,
    pub contents: Seq<char>,
}

impl DeepView for ConfigFile {
    type V = ConfigFileView;

    open spec fn deep_view(&self) -> ConfigFileView {
        ConfigFileView { path: self.path@, contents: self.contents@ }
    }
}

pub open spec fn file_outcome(outcome: Result<ConfigFile, String>) -> Result<
    ConfigFileView,
    Seq<char>,
> {
    match outcome {
        Ok(file) => Ok(file.deep_view()),
        Err(message) => Err(message@),
    }
}

/// The file that holds the options once it is written: the configuration
/// file of the options' own home directory, with the options as JSON.
pub open spec fn options_file(platform: Platform, options: EngineOptionsView) -> Result<
    ConfigFileView,
    Seq<char>,
> {
    match written_config(options) {
        Ok(contents) => Ok(
            ConfigFileView {
                path: path_in(platform, options.stracciatella_home, config_file_name()),
                contents,
            },
        ),
        Err(message) => Err(message),
    }
}

/// Prepares the options for being saved: the path of the configuration file
/// in their home directory, and the contents to put there in place of what
/// the file holds. The options stay as they are.
pub fn write_engine_options(platform: Platform, options: &EngineOptions) -> (file: Result<
    ConfigFile,
    String,
>)
    ensures
        file_outcome(file) == options_file(platform, options@),
{
    match write_json_config(options) {
        Ok(contents) => Ok(
            ConfigFile {
                path: build_json_config_location(platform, options.stracciatella_home.as_str()),
                contents,
            },
        ),
        Err(message) => Err(message),
    }
}

pub fn get_stracciatella_home(options: &EngineOptions) -> (home: String)
    ensures
        home@ == options@.stracciatella_home,
{
    options.stracciatella_home.clone()
}

pub fn get_vanilla_data_dir(options: &EngineOptions) -> (directory: String)
    ensures
        directory@ == options@.vanilla_data_dir,
{
    options.vanilla_data_dir.clone()
}

pub fn set_vanilla_data_dir(options: &mut EngineOptions, data_dir: &str)
    ensures
        final(options)@ == (EngineOptionsView { vanilla_data_dir: data_dir@, ..old(options)@ }),
{
    options.vanilla_data_dir = data_dir.to_owned();
}

/// The number of mods, as far as 32 bits count.
pub fn get_number_of_mods(options: &EngineOptions) -> (number: u32)
    ensures
        number == options@.mods.len() % 0x1_0000_0000,
{
    (options.mods.len() as u64 % 0x1_0000_0000) as u32
}

/// The mod at `index`, which has to be below the number of mods.
pub fn get_mod(options: &EngineOptions, index: u32) -> (name: String)
    requires
        index < options@.mods.len(),
    ensures
        name@ == options@.mods[index as int],
{
    options.mods[index as usize].clone()
}

pub fn get_resolution_x(options: &EngineOptions) -> (width: u16)
    ensures
        width == options@.resolution.0,
{
    options.resolution.0
}

pub fn get_resolution_y(options: &EngineOptions) -> (height: u16)
    ensures
        height == options@.resolution.1,
{
    options.resolution.1
}

pub fn set_resolution(options: &mut EngineOptions, x: u16, y: u16)
    ensures
        final(options)@ == (EngineOptionsView { resolution: (x, y), ..old(options)@ }),
{
    options.resolution = (x, y);
}

pub fn get_resource_version(options: &EngineOptions) -> (version: ResourceVersion)
    ensures
        version == options@.resource_version,
{
    options.resource_version
}

/// The options with the resource version that `name` names, or unchanged
/// where it names none.
pub open spec fn with_version_named(options: EngineOptionsView, name: Seq<char>) -> EngineOptionsView {
    match ResourceVersion::named(name) {
        Some(version) => EngineOptionsView { resource_version: version, ..options },
        None => options,
    }
}

/// Sets the resource version by its name. A name that names no version
/// changes nothing.
pub fn set_resource_version(options: &mut EngineOptions, name: &str)
    ensures
        final(options)@ == with_version_named(old(options)@, name@),
{
    match ResourceVersion::lookup(name) {
        Some(version) => {
            options.resource_version = version;
        },
        None => {},
    }
}

pub fn should_run_unittests(options: &EngineOptions) -> (run: bool)
    ensures
        run == options@.run_unittests,
{
    options.run_unittests
}

pub fn should_show_help(options: &EngineOptions) -> (show: bool)
    ensures
        show == options@.show_help,
{
    options.show_help
}

pub fn should_run_editor(options: &EngineOptions) -> (run: bool)
    ensures
        run == options@.run_editor,
{
    options.run_editor
}

pub fn should_start_in_fullscreen(options: &EngineOptions) -> (fullscreen: bool)
    ensures
        fullscreen == options@.start_in_fullscreen,
{
    options.start_in_fullscreen
}

pub fn set_start_in_fullscreen(options: &mut EngineOptions, val: bool)
    ensures
        final(options)@ == (EngineOptionsView { start_in_fullscreen: val, ..old(options)@ }),
{
    options.start_in_fullscreen = val;
}

pub fn should_start_in_window(options: &EngineOptions) -> (window: bool)
    ensures
        window == options@.start_in_window,
{
    options.start_in_window
}

pub fn should_start_in_debug_mode(options: &EngineOptions) -> (debug: bool)
    ensures
        debug == options@.start_in_debug_mode,
{
    options.start_in_debug_mode
}

pub fn should_start_without_sound(options: &EngineOptions) -> (silent: bool)
    ensures
        silent == options@.start_without_sound,
{
    options.start_without_sound
}

pub fn set_start_without_sound(options: &mut EngineOptions, val: bool)
    ensures
        final(options)@ == (EngineOptionsView { start_without_sound: val, ..old(options)@ }),
{
    options.start_without_sound = val;
}

pub fn get_resource_version_string(version: ResourceVersion) -> (name: String)
    ensures
        name@ == version.name(),
{
    version.to_string()
}

} // verus!
