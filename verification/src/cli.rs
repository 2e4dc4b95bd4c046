//! The command line: which switches exist, what a command line holds, and
//! how it is laid over the engine options.

use crate::engine::{EngineOptions, EngineOptionsView};
use crate::resolution::{parse_resolution, resolution_message, resolution_of};
use crate::resources::ResourceVersion;
use crate::text::{copy_texts, join_text, joined, split_on, split_text, text_view};
use getopts::{HasArg, Occur, Options};
use vstd::prelude::*;
use vstd::string::*;
use vstd::utf8::is_ascii_chars;

verus! {

/// What the usage text says about the switch for the mods.
pub const MODS_DESCRIPTION: &'static str = "Start with game modifications. MOD_NAME is the name of a modification, e.g. 'from-russia-with-love'; several names are separated by commas or given one by one. See the mods folder for possible options";

/// What the usage text says about the switch for the resource version.
pub const RESVERSION_DESCRIPTION: &'static str = "Version of the game resources. Possible values: DUTCH, ENGLISH, FRENCH, GERMAN, ITALIAN, POLISH, RUSSIAN, RUSSIAN_GOLD. Default value is ENGLISH. RUSSIAN is for BUKA Agonia Vlasty release. RUSSIAN_GOLD is for Gold release";

/// How a switch is given on the command line.
#[derive(Debug, Clone, Copy, PartialEq, Eq, Structural)]
pub enum OptionKind {
    /// Present or absent, without a value, at most once.
    Flag,
    /// With one value, at most once.
    Single,
    /// With one value each time, any number of times.
    Multiple,
}

/// One switch of the command line.
#[derive(Debug, PartialEq, Eq)]
pub struct CommandLineOption {
    /// The one-letter name after a single dash, or empty.
    pub short_name: String,
    /// The name after two dashes.
    pub long_name: String,
    /// What the usage text says about the switch.
    pub description: String,
    /// What the usage text shows in place of the value.
    pub hint: String,
    pub kind: OptionKind,
}

pub ghost struct CommandLineOptionView {
    pub short_name: Seq<char>,
    pub long_name: Seq<char>,
    pub description: Seq<char>,
    pub hint: Seq<char>,
    pub kind: OptionKind,
}

impl DeepView for CommandLineOption {
    type V = CommandLineOptionView;

    open spec fn deep_view(&self) -> CommandLineOptionView {
        CommandLineOptionView {
            short_name: self.short_name@,
            long_name: self.long_name@,
            description: self.description@,
            hint: self.hint@,
            kind: self.kind,
        }
    }
}

impl CommandLineOptionView {
    /// Names that the option parser takes: ASCII, the short one of at most one
    /// letter, the long one of at least two.
    pub open spec fn well_formed(self) -> bool {
        &&& is_ascii_chars(self.short_name)
        &&& self.short_name.len() <= 1
        &&& is_ascii_chars(self.long_name)
        &&& self.long_name.len() >= 2
    }
}

pub open spec fn flag_option(short_name: Seq<char>, long_name: Seq<char>, description: Seq<char>) -> CommandLineOptionView {
    CommandLineOptionView {
        short_name,
        long_name,
        description,
        hint: Seq::empty(),
        kind: OptionKind::Flag,
    }
}

pub open spec fn value_option(
    long_name: Seq<char>,
    description: Seq<char>,
    hint: Seq<char>,
    kind: OptionKind,
) -> CommandLineOptionView {
    CommandLineOptionView { short_name: Seq::empty(), long_name, description, hint, kind }
}

/// The switches of the command line, in the order of the usage text.
pub open spec fn command_line_options() -> Seq<CommandLineOptionView> {
    seq![
        value_option("datadir"@, "Set path for data directory"@, "DATADIR"@, OptionKind::Single),
        value_option(
            "mods"@,
            MODS_DESCRIPTION@,
            "MOD_NAME"@,
            OptionKind::Multiple,
        ),
        value_option(
            "res"@,
            "Screen resolution, e.g. 800x600. Default value is 640x480"@,
            "WIDTHxHEIGHT"@,
            OptionKind::Single,
        ),
        value_option(
            "resversion"@,
            RESVERSION_DESCRIPTION@,
            "RUSSIAN_GOLD"@,
            OptionKind::Single,
        ),
        flag_option(Seq::empty(), "unittests"@, "Perform unit tests"@),
        flag_option(Seq::empty(), "editor"@, "Start the map editor (Editor.slf is required)"@),
        flag_option(Seq::empty(), "fullscreen"@, "Start the game in the fullscreen mode"@),
        flag_option(Seq::empty(), "nosound"@, "Turn the sound and music off"@),
        flag_option(Seq::empty(), "window"@, "Start the game in a window"@),
        flag_option(Seq::empty(), "debug"@, "Enable Debug Mode"@),
        flag_option("h"@, "help"@, "print this help menu"@),
    ]
}

fn new_value_option(long_name: &str, description: &str, hint: &str, kind: OptionKind) -> (option:
    CommandLineOption)
    ensures
        option.deep_view() == value_option(long_name@, description@, hint@, kind),
{
    CommandLineOption {
        short_name: String::new(),
        long_name: long_name.to_owned(),
        description: description.to_owned(),
        hint: hint.to_owned(),
        kind,
    }
}

fn new_flag_option(short_name: &str, long_name: &str, description: &str) -> (option:
    CommandLineOption)
    ensures
        option.deep_view() == flag_option(short_name@, long_name@, description@),
{
    CommandLineOption {
        short_name: short_name.to_owned(),
        long_name: long_name.to_owned(),
        description: description.to_owned(),
        hint: String::new(),
        kind: OptionKind::Flag,
    }
}

/// The switches that the command line knows.
pub fn get_command_line_options() -> (table: Vec<CommandLineOption>)
    ensures
        table.deep_view() == command_line_options(),
{
    let mut table: Vec<CommandLineOption> = Vec::new();
    table.push(
        new_value_option("datadir", "Set path for data directory", "DATADIR", OptionKind::Single),
    );
    table.push(
        new_value_option(
            "mods",
            MODS_DESCRIPTION,
            "MOD_NAME",
            OptionKind::Multiple,
        ),
    );
    table.push(
        new_value_option(
            "res",
            "Screen resolution, e.g. 800x600. Default value is 640x480",
            "WIDTHxHEIGHT",
            OptionKind::Single,
        ),
    );
    table.push(
        new_value_option(
            "resversion",
            RESVERSION_DESCRIPTION,
            "RUSSIAN_GOLD",
            OptionKind::Single,
        ),
    );
    table.push(new_flag_option("", "unittests", "Perform unit tests"));
    table.push(new_flag_option("", "editor", "Start the map editor (Editor.slf is required)"));
    table.push(new_flag_option("", "fullscreen", "Start the game in the fullscreen mode"));
    table.push(new_flag_option("", "nosound", "Turn the sound and music off"));
    table.push(new_flag_option("", "window", "Start the game in a window"));
    table.push(new_flag_option("", "debug", "Enable Debug Mode"));
    table.push(new_flag_option("h", "help", "print this help menu"));
    proof {
        reveal_strlit("");
        assert(""@ =~= Seq::<char>::empty());
        assert(table.deep_view() =~= command_line_options());
    }
    table
}

/// How often one switch was given, and with which values.
#[derive(Debug, PartialEq, Eq)]
pub struct OptionMatch {
    pub count: usize,
    pub values: Vec<String>,
}

pub ghost struct OptionMatchView {
    pub count: nat,
    pub values: Seq<Seq<char>>,
}

impl DeepView for OptionMatch {
    type V = OptionMatchView;

    open spec fn deep_view(&self) -> OptionMatchView {
        OptionMatchView { count: self.count as nat, values: self.values.deep_view() }
    }
}

/// What the option parser found: one match for each switch of the table, in
/// the table's order, and the arguments that belong to no switch.
#[derive(Debug, PartialEq, Eq)]
pub struct ParsedArguments {
    pub matches: Vec<OptionMatch>,
    pub free: Vec<String>,
}

pub ghost struct ParsedArgumentsView {
    pub matches: Seq<OptionMatchView>,
    pub free: Seq<Seq<char>>,
}

impl DeepView for ParsedArguments {
    type V = ParsedArgumentsView;

    open spec fn deep_view(&self) -> ParsedArgumentsView {
        ParsedArgumentsView { matches: self.matches.deep_view(), free: self.free.deep_view() }
    }
}

#[verifier::external_type_specification]
#[verifier::external_body]
pub struct ExOptions(Options);

/// The option parser's own record of the switches of `table`, as it is
/// before any command line is read.
pub uninterp spec fn getopts_options(table: Seq<CommandLineOptionView>) -> Options;

/// What the option parser makes of `arguments` with the switches that
/// `options` holds: for each entry of `table`, in order, how often and with
/// which values its switch was given, and the arguments that belong to no
/// switch; or the parser's message for a command line that it refuses.
pub uninterp spec fn getopts_matches(
    options: Options,
    table: Seq<CommandLineOptionView>,
    arguments: Seq<Seq<char>>,
) -> Result<ParsedArgumentsView, Seq<char>>;

/// The usage text that the option parser writes for the switches that
/// `options` holds, under the line `brief`.
pub uninterp spec fn getopts_usage(options: Options, brief: Seq<char>) -> Seq<char>;

pub open spec fn parsed_view(parsed: Result<ParsedArguments, String>) -> Result<
    ParsedArgumentsView,
    Seq<char>,
> {
    match parsed {
        Ok(found) => Ok(found.deep_view()),
        Err(message) => Err(message@),
    }
}

pub open spec fn well_formed_table(table: Seq<CommandLineOptionView>) -> bool {
    forall|i: int| 0 <= i < table.len() ==> (#[trigger] table[i]).well_formed()
}

/// Whether `options` holds the switches of a table with well-formed names.
pub open spec fn holds_well_formed_table(options: Options) -> bool {
    exists|table: Seq<CommandLineOptionView>|
        well_formed_table(table) && options == #[trigger] getopts_options(table)
}

/// Makes `getopts::Options` with `Options::new` and declares one switch by
/// `Options::opt` for each entry of `table`: without a value and at most once,
/// with a value and at most once, or with a value and any number of times, by
/// its kind. Taken on trust: the options are a function of the table alone.
/// The names must be well formed, as `Options::opt` panics on others.
#[verifier::external_body]
fn getopts_declare(table: &Vec<CommandLineOption>) -> (options: Options)
    requires
        well_formed_table(table.deep_view()),
    ensures
        options == getopts_options(table.deep_view()),
{
    let mut options = Options::new();
    for o in table {
        let (has, occur) = match o.kind {
            OptionKind::Flag => (HasArg::No, Occur::Optional),
            OptionKind::Single => (HasArg::Yes, Occur::Optional),
            OptionKind::Multiple => (HasArg::Yes, Occur::Multi),
        };
        options.opt(&o.short_name, &o.long_name, &o.description, &o.hint, has, occur);
    }
    options
}

/// Runs `getopts::Options::parse` over `arguments`. Taken on trust: the
/// outcome is a function of the options, the table and the arguments alone.
/// On success it holds one match for each entry of `table`, in order, with
/// what `Matches::opt_count` and `Matches::opt_strs` give for the entry's long
/// name, and the parser's free arguments; on failure the text of the parser's
/// `Fail`. The options must be those of `table`, as the parser panics when it
/// is asked for a name that was not declared.
#[verifier::external_body]
fn getopts_parse(
    options: &Options,
    table: &Vec<CommandLineOption>,
    arguments: &Vec<String>,
) -> (parsed: Result<ParsedArguments, String>)
    requires
        well_formed_table(table.deep_view()),
        *options == getopts_options(table.deep_view()),
    ensures
        parsed_view(parsed) == getopts_matches(
            *options,
            table.deep_view(),
            arguments.deep_view(),
        ),
        parsed matches Ok(found) ==> found.matches.len() == table.len(),
{
    let found = options.parse(arguments).map_err(|fail| fail.to_string())?;
    let one = |o: &CommandLineOption| {
        OptionMatch { count: found.opt_count(&o.long_name), values: found.opt_strs(&o.long_name) }
    };
    Ok(ParsedArguments { matches: table.iter().map(one).collect(), free: found.free.clone() })
}

/// Calls `getopts::Options::usage` with `brief`. Taken on trust: the text is
/// a function of the options and `brief` alone. The options must hold a table
/// of well-formed names, as `usage` panics on a short name of several letters.
#[verifier::external_body]
fn getopts_describe(options: &Options, brief: &str) -> (usage: String)
    requires
        holds_well_formed_table(*options),
    ensures
        usage@ == getopts_usage(*options, brief@),
{
    options.usage(brief)
}

/// The option parser takes every name of the table.
pub proof fn lemma_command_line_options_well_formed()
    ensures
        well_formed_table(command_line_options()),
        command_line_options().len() == 11,
{
    reveal_strlit("datadir");
    reveal_strlit("mods");
    reveal_strlit("res");
    reveal_strlit("resversion");
    reveal_strlit("unittests");
    reveal_strlit("editor");
    reveal_strlit("fullscreen");
    reveal_strlit("nosound");
    reveal_strlit("window");
    reveal_strlit("debug");
    reveal_strlit("help");
    reveal_strlit("h");
    let table = command_line_options();
    assert(table[0].well_formed());
    assert(table[1].well_formed());
    assert(table[2].well_formed());
    assert(table[3].well_formed());
    assert(table[4].well_formed());
    assert(table[5].well_formed());
    assert(table[6].well_formed());
    assert(table[7].well_formed());
    assert(table[8].well_formed());
    assert(table[9].well_formed());
    assert(table[10].well_formed());
}

/// What a command line asks for, switch by switch.
#[derive(Debug, PartialEq, Eq)]
pub struct CommandLine {
    /// The arguments that belong to no switch.
    pub free: Vec<String>,
    pub datadir: Option<String>,
    /// The names of the mods, in the order given.
    pub mods: Vec<String>,
    pub res: Option<String>,
    pub resversion: Option<String>,
    pub unittests: bool,
    pub editor: bool,
    pub fullscreen: bool,
    pub nosound: bool,
    pub window: bool,
    pub debug: bool,
    pub help: bool,
}

pub ghost struct CommandLineView {
    pub free: Seq<Seq<char>>,
    pub datadir: Option<Seq<char>>,
    pub mods: Seq<Seq<char>>,
    pub res: Option<Seq<char>>,
    pub resversion: Option<Seq<char>>,
    pub unittests: bool,
    pub editor: bool,
    pub fullscreen: bool,
    pub nosound: bool,
    pub window: bool,
    pub debug: bool,
    pub help: bool,
}

impl DeepView for CommandLine {
    type V = CommandLineView;

    open spec fn deep_view(&self) -> CommandLineView {
        CommandLineView {
            free: self.free.deep_view(),
            datadir: text_view(self.datadir),
            mods: self.mods.deep_view(),
            res: text_view(self.res),
            resversion: text_view(self.resversion),
            unittests: self.unittests,
            editor: self.editor,
            fullscreen: self.fullscreen,
            nosound: self.nosound,
            window: self.window,
            debug: self.debug,
            help: self.help,
        }
    }
}

/// The values given for the switch at `index` of the table; none for a
/// switch that the matches do not reach.
pub open spec fn values_at(parsed: ParsedArgumentsView, index: int) -> Seq<Seq<char>> {
    if 0 <= index < parsed.matches.len() {
        parsed.matches[index].values
    } else {
        Seq::empty()
    }
}

/// The first value given for the switch at `index`.
pub open spec fn value_at(parsed: ParsedArgumentsView, index: int) -> Option<Seq<char>> {
    if values_at(parsed, index).len() > 0 {
        Some(values_at(parsed, index)[0])
    } else {
        None
    }
}

/// Whether the switch at `index` was given at all.
pub open spec fn given_at(parsed: ParsedArgumentsView, index: int) -> bool {
    0 <= index < parsed.matches.len() && parsed.matches[index].count > 0
}

/// The mod names in a run of values: each value is a list of names with
/// commas between them, and the lists follow one another.
pub open spec fn mod_names(values: Seq<Seq<char>>) -> Seq<Seq<char>>
    decreases values.len(),
{
    if values.len() == 0 {
        Seq::empty()
    } else {
        mod_names(values.drop_last()) + split_on(values.last(), ',')
    }
}

/// What the matches of the option table ask for.
pub open spec fn command_line_of(parsed: ParsedArgumentsView) -> CommandLineView {
    CommandLineView {
        free: parsed.free,
        datadir: value_at(parsed, 0),
        mods: mod_names(values_at(parsed, 1)),
        res: value_at(parsed, 2),
        resversion: value_at(parsed, 3),
        unittests: given_at(parsed, 4),
        editor: given_at(parsed, 5),
        fullscreen: given_at(parsed, 6),
        nosound: given_at(parsed, 7),
        window: given_at(parsed, 8),
        debug: given_at(parsed, 9),
        help: given_at(parsed, 10),
    }
}

fn first_value(parsed: &ParsedArguments, index: usize) -> (value: Option<String>)
    ensures
        text_view(value) == value_at(parsed.deep_view(), index as int),
{
    if index < parsed.matches.len() && parsed.matches[index].values.len() > 0 {
        Some(parsed.matches[index].values[0].clone())
    } else {
        None
    }
}

fn is_given(parsed: &ParsedArguments, index: usize) -> (given: bool)
    ensures
        given == given_at(parsed.deep_view(), index as int),
{
    index < parsed.matches.len() && parsed.matches[index].count > 0
}

fn names_of_mods(parsed: &ParsedArguments, index: usize) -> (names: Vec<String>)
    ensures
        names.deep_view() == mod_names(values_at(parsed.deep_view(), index as int)),
{
    let mut names: Vec<String> = Vec::new();
    if index < parsed.matches.len() {
        let values = &parsed.matches[index].values;
        let mut at: usize = 0;
        while at < values.len()
            invariant
                at <= values.len(),
                names.deep_view() == mod_names(values.deep_view().take(at as int)),
            decreases values.len() - at,
        {
            let ghost before = names.deep_view();
            let ghost longer = values.deep_view().take(at + 1);
            let mut pieces = split_text(values[at].as_str(), ',');
            let ghost added = pieces.deep_view();
            names.append(&mut pieces);
            proof {
                assert(longer.drop_last() =~= values.deep_view().take(at as int));
                assert(longer.last() == values@[at as int]@);
                assert(names.deep_view() =~= before + added);
            }
            at += 1;
        }
        assert(values.deep_view().take(at as int) =~= values.deep_view());
    }
    names
}

impl CommandLine {
    /// Reads what the matches of the option table ask for.
    pub fn from_parsed(parsed: &ParsedArguments) -> (command_line: CommandLine)
        ensures
            command_line.deep_view() == command_line_of(parsed.deep_view()),
    {
        CommandLine {
            free: copy_texts(&parsed.free),
            datadir: first_value(parsed, 0),
            mods: names_of_mods(parsed, 1),
            res: first_value(parsed, 2),
            resversion: first_value(parsed, 3),
            unittests: is_given(parsed, 4),
            editor: is_given(parsed, 5),
            fullscreen: is_given(parsed, 6),
            nosound: is_given(parsed, 7),
            window: is_given(parsed, 8),
            debug: is_given(parsed, 9),
            help: is_given(parsed, 10),
        }
    }
}

/// What `apply_arguments` answers to arguments that belong to no switch.
pub open spec fn unknown_arguments_message(free: Seq<Seq<char>>) -> Seq<char> {
    "Unknown arguments: '"@ + joined(free, " "@) + "'."@
}

/// The options once the directory and the mods of the command line are laid over them.
pub open spec fn with_directory_and_mods(
    options: EngineOptionsView,
    command_line: CommandLineView,
) -> EngineOptionsView {
    EngineOptionsView {
        vanilla_data_dir: match command_line.datadir {
            Some(directory) => directory,
            None => options.vanilla_data_dir,
        },
        mods: if command_line.mods.len() > 0 {
            command_line.mods
        } else {
            options.mods
        },
        ..options
    }
}

/// The options once the switches without a value are laid over them: a
/// switch that is given turns its option on, and none turns one off.
pub open spec fn with_switches(
    options: EngineOptionsView,
    command_line: CommandLineView,
) -> EngineOptionsView {
    EngineOptionsView {
        show_help: options.show_help || command_line.help,
        run_unittests: options.run_unittests || command_line.unittests,
        run_editor: options.run_editor || command_line.editor,
        start_in_fullscreen: options.start_in_fullscreen || command_line.fullscreen,
        start_without_sound: options.start_without_sound || command_line.nosound,
        start_in_window: options.start_in_window || command_line.window,
        start_in_debug_mode: options.start_in_debug_mode || command_line.debug,
        ..options
    }
}

/// The options after a command line is laid over them, and the message if
/// the command line is refused. The switches are taken in a fixed order:
/// data directory, mods, resolution, resource version, then the switches
/// without a value. A refusal stops there; what was laid over before stays.
pub open spec fn overlay(options: EngineOptionsView, command_line: CommandLineView) -> (
    EngineOptionsView,
    Option<Seq<char>>,
) {
    if command_line.free.len() > 0 {
        (options, Some(unknown_arguments_message(command_line.free)))
    } else {
        let placed = with_directory_and_mods(options, command_line);
        if command_line.res is Some && resolution_of(command_line.res.unwrap()) is None {
            (placed, Some(resolution_message()))
        } else {
            let sized = EngineOptionsView {
                resolution: match command_line.res {
                    Some(token) => resolution_of(token).unwrap(),
                    None => placed.resolution,
                },
                ..placed
            };
            if command_line.resversion is Some && ResourceVersion::named(
                command_line.resversion.unwrap(),
            ) is None {
                (sized, Some(ResourceVersion::unknown_message(command_line.resversion.unwrap())))
            } else {
                let versioned = EngineOptionsView {
                    resource_version: match command_line.resversion {
                        Some(name) => ResourceVersion::named(name).unwrap(),
                        None => sized.resource_version,
                    },
                    ..sized
                };
                (with_switches(versioned, command_line), None)
            }
        }
    }
}

fn place_directory_and_mods(options: &mut EngineOptions, command_line: &CommandLine)
    ensures
        final(options)@ == with_directory_and_mods(old(options)@, command_line.deep_view()),
{
    match &command_line.datadir {
        Some(directory) => {
            options.vanilla_data_dir = directory.clone();
        },
        None => {},
    }
    if command_line.mods.len() > 0 {
        options.mods = copy_texts(&command_line.mods);
    }
}

fn turn_on_switches(options: &mut EngineOptions, command_line: &CommandLine)
    ensures
        final(options)@ == with_switches(old(options)@, command_line.deep_view()),
{
    options.show_help = options.show_help || command_line.help;
    options.run_unittests = options.run_unittests || command_line.unittests;
    options.run_editor = options.run_editor || command_line.editor;
    options.start_in_fullscreen = options.start_in_fullscreen || command_line.fullscreen;
    options.start_without_sound = options.start_without_sound || command_line.nosound;
    options.start_in_window = options.start_in_window || command_line.window;
    options.start_in_debug_mode = options.start_in_debug_mode || command_line.debug;
}

/// Lays a command line over the options. Only the switches that are given
/// change anything. A command line that is refused leaves what was laid
/// over before the refusal, and the message says what was wrong.
pub fn apply_arguments(options: &mut EngineOptions, command_line: &CommandLine) -> (refusal: Option<
    String,
>)
    ensures
        final(options)@ == overlay(old(options)@, command_line.deep_view()).0,
        text_view(refusal) == overlay(old(options)@, command_line.deep_view()).1,
{
    if command_line.free.len() > 0 {
        let mut message = "Unknown arguments: '".to_owned();
        let listed = join_text(&command_line.free, " ");
        message.append(listed.as_str());
        message.append("'.");
        return Some(message);
    }
    place_directory_and_mods(options, command_line);
    match &command_line.res {
        Some(token) => {
            match parse_resolution(token.as_str()) {
                Ok(resolution) => {
                    options.resolution = resolution;
                },
                Err(message) => {
                    return Some(message);
                },
            }
        },
        None => {},
    }
    match &command_line.resversion {
        Some(name) => {
            match ResourceVersion::from_str(name.as_str()) {
                Ok(version) => {
                    options.resource_version = version;
                },
                Err(message) => {
                    return Some(message);
                },
            }
        },
        None => {},
    }
    turn_on_switches(options, command_line);
    None
}

/// The arguments behind the program's name, which comes first.
pub open spec fn arguments_of(args: Seq<Seq<char>>) -> Seq<Seq<char>> {
    if args.len() > 0 {
        args.skip(1)
    } else {
        args
    }
}

/// The options and the refusal after the option parser's outcome is laid over
/// the options: the parser's own message when it refuses the command line,
/// else what `overlay` gives for the matches.
pub open spec fn parsed_overlay(
    options: EngineOptionsView,
    outcome: Result<ParsedArgumentsView, Seq<char>>,
) -> (EngineOptionsView, Option<Seq<char>>) {
    match outcome {
        Ok(parsed) => overlay(options, command_line_of(parsed)),
        Err(message) => (options, Some(message)),
    }
}

/// What the option parser makes of the command line `args` under the
/// switches of the table.
pub open spec fn parsed_arguments(args: Seq<Seq<char>>) -> Result<ParsedArgumentsView, Seq<char>> {
    getopts_matches(
        getopts_options(command_line_options()),
        command_line_options(),
        arguments_of(args),
    )
}

/// Reads the command line `args`, whose first entry is the program's name,
/// and lays its switches over the options.
pub fn parse_args(options: &mut EngineOptions, args: Vec<String>) -> (refusal: Option<String>)
    ensures
        final(options)@ == parsed_overlay(old(options)@, parsed_arguments(args.deep_view())).0,
        text_view(refusal) == parsed_overlay(old(options)@, parsed_arguments(args.deep_view())).1,
{
    let table = get_command_line_options();
    let mut arguments: Vec<String> = Vec::new();
    let mut at: usize = 1;
    while at < args.len()
        invariant
            1 <= at,
            at <= args.len() ==> arguments.deep_view() == args.deep_view().subrange(1, at as int),
            at > args.len() ==> args.len() == 0 && arguments.deep_view() == args.deep_view(),
        decreases args.len() - at,
    {
        let ghost before = arguments.deep_view();
        arguments.push(args[at].clone());
        assert(arguments.deep_view() =~= before.push(args@[at as int]@));
        assert(args.deep_view().subrange(1, at + 1) =~= before.push(args@[at as int]@));
        at += 1;
    }
    proof {
        lemma_command_line_options_well_formed();
        assert(arguments.deep_view() =~= arguments_of(args.deep_view()));
    }
    let declared = getopts_declare(&table);
    match getopts_parse(&declared, &table, &arguments) {
        Ok(parsed) => {
            let command_line = CommandLine::from_parsed(&parsed);
            apply_arguments(options, &command_line)
        },
        Err(message) => Some(message),
    }
}

/// The line that the usage text starts with.
pub open spec fn usage_brief() -> Seq<char> {
    "Usage: ja2 [options]"@
}

/// The text that explains the command line to the user.
pub fn command_line_usage() -> (usage: String)
    ensures
        usage@ == getopts_usage(getopts_options(command_line_options()), usage_brief()),
{
    let table = get_command_line_options();
    proof {
        lemma_command_line_options_well_formed();
    }
    let options = getopts_declare(&table);
    getopts_describe(&options, "Usage: ja2 [options]")
}

/// A switch that the command line does not give leaves its option as it
/// was, whether or not the command line is refused further on; the home
/// directory is never touched.
pub proof fn lemma_absent_switches_keep_options(
    options: EngineOptionsView,
    command_line: CommandLineView,
)
    ensures
        ({
            let merged = overlay(options, command_line).0;
            &&& merged.stracciatella_home == options.stracciatella_home
            &&& command_line.datadir is None ==> merged.vanilla_data_dir
                == options.vanilla_data_dir
            &&& command_line.mods.len() == 0 ==> merged.mods == options.mods
            &&& command_line.res is None ==> merged.resolution == options.resolution
            &&& command_line.resversion is None ==> merged.resource_version
                == options.resource_version
            &&& !command_line.help ==> merged.show_help == options.show_help
            &&& !command_line.unittests ==> merged.run_unittests == options.run_unittests
            &&& !command_line.editor ==> merged.run_editor == options.run_editor
            &&& !command_line.fullscreen ==> merged.start_in_fullscreen
                == options.start_in_fullscreen
            &&& !command_line.nosound ==> merged.start_without_sound
                == options.start_without_sound
            &&& !command_line.window ==> merged.start_in_window == options.start_in_window
            &&& !command_line.debug ==> merged.start_in_debug_mode == options.start_in_debug_mode
        }),
{
}

/// Where the command line is taken, each switch that it gives decides its
/// option, whatever the option was before.
pub proof fn lemma_given_switches_decide(options: EngineOptionsView, command_line: CommandLineView)
    requires
        overlay(options, command_line).1 is None,
    ensures
        ({
            let merged = overlay(options, command_line).0;
            &&& command_line.datadir matches Some(directory) ==> merged.vanilla_data_dir
                == directory
            &&& command_line.mods.len() > 0 ==> merged.mods == command_line.mods
            &&& command_line.res matches Some(token) ==> Some(merged.resolution)
                == resolution_of(token)
            &&& command_line.resversion matches Some(name) ==> Some(merged.resource_version)
                == ResourceVersion::named(name)
            &&& command_line.help ==> merged.show_help
            &&& command_line.unittests ==> merged.run_unittests
            &&& command_line.editor ==> merged.run_editor
            &&& command_line.fullscreen ==> merged.start_in_fullscreen
            &&& command_line.nosound ==> merged.start_without_sound
            &&& command_line.window ==> merged.start_in_window
            &&& command_line.debug ==> merged.start_in_debug_mode
        }),
{
}

} // verus!
