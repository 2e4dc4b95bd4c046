//! The configuration file: which members it has, what is asked of the parser
//! for each, what stands in for a member that is missing, how a file that was
//! read becomes options, and how the options are written back.
//!
//! Reading is shared with the caller, who runs the JSON parser over the text:
//! for each key that the parser meets, `member_kind` says what to ask the
//! parser for, and `set_member` takes what came back. Every message about the
//! text is the parser's own.

use crate::engine::{EngineOptions, EngineOptionsView};
use crate::json::{json_print, json_printed, json_value, json_wrap, JsonNode, JsonNodeView};
use crate::resolution::{
    lemma_resolution_written_then_read, resolution_of, resolution_text, resolution_token,
};
use crate::resources::{lemma_resource_version_round_trip, ResourceVersion};
use crate::text::{copy_texts, same_text, text_outcome};
use serde_json::Value;
use vstd::prelude::*;
use vstd::string::*;

verus! {

/// What a configuration file holds: the seven members that are kept between
/// sessions. The home directory and the switches of one session are no part
/// of it.
#[derive(Debug, PartialEq, Eq)]
pub struct ConfigValues {
    pub data_dir: String,
    pub mods: Vec<String>,
    pub resolution: (u16, u16),
    pub resource_version: ResourceVersion,
    pub fullscreen: bool,
    pub debug: bool,
    pub nosound: bool,
}

pub ghost struct ConfigValuesView {
    pub data_dir: Seq<char>,
    pub mods: Seq<Seq<char>>,
    pub resolution: (u16, u16),
    pub resource_version: ResourceVersion,
    pub fullscreen: bool,
    pub debug: bool,
    pub nosound: bool,
}

impl View for ConfigValues {
    type V = ConfigValuesView;

    open spec fn view(&self) -> ConfigValuesView {
        ConfigValuesView {
            data_dir: self.data_dir@,
            mods: self.mods.deep_view(),
            resolution: self.resolution,
            resource_version: self.resource_version,
            fullscreen: self.fullscreen,
            debug: self.debug,
            nosound: self.nosound,
        }
    }
}

/// What stands in for the members that a file does not have: no data
/// directory, no mods, 640 by 480, English resources, every switch off.
pub open spec fn default_values() -> ConfigValuesView {
    ConfigValuesView {
        data_dir: Seq::empty(),
        mods: Seq::empty(),
        resolution: (640, 480),
        resource_version: ResourceVersion::ENGLISH,
        fullscreen: false,
        debug: false,
        nosound: false,
    }
}

impl Default for ConfigValues {
    fn default() -> (values: ConfigValues)
        ensures
            values@ == default_values(),
    {
        let values = ConfigValues {
            data_dir: String::new(),
            mods: Vec::new(),
            resolution: (640, 480),
            resource_version: ResourceVersion::ENGLISH,
            fullscreen: false,
            debug: false,
            nosound: false,
        };
        assert(values.mods.deep_view() =~= Seq::<Seq<char>>::empty());
        values
    }
}

/// What to ask the parser for as the value of a member.
#[derive(Debug, Clone, Copy, PartialEq, Eq, Structural)]
pub enum MemberKind {
    /// A text.
    Text,
    /// An array of texts.
    Texts,
    /// A text that spells a resolution, as `parse_resolution` reads it.
    Resolution,
    /// A text that names a resource version, as `ResourceVersion::lookup` reads it.
    Version,
    /// A truth value.
    Flag,
    /// Whatever is there: the member is passed over.
    Ignored,
}

/// What is asked for under each key. A member with a key that is not among
/// these seven is passed over.
pub open spec fn kind_of(key: Seq<char>) -> MemberKind {
    if key == "data_dir"@ {
        MemberKind::Text
    } else if key == "mods"@ {
        MemberKind::Texts
    } else if key == "res"@ {
        MemberKind::Resolution
    } else if key == "resversion"@ {
        MemberKind::Version
    } else if key == "fullscreen"@ || key == "debug"@ || key == "nosound"@ {
        MemberKind::Flag
    } else {
        MemberKind::Ignored
    }
}

/// Says what to ask the parser for as the value of the member `key`.
pub fn member_kind(key: &str) -> (kind: MemberKind)
    ensures
        kind == kind_of(key@),
{
    if same_text(key, "data_dir") {
        MemberKind::Text
    } else if same_text(key, "mods") {
        MemberKind::Texts
    } else if same_text(key, "res") {
        MemberKind::Resolution
    } else if same_text(key, "resversion") {
        MemberKind::Version
    } else if same_text(key, "fullscreen") || same_text(key, "debug") || same_text(
        key,
        "nosound",
    ) {
        MemberKind::Flag
    } else {
        MemberKind::Ignored
    }
}

/// The value of a member as the parser gave it.
#[derive(Debug, PartialEq, Eq)]
pub enum MemberValue {
    Text(String),
    Texts(Vec<String>),
    Resolution((u16, u16)),
    Version(ResourceVersion),
    Flag(bool),
}

pub ghost enum MemberValueView {
    Text(Seq<char>),
    Texts(Seq<Seq<char>>),
    Resolution((u16, u16)),
    Version(ResourceVersion),
    Flag(bool),
}

impl DeepView for MemberValue {
    type V = MemberValueView;

    open spec fn deep_view(&self) -> MemberValueView {
        match self {
            MemberValue::Text(text) => MemberValueView::Text(text@),
            MemberValue::Texts(texts) => MemberValueView::Texts(texts.deep_view()),
            MemberValue::Resolution(resolution) => MemberValueView::Resolution(*resolution),
            MemberValue::Version(version) => MemberValueView::Version(*version),
            MemberValue::Flag(flag) => MemberValueView::Flag(*flag),
        }
    }
}

impl MemberValueView {
    /// The kind that the value is of.
    pub open spec fn kind(self) -> MemberKind {
        match self {
            MemberValueView::Text(_) => MemberKind::Text,
            MemberValueView::Texts(_) => MemberKind::Texts,
            MemberValueView::Resolution(_) => MemberKind::Resolution,
            MemberValueView::Version(_) => MemberKind::Version,
            MemberValueView::Flag(_) => MemberKind::Flag,
        }
    }
}

/// The values once a member is taken in: a value of the kind that its key
/// asks for takes the place of what was there. A member with another key, or
/// a value of another kind than the key asks for, changes nothing.
pub open spec fn with_member(
    values: ConfigValuesView,
    key: Seq<char>,
    value: MemberValueView,
) -> ConfigValuesView {
    if kind_of(key) != value.kind() {
        values
    } else {
        match value {
            MemberValueView::Text(data_dir) => ConfigValuesView { data_dir, ..values },
            MemberValueView::Texts(mods) => ConfigValuesView { mods, ..values },
            MemberValueView::Resolution(resolution) => ConfigValuesView { resolution, ..values },
            MemberValueView::Version(resource_version) => ConfigValuesView {
                resource_version,
                ..values
            },
            MemberValueView::Flag(flag) => if key == "fullscreen"@ {
                ConfigValuesView { fullscreen: flag, ..values }
            } else if key == "debug"@ {
                ConfigValuesView { debug: flag, ..values }
            } else {
                ConfigValuesView { nosound: flag, ..values }
            },
        }
    }
}

/// Takes in the member `key` with the value that the parser gave for it.
pub fn set_member(values: &mut ConfigValues, key: &str, value: MemberValue)
    ensures
        final(values)@ == with_member(old(values)@, key@, value.deep_view()),
{
    let kind = member_kind(key);
    match value {
        MemberValue::Text(data_dir) => {
            if kind == MemberKind::Text {
                values.data_dir = data_dir;
            }
        },
        MemberValue::Texts(mods) => {
            if kind == MemberKind::Texts {
                values.mods = mods;
            }
        },
        MemberValue::Resolution(resolution) => {
            if kind == MemberKind::Resolution {
                values.resolution = resolution;
            }
        },
        MemberValue::Version(version) => {
            if kind == MemberKind::Version {
                values.resource_version = version;
            }
        },
        MemberValue::Flag(flag) => {
            if kind == MemberKind::Flag {
                if same_text(key, "fullscreen") {
                    values.fullscreen = flag;
                } else if same_text(key, "debug") {
                    values.debug = flag;
                } else {
                    values.nosound = flag;
                }
            }
        },
    }
}

/// The names of the resource versions, as the parser lists them for a name
/// that it does not know.
pub fn resource_version_names() -> (names: Vec<String>)
    ensures
        names.len() == 8,
        names[0]@ == ResourceVersion::DUTCH.name(),
        names[1]@ == ResourceVersion::ENGLISH.name(),
        names[2]@ == ResourceVersion::FRENCH.name(),
        names[3]@ == ResourceVersion::GERMAN.name(),
        names[4]@ == ResourceVersion::ITALIAN.name(),
        names[5]@ == ResourceVersion::POLISH.name(),
        names[6]@ == ResourceVersion::RUSSIAN.name(),
        names[7]@ == ResourceVersion::RUSSIAN_GOLD.name(),
{
    let mut names: Vec<String> = Vec::new();
    names.push(ResourceVersion::DUTCH.to_string());
    names.push(ResourceVersion::ENGLISH.to_string());
    names.push(ResourceVersion::FRENCH.to_string());
    names.push(ResourceVersion::GERMAN.to_string());
    names.push(ResourceVersion::ITALIAN.to_string());
    names.push(ResourceVersion::POLISH.to_string());
    names.push(ResourceVersion::RUSSIAN.to_string());
    names.push(ResourceVersion::RUSSIAN_GOLD.to_string());
    names
}

/// What reading the configuration file gave.
#[derive(Debug, PartialEq, Eq)]
pub enum ConfigRead {
    /// The file could not be read; this is the description of why.
    Unreadable(String),
    /// The parser refused the text; this is its message, which ends in the
    /// line and the column of the fault.
    Refused(String),
    /// The parser took the text, and these are its members.
    Values(ConfigValues),
}

pub ghost enum ConfigReadView {
    Unreadable(Seq<char>),
    Refused(Seq<char>),
    Values(ConfigValuesView),
}

impl DeepView for ConfigRead {
    type V = ConfigReadView;

    open spec fn deep_view(&self) -> ConfigReadView {
        match self {
            ConfigRead::Unreadable(description) => ConfigReadView::Unreadable(description@),
            ConfigRead::Refused(message) => ConfigReadView::Refused(message@),
            ConfigRead::Values(values) => ConfigReadView::Values(values@),
        }
    }
}

/// The error of a configuration file whose contents are refused.
pub open spec fn parse_error(message: Seq<char>) -> Seq<char> {
    "Error parsing ja2.json config file: "@ + message
}

/// The error of a configuration file that could not be read.
pub open spec fn read_error(description: Seq<char>) -> Seq<char> {
    "Error reading ja2.json config file: "@ + description
}

/// The options that a configuration gives in the home directory
/// `stracciatella_home`: the seven members as they are, and help, unit
/// tests, editor and window switched off.
pub open spec fn options_of(stracciatella_home: Seq<char>, values: ConfigValuesView) -> EngineOptionsView {
    EngineOptionsView {
        stracciatella_home,
        vanilla_data_dir: values.data_dir,
        mods: values.mods,
        resolution: values.resolution,
        resource_version: values.resource_version,
        show_help: false,
        run_unittests: false,
        run_editor: false,
        start_in_fullscreen: values.fullscreen,
        start_in_window: false,
        start_in_debug_mode: values.debug,
        start_without_sound: values.nosound,
    }
}

/// What reading a configuration gives: the error of a file that could not be
/// read, with the description of what went wrong; the error of a text that the
/// parser refused, with the parser's message as it is; else the options of
/// the members.
pub open spec fn parsed_config(stracciatella_home: Seq<char>, read: ConfigReadView) -> Result<
    EngineOptionsView,
    Seq<char>,
> {
    match read {
        ConfigReadView::Unreadable(description) => Err(read_error(description)),
        ConfigReadView::Refused(message) => Err(parse_error(message)),
        ConfigReadView::Values(values) => Ok(options_of(stracciatella_home, values)),
    }
}

/// Options or a message, as plain values.
pub open spec fn options_outcome(outcome: Result<EngineOptions, String>) -> Result<
    EngineOptionsView,
    Seq<char>,
> {
    match outcome {
        Ok(options) => Ok(options@),
        Err(message) => Err(message@),
    }
}

/// The options of a configuration in the home directory `stracciatella_home`.
pub fn options_from_config(stracciatella_home: &str, values: ConfigValues) -> (options:
    EngineOptions)
    ensures
        options@ == options_of(stracciatella_home@, values@),
{
    EngineOptions {
        stracciatella_home: stracciatella_home.to_owned(),
        vanilla_data_dir: values.data_dir,
        mods: values.mods,
        resolution: values.resolution,
        resource_version: values.resource_version,
        show_help: false,
        run_unittests: false,
        run_editor: false,
        start_in_fullscreen: values.fullscreen,
        start_in_window: false,
        start_in_debug_mode: values.debug,
        start_without_sound: values.nosound,
    }
}

/// Turns what reading the configuration file of the home directory
/// `stracciatella_home` gave into options or the error. The home directory of
/// the options is `stracciatella_home`, whatever the file says of it.
pub fn parse_json_config(stracciatella_home: &str, read: ConfigRead) -> (options: Result<
    EngineOptions,
    String,
>)
    ensures
        options_outcome(options) == parsed_config(stracciatella_home@, read.deep_view()),
{
    match read {
        ConfigRead::Unreadable(description) => {
            let mut message = "Error reading ja2.json config file: ".to_owned();
            message.append(description.as_str());
            Err(message)
        },
        ConfigRead::Refused(detail) => {
            let mut message = "Error parsing ja2.json config file: ".to_owned();
            message.append(detail.as_str());
            Err(message)
        },
        ConfigRead::Values(values) => Ok(options_from_config(stracciatella_home, values)),
    }
}

/// The error of options that could not be written as JSON.
pub open spec fn write_error(detail: Seq<char>) -> Seq<char> {
    "Error creating contents of ja2.json config file: "@ + detail
}

/// What of the options a configuration file keeps.
pub open spec fn values_of(options: EngineOptionsView) -> ConfigValuesView {
    ConfigValuesView {
        data_dir: options.vanilla_data_dir,
        mods: options.mods,
        resolution: options.resolution,
        resource_version: options.resource_version,
        fullscreen: options.start_in_fullscreen,
        debug: options.start_in_debug_mode,
        nosound: options.start_without_sound,
    }
}

/// Picks out of the options what a configuration file keeps.
pub fn config_values(options: &EngineOptions) -> (values: ConfigValues)
    ensures
        values@ == values_of(options@),
{
    ConfigValues {
        data_dir: options.vanilla_data_dir.clone(),
        mods: copy_texts(&options.mods),
        resolution: options.resolution,
        resource_version: options.resource_version,
        fullscreen: options.start_in_fullscreen,
        debug: options.start_in_debug_mode,
        nosound: options.start_without_sound,
    }
}

/// The members of a configuration: these seven, in this order.
pub open spec fn members_of(values: ConfigValuesView) -> Seq<(Seq<char>, MemberValueView)> {
    seq![
        ("data_dir"@, MemberValueView::Text(values.data_dir)),
        ("mods"@, MemberValueView::Texts(values.mods)),
        ("res"@, MemberValueView::Resolution(values.resolution)),
        ("resversion"@, MemberValueView::Version(values.resource_version)),
        ("fullscreen"@, MemberValueView::Flag(values.fullscreen)),
        ("debug"@, MemberValueView::Flag(values.debug)),
        ("nosound"@, MemberValueView::Flag(values.nosound)),
    ]
}

/// The JSON values of a list of texts.
pub open spec fn text_values(texts: Seq<Seq<char>>) -> Seq<Value> {
    Seq::new(texts.len(), |i: int| json_value(JsonNodeView::Text(texts[i])))
}

/// The JSON value of a member's value: a resolution is written as its
/// token and a resource version as its name.
pub open spec fn member_json(value: MemberValueView) -> Value {
    match value {
        MemberValueView::Text(text) => json_value(JsonNodeView::Text(text)),
        MemberValueView::Texts(texts) => json_value(JsonNodeView::Array(text_values(texts))),
        MemberValueView::Resolution(resolution) => json_value(
            JsonNodeView::Text(resolution_token(resolution)),
        ),
        MemberValueView::Version(version) => json_value(JsonNodeView::Text(version.name())),
        MemberValueView::Flag(flag) => json_value(JsonNodeView::Bool(flag)),
    }
}

/// The JSON value that is written for the options: an object of the members
/// that a configuration keeps of them, each with the JSON value of what it holds.
pub open spec fn config_value(options: EngineOptionsView) -> Value {
    let members = members_of(values_of(options));
    json_value(
        JsonNodeView::Object(
            Seq::new(members.len(), |i: int| (members[i].0, member_json(members[i].1))),
        ),
    )
}

fn text_value(text: &str) -> (value: Value)
    ensures
        value == member_json(MemberValueView::Text(text@)),
{
    json_wrap(JsonNode::Text(text.to_owned()))
}

fn resolution_value(resolution: (u16, u16)) -> (value: Value)
    ensures
        value == member_json(MemberValueView::Resolution(resolution)),
{
    json_wrap(JsonNode::Text(resolution_text(resolution)))
}

fn version_value(version: ResourceVersion) -> (value: Value)
    ensures
        value == member_json(MemberValueView::Version(version)),
{
    json_wrap(JsonNode::Text(version.to_string()))
}

fn flag_value(flag: bool) -> (value: Value)
    ensures
        value == member_json(MemberValueView::Flag(flag)),
{
    json_wrap(JsonNode::Bool(flag))
}

fn list_value(texts: &Vec<String>) -> (value: Value)
    ensures
        value == member_json(MemberValueView::Texts(texts.deep_view())),
{
    let mut values: Vec<Value> = Vec::new();
    let mut at: usize = 0;
    while at < texts.len()
        invariant
            at <= texts.len(),
            values@ == text_values(texts.deep_view().take(at as int)),
        decreases texts.len() - at,
    {
        values.push(text_value(texts[at].as_str()));
        assert(values@ =~= text_values(texts.deep_view().take(at + 1)));
        at += 1;
    }
    assert(texts.deep_view().take(at as int) =~= texts.deep_view());
    json_wrap(JsonNode::Array(values))
}

/// Builds the JSON value that is written for the options.
pub fn config_to_value(options: &EngineOptions) -> (value: Value)
    ensures
        value == config_value(options@),
{
    let mut members: Vec<(String, Value)> = Vec::new();
    members.push(("data_dir".to_owned(), text_value(options.vanilla_data_dir.as_str())));
    members.push(("mods".to_owned(), list_value(&options.mods)));
    members.push(("res".to_owned(), resolution_value(options.resolution)));
    members.push(("resversion".to_owned(), version_value(options.resource_version)));
    members.push(("fullscreen".to_owned(), flag_value(options.start_in_fullscreen)));
    members.push(("debug".to_owned(), flag_value(options.start_in_debug_mode)));
    members.push(("nosound".to_owned(), flag_value(options.start_without_sound)));
    let node = JsonNode::Object(members);
    proof {
        let written = members_of(values_of(options@));
        assert(Seq::new(members@.len(), |i: int| (members@[i].0@, members@[i].1)) =~= Seq::new(
            written.len(),
            |i: int| (written[i].0, member_json(written[i].1)),
        ));
    }
    json_wrap(node)
}

/// What writing the options gives: the text that the JSON library prints
/// for their value, or the error with the library's message.
pub open spec fn written_config(options: EngineOptionsView) -> Result<Seq<char>, Seq<char>> {
    match json_printed(config_value(options)) {
        Ok(text) => Ok(text),
        Err(detail) => Err(write_error(detail)),
    }
}

/// The contents of the configuration file for the options: a JSON object
/// with the members `data_dir`, `mods`, `res`, `resversion`, `fullscreen`,
/// `debug` and `nosound`, in this order.
pub fn write_json_config(options: &EngineOptions) -> (contents: Result<String, String>)
    ensures
        text_outcome(contents) == written_config(options@),
{
    let value = config_to_value(options);
    match json_print(&value) {
        Ok(text) => Ok(text),
        Err(detail) => {
            let mut message = "Error creating contents of ja2.json config file: ".to_owned();
            message.append(detail.as_str());
            Err(message)
        },
    }
}

/// The values after the members are taken in one after the other.
pub open spec fn with_members(
    values: ConfigValuesView,
    members: Seq<(Seq<char>, MemberValueView)>,
) -> ConfigValuesView
    decreases members.len(),
{
    if members.len() == 0 {
        values
    } else {
        with_members(with_member(values, members[0].0, members[0].1), members.drop_first())
    }
}

/// What of the options a configuration file keeps: everything but the
/// switches that only the command line sets, which come back switched off,
/// and the home directory, which comes from where the file is read.
pub open spec fn persisted(options: EngineOptionsView, stracciatella_home: Seq<char>) -> EngineOptionsView {
    EngineOptionsView {
        stracciatella_home,
        show_help: false,
        run_unittests: false,
        run_editor: false,
        start_in_window: false,
        ..options
    }
}

/// A file without members gives every default, in the home directory that
/// it is read for.
pub proof fn lemma_no_members_give_defaults(stracciatella_home: Seq<char>)
    ensures
        with_members(default_values(), Seq::empty()) == default_values(),
        options_of(stracciatella_home, default_values()) == (EngineOptionsView {
            stracciatella_home,
            ..crate::engine::default_options()
        }),
{
}

/// No file switches on help, the unit tests, the editor or the window, and
/// none chooses the home directory: whatever was read, these come out
/// switched off, and the home directory is the one that was read for.
pub proof fn lemma_config_never_sets_session_switches(
    stracciatella_home: Seq<char>,
    read: ConfigReadView,
)
    ensures
        parsed_config(stracciatella_home, read) matches Ok(options) ==> {
            &&& !options.show_help
            &&& !options.run_unittests
            &&& !options.run_editor
            &&& !options.start_in_window
            &&& options.stracciatella_home == stracciatella_home
        },
{
}

/// A member under the key of a session switch or of the home directory is
/// passed over: nothing is asked of its value, and no value under a key that
/// is passed over changes anything.
pub proof fn lemma_session_keys_are_passed_over(values: ConfigValuesView, value: MemberValueView)
    ensures
        kind_of("help"@) == MemberKind::Ignored,
        kind_of("show_help"@) == MemberKind::Ignored,
        kind_of("unittests"@) == MemberKind::Ignored,
        kind_of("run_unittests"@) == MemberKind::Ignored,
        kind_of("editor"@) == MemberKind::Ignored,
        kind_of("run_editor"@) == MemberKind::Ignored,
        kind_of("window"@) == MemberKind::Ignored,
        kind_of("start_in_window"@) == MemberKind::Ignored,
        kind_of("stracciatella_home"@) == MemberKind::Ignored,
        forall|key: Seq<char>|
            kind_of(key) == MemberKind::Ignored ==> #[trigger] with_member(values, key, value)
                == values,
{
    reveal_strlit("data_dir");
    reveal_strlit("mods");
    reveal_strlit("res");
    reveal_strlit("resversion");
    reveal_strlit("fullscreen");
    reveal_strlit("debug");
    reveal_strlit("nosound");
    reveal_strlit("help");
    reveal_strlit("show_help");
    reveal_strlit("unittests");
    reveal_strlit("run_unittests");
    reveal_strlit("editor");
    reveal_strlit("run_editor");
    reveal_strlit("window");
    reveal_strlit("start_in_window");
    reveal_strlit("stracciatella_home");
    assert("help"@.len() == 4 && "help"@[0] == 'h');
    assert("show_help"@.len() == 9);
    assert("unittests"@.len() == 9);
    assert("run_unittests"@.len() == 13);
    assert("editor"@.len() == 6);
    assert("run_editor"@.len() == 10 && "run_editor"@[1] == 'u');
    assert("window"@.len() == 6);
    assert("start_in_window"@.len() == 15);
    assert("stracciatella_home"@.len() == 18);
    assert("mods"@[0] == 'm');
    assert("resversion"@[1] == 'e');
    assert("fullscreen"@[1] == 'u' && "fullscreen"@[0] == 'f');
}

/// A text that the parser refused never gives options, whatever the
/// message: the error is the message behind the fixed words, and no default
/// takes the place of what was refused.
pub proof fn lemma_refused_text_gives_no_options(stracciatella_home: Seq<char>, message: Seq<char>)
    ensures
        parsed_config(stracciatella_home, ConfigReadView::Refused(message)) == Err::<
            EngineOptionsView,
            Seq<char>,
        >(parse_error(message)),
{
}

/// The members of a configuration, taken in one after the other over any
/// values, give that configuration; and what is written for the resolution
/// and the resource version is read as these again, the resolution where
/// both its sides are above zero.
pub proof fn lemma_members_are_read_back(values: ConfigValuesView, kept: ConfigValuesView)
    ensures
        with_members(values, members_of(kept)) == kept,
        kept.resolution.0 > 0 && kept.resolution.1 > 0 ==> resolution_of(
            resolution_token(kept.resolution),
        ) == Some(kept.resolution),
        ResourceVersion::named(kept.resource_version.name()) == Some(kept.resource_version),
{
    reveal_strlit("data_dir");
    reveal_strlit("mods");
    reveal_strlit("res");
    reveal_strlit("resversion");
    reveal_strlit("fullscreen");
    reveal_strlit("debug");
    reveal_strlit("nosound");
    let members = members_of(kept);
    reveal_with_fuel(with_members, 8);
    assert(members.len() == 7);
    assert(members[0].0.len() == 8);
    assert(members[1].0.len() == 4);
    assert(members[2].0.len() == 3);
    assert(members[3].0.len() == 10 && members[3].0[0] == 'r');
    assert(members[4].0.len() == 10 && members[4].0[0] == 'f');
    assert(members[5].0.len() == 5);
    assert(members[6].0.len() == 7);
    if kept.resolution.0 > 0 && kept.resolution.1 > 0 {
        lemma_resolution_written_then_read(kept.resolution);
    }
    lemma_resource_version_round_trip(kept.resource_version);
}

} // verus!
