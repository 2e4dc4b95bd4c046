use stracciatella::cli::CommandLine;
use stracciatella::config::{
    config_values, member_kind, options_from_config, parse_json_config, resource_version_names,
    set_member, ConfigRead, ConfigValues, MemberKind, MemberValue,
};
use stracciatella::engine::EngineOptions;
use stracciatella::merge_engine_options;
use stracciatella::resources::ResourceVersion;

fn no_switches() -> CommandLine {
    CommandLine {
        free: vec![],
        datadir: None,
        mods: vec![],
        res: None,
        resversion: None,
        unittests: false,
        editor: false,
        fullscreen: false,
        nosound: false,
        window: false,
        debug: false,
        help: false,
    }
}

#[test]
fn each_key_asks_for_its_kind() {
    assert_eq!(member_kind("data_dir"), MemberKind::Text);
    assert_eq!(member_kind("res"), MemberKind::Resolution);
    assert_eq!(member_kind("resversion"), MemberKind::Version);
    assert_eq!(member_kind("mods"), MemberKind::Texts);
    assert_eq!(member_kind("fullscreen"), MemberKind::Flag);
    assert_eq!(member_kind("debug"), MemberKind::Flag);
    assert_eq!(member_kind("nosound"), MemberKind::Flag);
    for key in [
        "help", "show_help", "unittests", "run_unittests", "editor", "run_editor", "window",
        "start_in_window", "stracciatella_home", "", "DATA_DIR", "data_dir ", "mod",
    ] {
        assert_eq!(member_kind(key), MemberKind::Ignored, "key {:?}", key);
    }
}

#[test]
fn defaults_of_a_configuration_are_as_declared() {
    let values = ConfigValues::default();

    assert_eq!(values.data_dir, "");
    assert!(values.mods.is_empty());
    assert_eq!(values.resolution, (640, 480));
    assert_eq!(values.resource_version, ResourceVersion::ENGLISH);
    assert!(!values.fullscreen && !values.debug && !values.nosound);
}

#[test]
fn members_are_taken_in_one_by_one() {
    let mut values = ConfigValues::default();

    set_member(&mut values, "data_dir", MemberValue::Text(String::from("/dd")));
    set_member(&mut values, "mods", MemberValue::Texts(vec![String::from("m")]));
    set_member(&mut values, "res", MemberValue::Resolution((800, 600)));
    set_member(&mut values, "resversion", MemberValue::Version(ResourceVersion::POLISH));
    set_member(&mut values, "fullscreen", MemberValue::Flag(true));
    set_member(&mut values, "debug", MemberValue::Flag(true));
    set_member(&mut values, "nosound", MemberValue::Flag(true));

    assert_eq!(
        values,
        ConfigValues {
            data_dir: String::from("/dd"),
            mods: vec![String::from("m")],
            resolution: (800, 600),
            resource_version: ResourceVersion::POLISH,
            fullscreen: true,
            debug: true,
            nosound: true,
        }
    );
}

#[test]
fn each_flag_goes_to_its_own_field() {
    let mut values = ConfigValues::default();
    set_member(&mut values, "debug", MemberValue::Flag(true));
    assert!(!values.fullscreen && values.debug && !values.nosound);

    let mut values = ConfigValues::default();
    set_member(&mut values, "nosound", MemberValue::Flag(true));
    assert!(!values.fullscreen && !values.debug && values.nosound);

    let mut values = ConfigValues::default();
    set_member(&mut values, "fullscreen", MemberValue::Flag(true));
    set_member(&mut values, "fullscreen", MemberValue::Flag(false));
    assert_eq!(values, ConfigValues::default());
}

#[test]
fn other_keys_and_other_kinds_change_nothing() {
    let mut values = ConfigValues::default();

    set_member(&mut values, "help", MemberValue::Flag(true));
    set_member(&mut values, "window", MemberValue::Flag(true));
    set_member(&mut values, "stracciatella_home", MemberValue::Text(String::from("/a")));
    set_member(&mut values, "mods", MemberValue::Flag(true));
    set_member(&mut values, "debug", MemberValue::Text(String::from("x")));
    set_member(&mut values, "data_dir", MemberValue::Texts(vec![String::from("x")]));
    set_member(&mut values, "res", MemberValue::Text(String::from("1x1")));
    set_member(&mut values, "resversion", MemberValue::Resolution((1, 1)));
    set_member(&mut values, "res", MemberValue::Version(ResourceVersion::DUTCH));
    assert_eq!(values, ConfigValues::default());
}

#[test]
fn resource_version_names_are_listed_in_order() {
    assert_eq!(
        resource_version_names(),
        vec![
            "DUTCH", "ENGLISH", "FRENCH", "GERMAN", "ITALIAN", "POLISH", "RUSSIAN",
            "RUSSIAN_GOLD"
        ]
    );
}

#[test]
fn refused_text_gives_the_parsers_message_behind_the_prefix() {
    assert_eq!(
        parse_json_config("/h", ConfigRead::Refused(String::from("expected value at line 3 column 7"))),
        Err(String::from(
            "Error parsing ja2.json config file: expected value at line 3 column 7"
        ))
    );
}

#[test]
fn configuration_becomes_options_without_session_switches() {
    let mut values = ConfigValues::default();
    values.data_dir = String::from("/dd");
    values.nosound = true;
    let engine_options = options_from_config("/home", values);

    let mut expected = EngineOptions::default();
    expected.stracciatella_home = String::from("/home");
    expected.vanilla_data_dir = String::from("/dd");
    expected.start_without_sound = true;
    assert_eq!(engine_options, expected);
}

#[test]
fn options_keep_seven_values_for_the_configuration() {
    let mut engine_options = EngineOptions::default();
    engine_options.stracciatella_home = String::from("/home");
    engine_options.vanilla_data_dir = String::from("/dd");
    engine_options.mods = vec![String::from("a")];
    engine_options.resolution = (1, 2);
    engine_options.resource_version = ResourceVersion::FRENCH;
    engine_options.show_help = true;
    engine_options.start_in_debug_mode = true;

    assert_eq!(
        config_values(&engine_options),
        ConfigValues {
            data_dir: String::from("/dd"),
            mods: vec![String::from("a")],
            resolution: (1, 2),
            resource_version: ResourceVersion::FRENCH,
            fullscreen: false,
            debug: true,
            nosound: false,
        }
    );
}

#[test]
fn configuration_and_command_line_are_merged_from_plain_values() {
    let mut values = ConfigValues::default();
    values.data_dir = String::from("/dd");
    values.resolution = (1024, 768);
    values.fullscreen = true;
    let mut command_line = no_switches();
    command_line.res = Some(String::from("1100x480"));

    let engine_options = merge_engine_options("/home", values, &command_line).unwrap();

    assert_eq!(engine_options.resolution, (1100, 480));
    assert_eq!(engine_options.vanilla_data_dir, "/dd");
    assert!(engine_options.start_in_fullscreen);
}

#[test]
fn merge_without_a_data_directory_fails() {
    assert_eq!(
        merge_engine_options("/home", ConfigValues::default(), &no_switches()),
        Err(String::from(
            "Vanilla data directory has to be set either in config file or per command line switch"
        ))
    );
}

#[test]
fn merge_takes_the_data_directory_of_the_command_line() {
    let mut command_line = no_switches();
    command_line.datadir = Some(String::from("/given"));

    let engine_options =
        merge_engine_options("/home", ConfigValues::default(), &command_line).unwrap();

    assert_eq!(engine_options.vanilla_data_dir, "/given");
}
