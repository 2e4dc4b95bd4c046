use stracciatella::engine::EngineOptions;
use stracciatella::home::Platform;
use stracciatella::resources::ResourceVersion;
use stracciatella::{
    get_mod, get_number_of_mods, get_resolution_x, get_resolution_y, get_resource_version,
    get_resource_version_string, get_stracciatella_home, get_vanilla_data_dir, set_resolution,
    set_resource_version, set_start_in_fullscreen, set_start_without_sound,
    set_vanilla_data_dir, should_run_editor, should_run_unittests, should_show_help,
    should_start_in_debug_mode, should_start_in_fullscreen, should_start_in_window,
    should_start_without_sound, write_engine_options,
};

#[test]
fn write_engine_options_should_write_a_pretty_json_file() {
    let mut engine_options = EngineOptions::default();
    let stracciatella_home = String::from("/tmp/ja2-test/.ja2");

    engine_options.stracciatella_home = stracciatella_home.clone();
    engine_options.resolution = (100, 100);

    let file = write_engine_options(Platform::Unix, &engine_options).unwrap();

    assert_eq!(file.path, "/tmp/ja2-test/.ja2/ja2.json");
    assert_eq!(
        file.contents,
        r##"{
  "data_dir": "",
  "mods": [],
  "res": "100x100",
  "resversion": "ENGLISH",
  "fullscreen": false,
  "debug": false,
  "nosound": false
}"##
    );
}

#[test]
fn writing_leaves_the_home_directory_alone() {
    let mut engine_options = EngineOptions::default();
    engine_options.stracciatella_home = String::from("C:\\Docs\\JA2");

    let file = write_engine_options(Platform::Windows, &engine_options).unwrap();

    assert_eq!(file.path, "C:\\Docs\\JA2\\ja2.json");
    assert!(!file.contents.contains("JA2"));
    assert_eq!(engine_options.stracciatella_home, "C:\\Docs\\JA2");
}

#[test]
fn get_resource_version_string_should_return_the_correct_resource_version_string() {
    assert_eq!(get_resource_version_string(ResourceVersion::DUTCH), "DUTCH");
    assert_eq!(get_resource_version_string(ResourceVersion::ENGLISH), "ENGLISH");
    assert_eq!(get_resource_version_string(ResourceVersion::FRENCH), "FRENCH");
    assert_eq!(get_resource_version_string(ResourceVersion::GERMAN), "GERMAN");
    assert_eq!(get_resource_version_string(ResourceVersion::ITALIAN), "ITALIAN");
    assert_eq!(get_resource_version_string(ResourceVersion::POLISH), "POLISH");
    assert_eq!(get_resource_version_string(ResourceVersion::RUSSIAN), "RUSSIAN");
    assert_eq!(get_resource_version_string(ResourceVersion::RUSSIAN_GOLD), "RUSSIAN_GOLD");
}

#[test]
fn fields_are_read_through_the_accessors() {
    let mut engine_options = EngineOptions::default();
    engine_options.stracciatella_home = String::from("/home");
    engine_options.vanilla_data_dir = String::from("/data");
    engine_options.mods = vec![String::from("first"), String::from("second")];
    engine_options.resolution = (800, 600);
    engine_options.resource_version = ResourceVersion::POLISH;
    engine_options.run_unittests = true;
    engine_options.start_in_window = true;

    assert_eq!(get_stracciatella_home(&engine_options), "/home");
    assert_eq!(get_vanilla_data_dir(&engine_options), "/data");
    assert_eq!(get_number_of_mods(&engine_options), 2);
    assert_eq!(get_mod(&engine_options, 0), "first");
    assert_eq!(get_mod(&engine_options, 1), "second");
    assert_eq!(get_resolution_x(&engine_options), 800);
    assert_eq!(get_resolution_y(&engine_options), 600);
    assert_eq!(get_resource_version(&engine_options), ResourceVersion::POLISH);
    assert!(should_run_unittests(&engine_options));
    assert!(should_start_in_window(&engine_options));
    assert!(!should_show_help(&engine_options));
    assert!(!should_run_editor(&engine_options));
    assert!(!should_start_in_fullscreen(&engine_options));
    assert!(!should_start_in_debug_mode(&engine_options));
    assert!(!should_start_without_sound(&engine_options));
}

#[test]
fn fields_are_changed_through_the_mutators() {
    let mut engine_options = EngineOptions::default();

    set_vanilla_data_dir(&mut engine_options, "/data");
    set_resolution(&mut engine_options, 1280, 1024);
    set_resource_version(&mut engine_options, "ITALIAN");
    set_start_in_fullscreen(&mut engine_options, true);
    set_start_without_sound(&mut engine_options, true);

    let mut expected = EngineOptions::default();
    expected.vanilla_data_dir = String::from("/data");
    expected.resolution = (1280, 1024);
    expected.resource_version = ResourceVersion::ITALIAN;
    expected.start_in_fullscreen = true;
    expected.start_without_sound = true;
    assert_eq!(engine_options, expected);

    set_start_in_fullscreen(&mut engine_options, false);
    set_start_without_sound(&mut engine_options, false);
    assert!(!should_start_in_fullscreen(&engine_options));
    assert!(!should_start_without_sound(&engine_options));
}

#[test]
fn unknown_resource_version_name_changes_nothing() {
    let mut engine_options = EngineOptions::default();
    engine_options.resource_version = ResourceVersion::GERMAN;

    set_resource_version(&mut engine_options, "TESTUNKNOWN");
    assert_eq!(get_resource_version(&engine_options), ResourceVersion::GERMAN);
    set_resource_version(&mut engine_options, "russian");
    assert_eq!(get_resource_version(&engine_options), ResourceVersion::GERMAN);
    set_resource_version(&mut engine_options, "RUSSIAN");
    assert_eq!(get_resource_version(&engine_options), ResourceVersion::RUSSIAN);
}

#[test]
fn defaults_are_as_declared() {
    let engine_options = EngineOptions::default();

    assert_eq!(engine_options.stracciatella_home, "");
    assert_eq!(engine_options.vanilla_data_dir, "");
    assert!(engine_options.mods.is_empty());
    assert_eq!(engine_options.resolution, (640, 480));
    assert_eq!(engine_options.resource_version, ResourceVersion::ENGLISH);
    assert!(!engine_options.show_help);
    assert!(!engine_options.run_unittests);
    assert!(!engine_options.run_editor);
    assert!(!engine_options.start_in_fullscreen);
    assert!(!engine_options.start_in_window);
    assert!(!engine_options.start_in_debug_mode);
    assert!(!engine_options.start_without_sound);
}
