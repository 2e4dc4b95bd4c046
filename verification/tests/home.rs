use stracciatella::engine::EngineOptions;
use stracciatella::home::{
    build_json_config_location, ensure_json_config_existence, find_stracciatella_home, join_path,
    Platform, SetupStep,
};
use stracciatella::get_stracciatella_home;

#[test]
fn ensure_json_config_existence_should_ensure_existence_of_config_dir() {
    let home_path = "/tmp/ja2-tests/ja2_home";
    let steps = ensure_json_config_existence(Platform::Unix, home_path, false, false);

    assert_eq!(steps.len(), 2);
    assert_eq!(steps[0], SetupStep::CreateDirectory { path: String::from(home_path) });
    assert!(matches!(
        &steps[1],
        SetupStep::CreateFile { path, .. } if path == "/tmp/ja2-tests/ja2_home/ja2.json"
    ));
}

#[test]
fn ensure_json_config_existence_should_not_overwrite_existing_ja2json() {
    let steps = ensure_json_config_existence(Platform::Unix, "/tmp/ja2-test/.ja2", true, true);

    assert!(steps.is_empty());
    let steps = ensure_json_config_existence(Platform::Unix, "/tmp/ja2-test/.ja2", false, true);
    assert_eq!(
        steps,
        vec![SetupStep::CreateDirectory { path: String::from("/tmp/ja2-test/.ja2") }]
    );
}

#[test]
fn missing_config_in_an_existing_home_is_created() {
    let steps = ensure_json_config_existence(Platform::Windows, "C:\\Docs\\JA2", true, false);

    assert_eq!(steps.len(), 1);
    assert!(matches!(
        &steps[0],
        SetupStep::CreateFile { path, .. } if path == "C:\\Docs\\JA2\\ja2.json"
    ));
}

#[test]
fn find_stracciatella_home_should_find_the_correct_stracciatella_home_path_on_unixlike() {
    let home = "/home/test";
    let mut engine_options: EngineOptions = Default::default();
    engine_options.stracciatella_home =
        find_stracciatella_home(Platform::Unix, Some(home)).unwrap();

    assert_eq!(get_stracciatella_home(&engine_options), format!("{}/.ja2", home));
}

#[test]
fn find_stracciatella_home_should_find_the_correct_stracciatella_home_path_on_windows() {
    let mut engine_options: EngineOptions = Default::default();
    engine_options.stracciatella_home =
        find_stracciatella_home(Platform::Windows, Some("C:\\Users\\test\\Documents")).unwrap();

    let result = get_stracciatella_home(&engine_options);
    assert_eq!(result, "C:\\Users\\test\\Documents\\JA2");
}

#[test]
fn home_is_not_found_without_a_user_directory() {
    assert_eq!(
        find_stracciatella_home(Platform::Unix, None),
        Err(String::from("Could not find home directory"))
    );
    assert_eq!(
        find_stracciatella_home(Platform::Windows, None),
        Err(String::from("Could not find home directory"))
    );
}

#[test]
fn paths_are_joined_with_one_separator() {
    assert_eq!(join_path(Platform::Unix, "/home/test", ".ja2"), "/home/test/.ja2");
    assert_eq!(join_path(Platform::Unix, "/home/test/", ".ja2"), "/home/test/.ja2");
    assert_eq!(join_path(Platform::Unix, "/", ".ja2"), "/.ja2");
    assert_eq!(join_path(Platform::Unix, "", "ja2.json"), "ja2.json");
    assert_eq!(join_path(Platform::Unix, "C:\\x\\", "a"), "C:\\x\\/a");
    assert_eq!(join_path(Platform::Windows, "C:\\x", "a"), "C:\\x\\a");
    assert_eq!(join_path(Platform::Windows, "C:\\x\\", "a"), "C:\\x\\a");
    assert_eq!(join_path(Platform::Windows, "C:/x/", "a"), "C:/x/a");
    assert_eq!(join_path(Platform::Unix, "/höme", "ä"), "/höme/ä");
}

#[test]
fn config_file_lies_in_the_home_directory() {
    assert_eq!(
        build_json_config_location(Platform::Unix, "/home/test/.ja2"),
        "/home/test/.ja2/ja2.json"
    );
    assert_eq!(build_json_config_location(Platform::Windows, "D:\\JA2"), "D:\\JA2\\ja2.json");
}
