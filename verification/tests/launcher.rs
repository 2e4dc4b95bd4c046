use stracciatella::launcher::{find_ja2_executable, has_launcher_suffix_length};

#[test]
fn find_ja2_executable_should_determine_game_path_from_launcher_path() {
    assert_eq!(find_ja2_executable("/home/test/ja2-launcher"), "/home/test/ja2");
    assert_eq!(
        find_ja2_executable("C:\\\\home\\\\test\\\\ja2-launcher.exe"),
        "C:\\\\home\\\\test\\\\ja2.exe"
    );
    assert_eq!(find_ja2_executable("ja2-launcher"), "ja2");
    assert_eq!(find_ja2_executable("ja2-launcher.exe"), "ja2.exe");
    assert_eq!(find_ja2_executable("JA2-LAUNCHER.EXE"), "JA2.exe");
}

#[test]
fn launcher_suffix_is_cut_by_its_length() {
    assert_eq!(find_ja2_executable("-launcher"), "");
    assert_eq!(find_ja2_executable("-launcher.eXe"), ".exe");
    assert_eq!(find_ja2_executable("/opt/jä2-launcher"), "/opt/jä2");
    assert_eq!(find_ja2_executable("something-else"), "somet");
    assert_eq!(find_ja2_executable("ja2-launcher.exe.bak"), "ja2-launche");
}

#[test]
fn launcher_path_has_to_hold_the_suffix() {
    assert!(has_launcher_suffix_length("ja2-launcher"));
    assert!(has_launcher_suffix_length("-launcher"));
    assert!(!has_launcher_suffix_length("launcher"));
    assert!(!has_launcher_suffix_length(""));
    assert!(has_launcher_suffix_length("-launcher.exe"));
    assert!(!has_launcher_suffix_length("launcher.exe"));
    assert!(!has_launcher_suffix_length("a.EXE"));
}
