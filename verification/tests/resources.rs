use stracciatella::resources::ResourceVersion;

#[test]
fn resource_version_names_round_trip() {
    let all = [
        ResourceVersion::DUTCH,
        ResourceVersion::ENGLISH,
        ResourceVersion::FRENCH,
        ResourceVersion::GERMAN,
        ResourceVersion::ITALIAN,
        ResourceVersion::POLISH,
        ResourceVersion::RUSSIAN,
        ResourceVersion::RUSSIAN_GOLD,
    ];
    for version in all {
        assert_eq!(ResourceVersion::from_str(&version.to_string()), Ok(version));
    }
}

#[test]
fn unknown_resource_version_names_are_refused() {
    assert_eq!(
        ResourceVersion::from_str("TESTUNKNOWN"),
        Err(String::from("Resource version TESTUNKNOWN is unknown"))
    );
    assert_eq!(
        ResourceVersion::from_str("english"),
        Err(String::from("Resource version english is unknown"))
    );
    assert_eq!(
        ResourceVersion::from_str(""),
        Err(String::from("Resource version  is unknown"))
    );
    assert_eq!(ResourceVersion::lookup("RUSSIAN_GOLD"), Some(ResourceVersion::RUSSIAN_GOLD));
    assert_eq!(ResourceVersion::lookup("RUSSIAN_"), None);
}
