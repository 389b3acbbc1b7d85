use orion_rpc::version::select_update;

fn releases(list: &[&str]) -> Vec<String> {
    list.iter().map(|s| s.to_string()).collect()
}

#[test]
fn no_release_means_no_update() {
    assert_eq!(select_update(&releases(&[]), "1.0.0").unwrap(), None);
    // Nothing is parsed when there is no release.
    assert_eq!(select_update(&releases(&[]), "not a version").unwrap(), None);
}

#[test]
fn newer_patch_is_an_update() {
    let found = select_update(&releases(&["1.0.1"]), "1.0.0").unwrap();
    assert_eq!(found, Some("1.0.1".to_string()));
}

#[test]
fn newer_major_is_an_update() {
    let found = select_update(&releases(&["2.0.0"]), "1.9.9").unwrap();
    assert_eq!(found, Some("2.0.0".to_string()));
}

#[test]
fn same_version_is_no_update() {
    assert_eq!(select_update(&releases(&["1.4.2"]), "1.4.2").unwrap(), None);
    assert_eq!(select_update(&releases(&["1.4.2-rc.1+b7"]), "1.4.2-rc.1+b7").unwrap(), None);
}

#[test]
fn older_version_is_no_update() {
    assert_eq!(select_update(&releases(&["0.9.0"]), "1.0.0").unwrap(), None);
    assert_eq!(select_update(&releases(&["1.0.9"]), "1.1.0").unwrap(), None);
}

#[test]
fn only_the_newest_release_counts() {
    assert_eq!(select_update(&releases(&["1.0.0", "2.0.0"]), "1.0.0").unwrap(), None);
    let found = select_update(&releases(&["1.2.0", "not a version"]), "1.0.0").unwrap();
    assert_eq!(found, Some("1.2.0".to_string()));
}

#[test]
fn release_is_newer_than_its_prerelease() {
    let found = select_update(&releases(&["1.0.0"]), "1.0.0-beta").unwrap();
    assert_eq!(found, Some("1.0.0".to_string()));
    assert_eq!(select_update(&releases(&["1.0.0-beta"]), "1.0.0").unwrap(), None);
}

#[test]
fn prerelease_numbers_compare_by_value() {
    let found = select_update(&releases(&["1.0.0-beta.11"]), "1.0.0-beta.2").unwrap();
    assert_eq!(found, Some("1.0.0-beta.11".to_string()));
    assert_eq!(select_update(&releases(&["1.0.0-alpha"]), "1.0.0-beta").unwrap(), None);
}

#[test]
fn build_metadata_takes_part_in_the_order() {
    let found = select_update(&releases(&["1.0.0+b"]), "1.0.0+a").unwrap();
    assert_eq!(found, Some("1.0.0+b".to_string()));
    assert_eq!(select_update(&releases(&["1.0.0"]), "1.0.0+a").unwrap(), None);
}

#[test]
fn invalid_running_version_is_an_error() {
    assert!(select_update(&releases(&["1.0.0"]), "1.0").is_err());
}

#[test]
fn invalid_release_is_an_error() {
    assert!(select_update(&releases(&["v1.0.0"]), "1.0.0").is_err());
    assert!(select_update(&releases(&["1.0.01"]), "1.0.0").is_err());
}

#[test]
fn malformed_versions_are_errors() {
    for bad in ["", "1.0.0-", "1.0.0+", "1.0.0-alpha_1", "23456789999999999999.0.0", "1.0"] {
        assert!(select_update(&releases(&["1.0.0"]), bad).is_err());
        assert!(select_update(&releases(&[bad]), "1.0.0").is_err());
    }
}

#[test]
fn minor_is_compared_numerically() {
    let found = select_update(&releases(&["1.10.0"]), "1.2.3").unwrap();
    assert_eq!(found, Some("1.10.0".to_string()));
    assert_eq!(select_update(&releases(&["1.2.3"]), "1.10.0").unwrap(), None);
}
