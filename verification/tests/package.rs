use update_informer::Package;

#[test]
fn new_with_name_test() {
    let pkg1 = Package::new("repo");
    let pkg2 = Package { owner: None, name: "repo".to_string() };

    assert_eq!(pkg1, pkg2);
    assert_eq!(pkg1.name(), "repo".to_string())
}

#[test]
fn new_with_owner_and_name_test() {
    let pkg1 = Package::new("owner/repo");
    let pkg2 = Package { owner: Some("owner".to_string()), name: "repo".to_string() };

    assert_eq!(pkg1, pkg2);
    assert_eq!(pkg1.name(), "owner-repo".to_string())
}

#[test]
fn name_fmt_test() {
    let pkg = Package::new("repo");
    assert_eq!(String::from("repo"), pkg.to_string())
}

#[test]
fn name_with_owner_fmt_test() {
    let pkg = Package::new("owner/repo");
    assert_eq!(String::from("owner/repo"), pkg.to_string())
}

#[test]
fn display_restores_a_string_with_one_slash() {
    for raw in ["repo", "owner/repo", "/repo", "owner/", "/", "", "söme/päckage"] {
        assert_eq!(Package::new(raw).to_string(), raw);
    }
}

#[test]
fn empty_string_is_a_package_without_owner_and_name() {
    let pkg = Package::new("");
    assert_eq!(pkg, Package { owner: None, name: String::new() });
    assert_eq!(pkg.name(), "");
}

#[test]
fn trailing_slash_gives_an_empty_name() {
    let pkg = Package::new("owner/");
    assert_eq!(pkg, Package { owner: Some("owner".to_string()), name: String::new() });
    assert_eq!(pkg.name(), "owner-");
}

// Known limitation: what a second slash starts is dropped.
#[test]
fn second_slash_ends_the_name() {
    let pkg = Package::new("a/b/c");
    assert_eq!(pkg, Package { owner: Some("a".to_string()), name: "b".to_string() });
    assert_eq!(pkg.to_string(), "a/b");
    assert_eq!(pkg.name(), "a-b");
}

// Known limitation: a hyphen in the owner makes storage names collide.
#[test]
fn storage_names_can_collide() {
    assert_eq!(Package::new("a-b/c").name(), Package::new("a/b-c").name());
    assert_eq!(Package::new("a-b").name(), Package::new("a/b").name());
}
