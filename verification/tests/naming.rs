use tarball_fetcher::naming::{derive_package_name, tarball_file_name};

#[test]
fn derives_simple_name() {
    let name = derive_package_name("node_modules/simple");
    assert_eq!(name, Some(String::from("simple")));
}

#[test]
fn derives_scoped_name_with_hyphen() {
    let name = derive_package_name("node_modules/@scope/name");
    assert_eq!(name, Some(String::from("@scope-name")));
}

#[test]
fn derives_name_after_last_marker() {
    let name = derive_package_name("node_modules/outer/node_modules/inner");
    assert_eq!(name, Some(String::from("inner")));
}

#[test]
fn derives_nested_scoped_name() {
    let name = derive_package_name("node_modules/a/node_modules/@b/c");
    assert_eq!(name, Some(String::from("@b-c")));
}

#[test]
fn rejects_key_without_marker() {
    assert_eq!(derive_package_name("plain/path/key"), None);
    assert_eq!(derive_package_name(""), None);
    assert_eq!(derive_package_name("node_modules"), None);
}

#[test]
fn marker_alone_yields_empty_name() {
    let name = derive_package_name("node_modules/");
    assert_eq!(name, Some(String::from("")));
}

#[test]
fn builds_tarball_file_name() {
    let file_name = tarball_file_name("simple", "1.0.0");
    assert_eq!(file_name, String::from("simple-1.0.0.tgz"));
}

#[test]
fn builds_tarball_file_name_for_scoped_package() {
    let file_name = tarball_file_name("@scope-name", "2.3.4");
    assert_eq!(file_name, String::from("@scope-name-2.3.4.tgz"));
}
