use anders::dotted_package_name_to_package_path;

#[test]
fn test_dotted_package_name_to_package_path() {
    assert_eq!(
        dotted_package_name_to_package_path("hello.wonderful.world"),
        "src/hello/wonderful/world"
    );
}

#[test]
fn package_path_without_dots_is_one_directory() {
    assert_eq!(dotted_package_name_to_package_path("plain"), "src/plain");
}

#[test]
fn package_path_of_empty_name_is_the_source_root() {
    assert_eq!(dotted_package_name_to_package_path(""), "src/");
}
