use edgar_rs::archive::plan_entry;
use edgar_rs::error::EdgarApiError;

#[test]
fn nested_file_entry_is_written_under_destination() {
    let e = plan_entry("a/b.txt").unwrap();
    assert_eq!(e.path, "a/b.txt");
    assert!(!e.is_dir);
    let d = plan_entry("a/").unwrap();
    assert!(d.is_dir);
}

#[test]
fn parent_directory_entry_is_rejected() {
    match plan_entry("../evil.txt") {
        Err(EdgarApiError::ZipError(m)) => assert_eq!(m, "Invalid file path in ZIP"),
        other => panic!("unexpected {:?}", other),
    }
    assert!(plan_entry("a/../../evil.txt").is_err());
    assert!(plan_entry("a\\..\\..\\evil.txt").is_err());
    assert!(plan_entry("..").is_err());
    assert!(plan_entry("./../x").is_err());
    assert!(plan_entry("a/b/../../../x").is_err());
    assert!(plan_entry("/etc/passwd").is_err());
    assert!(plan_entry("\\share\\x").is_err());
    assert!(plan_entry("a\0b").is_err());
    assert!(plan_entry("").is_err());
}

#[test]
fn dots_inside_names_are_fine() {
    assert!(plan_entry("a..b/c.json").is_ok());
    assert!(plan_entry("./x").is_ok());
    assert!(plan_entry("x/...").is_ok());
}

#[test]
fn names_that_come_back_inside_are_accepted() {
    let e = plan_entry("a/../b.txt").unwrap();
    assert_eq!(e.path, "a/../b.txt");
    assert!(plan_entry("a/b/../../c").is_ok());
    assert!(plan_entry("a\\..\\b.txt").is_ok());
    assert!(plan_entry("a/..").is_ok());
    assert!(plan_entry("a:b.txt").is_ok());
    assert!(plan_entry("C:evil").is_ok());
    assert!(plan_entry("a//b").is_ok());
}
