use sweepwatch::record::{file_type_of, FileRecord};
use sweepwatch::strutil::str_eq;

#[test]
fn type_of_simple_extension() {
    assert_eq!(file_type_of("shot1.png"), "png");
    assert_eq!(file_type_of("note.txt"), "txt");
}

#[test]
fn type_of_double_extension_takes_last() {
    assert_eq!(file_type_of("archive.tar.gz"), "gz");
}

#[test]
fn type_of_extensionless_is_whole_name() {
    assert_eq!(file_type_of("Makefile"), "Makefile");
}

#[test]
fn type_of_leading_dot() {
    assert_eq!(file_type_of(".gitignore"), "gitignore");
}

#[test]
fn type_of_trailing_dot_is_empty() {
    assert_eq!(file_type_of("x."), "");
}

#[test]
fn new_record_derives_type() {
    let r = FileRecord::new(
        "a.png".to_string(),
        "/watched/a.png".to_string(),
        100,
        200,
        42,
    );
    assert_eq!(r.name, "a.png");
    assert_eq!(r.path, "/watched/a.png");
    assert_eq!(r.created, 100);
    assert_eq!(r.modified, 200);
    assert_eq!(r.size, 42);
    assert_eq!(r.file_type, "png");
}

#[test]
fn unresolved_record_is_empty() {
    let r = FileRecord::unresolved(77);
    assert_eq!(r.name, "");
    assert_eq!(r.path, "");
    assert_eq!(r.created, 77);
    assert_eq!(r.modified, 77);
    assert_eq!(r.size, 0);
    assert_eq!(r.file_type, "");
}

#[test]
fn duplicate_copies_every_field() {
    let r = FileRecord::new("b.png".to_string(), "/d/b.png".to_string(), 1, 2, 3);
    let c = r.duplicate();
    assert_eq!(c.name, r.name);
    assert_eq!(c.path, r.path);
    assert_eq!(c.created, r.created);
    assert_eq!(c.modified, r.modified);
    assert_eq!(c.size, r.size);
    assert_eq!(c.file_type, r.file_type);
}

#[test]
fn str_eq_compares_characters() {
    assert!(str_eq("abc", "abc"));
    assert!(!str_eq("abc", "abd"));
    assert!(!str_eq("abc", "ab"));
    assert!(str_eq("", ""));
}
