use storage_cache::upload_info::{get_file_extension, get_file_name, validate_file_name};
use storage_cache::UploadInfo;

#[test]
fn file_name_is_split_at_the_last_dot() {
    assert_eq!(get_file_name("test.file"), "test");
    assert_eq!(get_file_extension("test.file"), Some(String::from("file")));
    assert_eq!(get_file_name("a.tar.gz"), "a.tar");
    assert_eq!(get_file_extension("a.tar.gz"), Some(String::from("gz")));
}

#[test]
fn file_name_without_dot_has_no_extension() {
    assert_eq!(get_file_name("readme"), "readme");
    assert_eq!(get_file_extension("readme"), None);
    assert_eq!(get_file_name(""), "");
    assert_eq!(get_file_extension(""), None);
}

#[test]
fn file_name_with_dot_at_an_end() {
    assert_eq!(get_file_name(".hidden"), "");
    assert_eq!(get_file_extension(".hidden"), Some(String::from("hidden")));
    assert_eq!(get_file_name("trailing."), "trailing");
    assert_eq!(get_file_extension("trailing."), Some(String::new()));
    assert_eq!(get_file_name("."), "");
    assert_eq!(get_file_extension("."), Some(String::new()));
}

#[test]
fn file_name_with_wide_characters() {
    assert_eq!(get_file_name("été.txt"), "été");
    assert_eq!(get_file_extension("été.txt"), Some(String::from("txt")));
    assert_eq!(get_file_extension("a.é"), Some(String::from("é")));
}

#[test]
fn upload_info_from_file_name() {
    let info = UploadInfo::from_file_name("photo.png");
    assert_eq!(info.name(), "photo");
    assert_eq!(info.extension(), "png");
    let bare = UploadInfo::from_file_name("Makefile");
    assert_eq!(bare.name(), "Makefile");
    assert_eq!(bare.extension(), "");
}

#[test]
fn upload_info_keeps_what_it_was_given() {
    let info = UploadInfo::new(String::from("name"), String::from("ext"));
    assert_eq!(info.name(), "name");
    assert_eq!(info.extension(), "ext");
    let copy = info.duplicate();
    assert_eq!(copy.name(), "name");
    assert_eq!(copy.extension(), "ext");
}

#[test]
fn handed_out_file_name() {
    let info = UploadInfo::from_file_name("test.file");
    assert_eq!(info.file_name(), "test.file");
    assert!(info.is_named("test.file"));
    assert!(!info.is_named("test.fil"));
    assert!(!info.is_named("other.file"));
    // a name without extension is handed out with a closing dot
    let bare = UploadInfo::from_file_name("readme");
    assert_eq!(bare.file_name(), "readme.");
    assert!(!bare.is_named("readme"));
}

#[test]
fn valid_file_names() {
    assert!(validate_file_name("test.file"));
    assert!(validate_file_name("a"));
    assert!(validate_file_name("A-b_c.9"));
    assert!(validate_file_name(&"x".repeat(100)));
}

#[test]
fn invalid_file_names() {
    assert!(!validate_file_name(""));
    assert!(!validate_file_name(&"x".repeat(101)));
    assert!(!validate_file_name("has space"));
    assert!(!validate_file_name("slash/name"));
    assert!(!validate_file_name("quote\""));
    assert!(!validate_file_name("été"));
    assert!(!validate_file_name("line\n"));
}
