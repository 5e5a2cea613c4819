use storage_cache::layout::{
    data_file_name, data_path, duplicates_path, init_cache_list_from_cache_dir, meta_file_id,
    meta_file_id_from, meta_file_name, meta_path, temp_data_file_name, temp_data_path,
};
use storage_cache::{CacheConfig, CacheError, EntryId};

fn config() -> CacheConfig {
    CacheConfig::new(String::from("./cache"), 1000, 3)
}

fn id() -> EntryId {
    EntryId::from_u128(0x936da01f9abd4d9d80c702af85c822a8)
}

#[test]
fn config_keeps_what_it_was_given() {
    let config = CacheConfig::new(String::from("/var/cache"), 77, 19);
    assert_eq!(config.directory(), "/var/cache");
    assert_eq!(config.max_upload_size(), 77);
    assert_eq!(config.compression_level(), 19);
}

#[test]
fn file_names() {
    assert_eq!(meta_file_name(&id()), "936da01f-9abd-4d9d-80c7-02af85c822a8.meta");
    assert_eq!(temp_data_file_name(&id()), "936da01f-9abd-4d9d-80c7-02af85c822a8.temp_data");
    assert_eq!(data_file_name("abc123"), "abc123.data");
}

#[test]
fn paths_lie_in_the_cache_directory() {
    assert_eq!(
        meta_path(&config(), &id()),
        "./cache/936da01f-9abd-4d9d-80c7-02af85c822a8.meta"
    );
    assert_eq!(
        temp_data_path(&config(), &id()),
        "./cache/936da01f-9abd-4d9d-80c7-02af85c822a8.temp_data"
    );
    assert_eq!(data_path(&config(), "abc123.data"), "./cache/abc123.data");
    assert_eq!(duplicates_path(&config()), "./cache/duplicates.json");
}

#[test]
fn meta_file_name_leads_back_to_the_identifier() {
    let name = meta_file_name(&id());
    assert!(matches!(meta_file_id(&name), Ok(found) if found == id()));
}

#[test]
fn meta_file_id_refuses_a_stem_that_is_no_identifier() {
    match meta_file_id("notes.meta") {
        Err(CacheError::InvalidId { value }) => assert_eq!(value, "notes.meta"),
        other => panic!("unexpected: {:?}", other),
    }
    match meta_file_id("duplicates.json") {
        Err(CacheError::InvalidId { value }) => assert_eq!(value, "duplicates.json"),
        other => panic!("unexpected: {:?}", other),
    }
}

#[test]
fn meta_file_id_refuses_another_extension() {
    match meta_file_id("936da01f-9abd-4d9d-80c7-02af85c822a8.temp_data") {
        Err(CacheError::WrongFileType { expected, actual }) => {
            assert_eq!(expected, "meta");
            assert_eq!(actual, "temp_data");
        }
        other => panic!("unexpected: {:?}", other),
    }
    match meta_file_id("936da01f-9abd-4d9d-80c7-02af85c822a8") {
        Err(CacheError::WrongFileType { expected, actual }) => {
            assert_eq!(expected, "meta");
            assert_eq!(actual, "");
        }
        other => panic!("unexpected: {:?}", other),
    }
}

#[test]
fn meta_file_id_from_goes_by_the_parser() {
    assert!(matches!(
        meta_file_id_from("x.meta", Some(5)),
        Ok(found) if found == EntryId::from_u128(5)
    ));
    assert!(matches!(
        meta_file_id_from("x.meta", None),
        Err(CacheError::InvalidId { .. })
    ));
    assert!(matches!(
        meta_file_id_from("x.data", Some(5)),
        Err(CacheError::WrongFileType { .. })
    ));
    // an unreadable identifier is reported before a wrong extension
    assert!(matches!(
        meta_file_id_from("x.data", None),
        Err(CacheError::InvalidId { .. })
    ));
}

#[test]
fn listing_is_searched_for_metadata_files() {
    let other = EntryId::from_u128(0x11111111222243338444555555555555);
    let names = vec![
        String::from("duplicates.json"),
        meta_file_name(&id()),
        temp_data_file_name(&id()),
        data_file_name("0a1b2c"),
        String::from("notes.meta"),
        meta_file_name(&other),
        String::from("936da01f-9abd-4d9d-80c7-02af85c822a8"),
    ];
    let found = init_cache_list_from_cache_dir(&names);
    assert_eq!(found.len(), 2);
    assert_eq!(found[0].index, 1);
    assert_eq!(found[0].id, id());
    assert_eq!(found[1].index, 5);
    assert_eq!(found[1].id, other);
}

#[test]
fn empty_listing_holds_no_metadata_file() {
    assert_eq!(init_cache_list_from_cache_dir(&Vec::new()).len(), 0);
}
