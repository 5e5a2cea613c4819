use storage_cache::entry::{EntryState, Removal};
use storage_cache::{
    CacheConfig, CacheEntry, CacheError, DuplicateMap, EntryId, Metadata, Size, UploadInfo,
};

fn config() -> CacheConfig {
    CacheConfig::new(String::from("./cache"), 1000, 3)
}

fn id(n: u128) -> EntryId {
    EntryId::from_u128(n)
}

fn ready_entry(n: u128, data_file_name: &str) -> CacheEntry {
    let metadata = Metadata::new(
        String::from("test"),
        String::from("file"),
        Size::new(27, 36),
        String::from(data_file_name),
    );
    CacheEntry::from_metadata(id(n), metadata, true)
}

#[test]
fn size_keeps_both_counts() {
    let size = Size::new(5, 14);
    assert_eq!(size.original(), 5);
    assert_eq!(size.compressed(), 14);
}

#[test]
fn metadata_keeps_what_it_was_given() {
    let metadata = Metadata::new(
        String::from("n"),
        String::from("e"),
        Size::new(1, 2),
        String::from("h.data"),
    );
    assert_eq!(metadata.name(), "n");
    assert_eq!(metadata.extension(), "e");
    assert_eq!(*metadata.size(), Size::new(1, 2));
    assert_eq!(metadata.data_file_name(), "h.data");
}

#[test]
fn new_entry_is_uninitialized() {
    let entry = CacheEntry::new(id(1), UploadInfo::from_file_name("a.b"));
    assert_eq!(entry.uuid(), id(1));
    assert_eq!(entry.state(), EntryState::Uninitialized);
    assert!(!entry.is_ready());
    assert_eq!(entry.data_size(), Size::new(0, 0));
    assert_eq!(entry.data_file_name(), "");
    assert_eq!(entry.upload_info().name(), "a");
    assert_eq!(entry.upload_info().extension(), "b");
}

#[test]
fn entry_from_metadata() {
    let entry = ready_entry(7, "abc.data");
    assert_eq!(entry.uuid(), id(7));
    assert!(entry.is_ready());
    assert_eq!(entry.data_size(), Size::new(27, 36));
    assert_eq!(entry.data_file_name(), "abc.data");
    let metadata = Metadata::new(
        String::from("n"),
        String::from("e"),
        Size::new(1, 2),
        String::from("h.data"),
    );
    let unready = CacheEntry::from_metadata(id(8), metadata, false);
    assert_eq!(unready.state(), EntryState::Uninitialized);
}

#[test]
fn entry_builds_its_metadata() {
    let metadata = ready_entry(7, "abc.data").build_metadata();
    assert_eq!(metadata.name(), "test");
    assert_eq!(metadata.extension(), "file");
    assert_eq!(*metadata.size(), Size::new(27, 36));
    assert_eq!(metadata.data_file_name(), "abc.data");
}

#[test]
fn entry_walks_through_its_states() {
    let mut entry = CacheEntry::new(id(1), UploadInfo::from_file_name("a.b"));
    assert!(!entry.transition(EntryState::Ready));
    assert!(!entry.set_ready(String::from("h.data")));
    assert!(!entry.set_data_size(Size::new(1, 1)));
    assert_eq!(entry.state(), EntryState::Uninitialized);
    assert!(entry.transition(EntryState::Storing));
    assert!(!entry.transition(EntryState::Deleted));
    assert!(entry.set_data_size(Size::new(5, 14)));
    assert!(entry.set_ready(String::from("h.data")));
    assert!(entry.is_ready());
    assert_eq!(entry.data_size(), Size::new(5, 14));
    assert_eq!(entry.data_file_name(), "h.data");
    // a ready entry is not marked ready again, and its size stays
    assert!(!entry.set_ready(String::from("other.data")));
    assert!(!entry.set_data_size(Size::new(9, 9)));
    assert_eq!(entry.data_file_name(), "h.data");
    assert_eq!(entry.data_size(), Size::new(5, 14));
    assert!(!entry.transition(EntryState::Storing));
    assert!(entry.transition(EntryState::Deleted));
    assert!(!entry.transition(EntryState::Ready));
}

#[test]
fn storing_may_fail() {
    let mut entry = CacheEntry::new(id(1), UploadInfo::from_file_name("a.b"));
    assert!(entry.transition(EntryState::Storing));
    assert!(entry.transition(EntryState::Failed));
    assert!(!entry.transition(EntryState::Ready));
    assert!(!entry.transition(EntryState::Storing));
    assert!(!entry.is_ready());
}

#[test]
fn load_of_a_ready_entry() {
    let (info, path) = ready_entry(7, "abc.data").load(&config()).unwrap();
    assert_eq!(info.name(), "test");
    assert_eq!(info.extension(), "file");
    assert_eq!(path, "./cache/abc.data");
}

#[test]
fn load_of_an_unready_entry_fails() {
    let entry = CacheEntry::new(id(1), UploadInfo::from_file_name("a.b"));
    match entry.load(&config()) {
        Err(CacheError::NotReady { id: found }) => assert_eq!(found, id(1)),
        other => panic!("unexpected: {:?}", other.map(|_| ())),
    }
}

#[test]
fn entry_from_file() {
    let metadata = Metadata::new(
        String::from("n"),
        String::from("e"),
        Size::new(1, 2),
        String::from("h.data"),
    );
    let entry =
        CacheEntry::from_file("936da01f-9abd-4d9d-80c7-02af85c822a8.meta", metadata).unwrap();
    assert_eq!(entry.uuid(), id(0x936da01f9abd4d9d80c702af85c822a8));
    assert!(entry.is_ready());
    assert_eq!(entry.data_file_name(), "h.data");
    assert_eq!(entry.upload_info().name(), "n");
}

#[test]
fn entry_from_file_with_a_bad_name() {
    let metadata = || {
        Metadata::new(String::from("n"), String::from("e"), Size::new(1, 2), String::from("h"))
    };
    assert!(matches!(
        CacheEntry::from_file("nothing.meta", metadata()),
        Err(CacheError::InvalidId { .. })
    ));
    assert!(matches!(
        CacheEntry::from_file("936da01f-9abd-4d9d-80c7-02af85c822a8.data", metadata()),
        Err(CacheError::WrongFileType { .. })
    ));
}

#[test]
fn delete_of_the_last_holder_removes_the_data_file() {
    let mut index = DuplicateMap::new();
    index.add(String::from("abc"), id(7));
    let plan = ready_entry(7, "abc.data").delete(&mut index, &config()).unwrap();
    assert_eq!(plan.index_path, "./cache/duplicates.json");
    assert_eq!(plan.index_text, "{}");
    let removal = plan.verdict.unwrap();
    assert_eq!(removal.meta_path, "./cache/00000000-0000-0000-0000-000000000007.meta");
    assert_eq!(removal.data_path, Some(String::from("./cache/abc.data")));
    assert_eq!(index.get("abc"), None);
}

#[test]
fn delete_of_a_shared_content_keeps_the_data_file() {
    let mut index = DuplicateMap::new();
    index.add(String::from("abc"), id(7));
    index.add(String::from("abc"), id(8));
    let plan = ready_entry(7, "abc.data").delete(&mut index, &config()).unwrap();
    assert_eq!(plan.index_text, "{\"abc\":[\"00000000-0000-0000-0000-000000000008\"]}");
    let removal = plan.verdict.unwrap();
    assert_eq!(removal.meta_path, "./cache/00000000-0000-0000-0000-000000000007.meta");
    assert_eq!(removal.data_path, None);
    assert_eq!(index.get("abc"), Some(&vec![8u128]));
}

#[test]
fn delete_of_an_unlisted_entry_reports_the_index() {
    let mut index = DuplicateMap::new();
    index.add(String::from("abc"), id(8));
    let plan = ready_entry(7, "abc.data").delete(&mut index, &config()).unwrap();
    match plan.verdict {
        Err(CacheError::DuplicateIndexInvariantViolation { id: found, hashes }) => {
            assert_eq!(found, id(7));
            assert!(hashes.is_empty());
        }
        other => panic!("unexpected: {:?}", other),
    }
    assert_eq!(index.get("abc"), Some(&vec![8u128]));
}

#[test]
fn delete_of_an_entry_under_two_hashes_reports_the_index() {
    let mut index = DuplicateMap::new();
    index.add(String::from("abc"), id(7));
    index.add(String::from("def"), id(7));
    let plan = ready_entry(7, "abc.data").delete(&mut index, &config()).unwrap();
    match plan.verdict {
        Err(CacheError::DuplicateIndexInvariantViolation { id: found, mut hashes }) => {
            assert_eq!(found, id(7));
            hashes.sort();
            assert_eq!(hashes, vec![String::from("abc"), String::from("def")]);
        }
        other => panic!("unexpected: {:?}", other),
    }
    // the entry has left the index all the same
    assert_eq!(plan.index_text, "{}");
}

#[test]
fn failed_index_write_is_a_write_failure() {
    let mut index = DuplicateMap::new();
    index.add(String::from("abc"), id(7));
    let plan = ready_entry(7, "abc.data").delete(&mut index, &config()).unwrap();
    match plan.index_write_failed(String::from("disk full")) {
        CacheError::FileWrite { file, why } => {
            assert_eq!(file, "./cache/duplicates.json");
            assert_eq!(why, "disk full");
        }
        other => panic!("unexpected: {:?}", other),
    }
}

fn removal(data: bool) -> Removal {
    Removal {
        meta_path: String::from("m"),
        data_path: if data { Some(String::from("d")) } else { None },
    }
}

fn failed(why: &str) -> Result<(), String> {
    Err(String::from(why))
}

#[test]
fn conclusion_of_a_removal_of_both_files() {
    assert!(removal(true).conclude(Ok(()), Ok(())).is_ok());
    match removal(true).conclude(Ok(()), failed("x")) {
        Err(CacheError::FileRemove { file, why }) => {
            assert_eq!(file, "d");
            assert_eq!(why, "x");
        }
        other => panic!("unexpected: {:?}", other),
    }
    match removal(true).conclude(failed("y"), Ok(())) {
        Err(CacheError::FileRemove { file, why }) => {
            assert_eq!(file, "m");
            assert_eq!(why, "y");
        }
        other => panic!("unexpected: {:?}", other),
    }
}

#[test]
fn conclusion_of_two_failed_removals() {
    match removal(true).conclude(failed("y"), failed("x")) {
        Err(CacheError::Multiple(errors)) => {
            assert_eq!(errors.len(), 2);
            assert!(matches!(
                &errors[0],
                CacheError::FileRemove { file, why } if file == "m" && why == "y"
            ));
            assert!(matches!(
                &errors[1],
                CacheError::FileRemove { file, why } if file == "d" && why == "x"
            ));
        }
        other => panic!("unexpected: {:?}", other),
    }
}

#[test]
fn conclusion_of_a_removal_of_the_metadata_alone() {
    assert!(removal(false).conclude(Ok(()), Ok(())).is_ok());
    assert!(removal(false).conclude(Ok(()), failed("ignored")).is_ok());
    match removal(false).conclude(failed("y"), failed("ignored")) {
        Err(CacheError::FileRemove { file, why }) => {
            assert_eq!(file, "m");
            assert_eq!(why, "y");
        }
        other => panic!("unexpected: {:?}", other),
    }
}

#[test]
fn file_failures_are_transient() {
    let file = || String::from("f");
    let why = || String::from("w");
    assert!(CacheError::FileCreate { file: file(), why: why() }.is_transient());
    assert!(CacheError::FileOpen { file: file(), why: why() }.is_transient());
    assert!(CacheError::FileRead { file: file(), why: why() }.is_transient());
    assert!(CacheError::FileWrite { file: file(), why: why() }.is_transient());
    assert!(CacheError::FileRemove { file: file(), why: why() }.is_transient());
    assert!(CacheError::FileRename { file: file(), why: why() }.is_transient());
    assert!(CacheError::CacheDirRead { dir: file(), why: why() }.is_transient());
}

#[test]
fn other_failures_are_not_transient() {
    assert!(!CacheError::FileSizeExceeded.is_transient());
    assert!(!CacheError::Decompression.is_transient());
    assert!(!CacheError::Compression { why: String::from("w") }.is_transient());
    assert!(!CacheError::NotFound { id: id(1) }.is_transient());
    assert!(!CacheError::NotReady { id: id(1) }.is_transient());
    assert!(!CacheError::InvalidId { value: String::from("v") }.is_transient());
    assert!(!CacheError::Multiple(Vec::new()).is_transient());
    assert!(
        !CacheError::DuplicateIndexInvariantViolation { id: id(1), hashes: Vec::new() }
            .is_transient()
    );
}
