use embedded_assets::service::LookupService;
use embedded_assets::table::{ResourceEntry, ResourceTable};

fn sample_service() -> LookupService {
    let entries = vec![
        ResourceEntry::new("public/hello.txt".to_string(), b"hi".to_vec()),
        ResourceEntry::new("public/empty.bin".to_string(), Vec::new()),
    ];
    LookupService::new("public/".to_string(), ResourceTable::new(entries))
}

#[test]
fn hit_returns_original_bytes() {
    let service = sample_service();
    assert_eq!(service.lookup("hello.txt"), Some(b"hi".to_vec()));
}

#[test]
fn empty_resource_is_present_not_absent() {
    let service = sample_service();
    let found = service.lookup("empty.bin");
    assert_eq!(found, Some(Vec::new()));
    assert!(found.is_some());
}

#[test]
fn missing_name_is_absent() {
    let service = sample_service();
    assert_eq!(service.lookup("missing.txt"), None);
}

#[test]
fn empty_name_is_absent_without_prefix_entry() {
    let service = sample_service();
    assert_eq!(service.lookup(""), None);
}

#[test]
fn empty_name_hits_entry_equal_to_prefix() {
    let entries = vec![ResourceEntry::new("public/".to_string(), b"root".to_vec())];
    let service = LookupService::new("public/".to_string(), ResourceTable::new(entries));
    assert_eq!(service.lookup(""), Some(b"root".to_vec()));
}

#[test]
fn returned_buffers_are_independent() {
    let service = sample_service();
    let mut first = service.lookup("hello.txt").unwrap();
    let second = service.lookup("hello.txt").unwrap();
    assert_eq!(first, second);
    first[0] = b'X';
    let third = service.lookup("hello.txt").unwrap();
    assert_eq!(third, b"hi".to_vec());
    assert_ne!(first, third);
}

#[test]
fn name_containing_the_prefix_is_absent() {
    let service = sample_service();
    assert_eq!(service.lookup("public/hello.txt"), None);
}

#[test]
fn traversal_name_is_absent() {
    let service = sample_service();
    assert_eq!(service.lookup("../hello.txt"), None);
    assert_eq!(service.lookup("../public/hello.txt"), None);
}

#[test]
fn repeated_interleaved_lookups_agree() {
    let service = sample_service();
    let hello = service.lookup("hello.txt");
    let empty = service.lookup("empty.bin");
    let missing = service.lookup("missing.txt");
    for _ in 0..3 {
        assert_eq!(service.lookup("missing.txt"), missing);
        assert_eq!(service.lookup("hello.txt"), hello);
        assert_eq!(service.lookup("empty.bin"), empty);
        assert_eq!(service.lookup("hello.txt"), hello);
    }
}

#[test]
fn unprefixed_table_key_is_unreachable() {
    let entries = vec![
        ResourceEntry::new("hello.txt".to_string(), b"raw".to_vec()),
        ResourceEntry::new("public/hello.txt".to_string(), b"hi".to_vec()),
    ];
    let service = LookupService::new("public/".to_string(), ResourceTable::new(entries));
    assert_eq!(service.lookup("hello.txt"), Some(b"hi".to_vec()));

    let only_raw = vec![ResourceEntry::new("hello.txt".to_string(), b"raw".to_vec())];
    let service = LookupService::new("public/".to_string(), ResourceTable::new(only_raw));
    assert_eq!(service.lookup("hello.txt"), None);
}

#[test]
fn concatenation_uses_no_separator() {
    let entries = vec![ResourceEntry::new("public/hello.txt".to_string(), b"hi".to_vec())];
    let service = LookupService::new("public".to_string(), ResourceTable::new(entries));
    assert_eq!(service.lookup("/hello.txt"), Some(b"hi".to_vec()));
    assert_eq!(service.lookup("hello.txt"), None);
}

#[test]
fn ambiguous_prefix_merge_collides() {
    let entries = vec![ResourceEntry::new("public/hello.txt".to_string(), b"hi".to_vec())];
    let service = LookupService::new("pub".to_string(), ResourceTable::new(entries));
    assert_eq!(service.lookup("lic/hello.txt"), Some(b"hi".to_vec()));
}

#[test]
fn empty_prefix_probes_raw_keys() {
    let entries = vec![ResourceEntry::new("hello.txt".to_string(), b"raw".to_vec())];
    let service = LookupService::new(String::new(), ResourceTable::new(entries));
    assert_eq!(service.lookup("hello.txt"), Some(b"raw".to_vec()));
}

#[test]
fn empty_table_always_misses() {
    let service = LookupService::new("public/".to_string(), ResourceTable::new(Vec::new()));
    assert_eq!(service.lookup("hello.txt"), None);
    assert_eq!(service.lookup(""), None);
}

#[test]
fn non_ascii_name_round_trips() {
    let entries = vec![ResourceEntry::new("public/héllo-ß-文.txt".to_string(), b"bytes".to_vec())];
    let service = LookupService::new("public/".to_string(), ResourceTable::new(entries));
    assert_eq!(service.lookup("héllo-ß-文.txt"), Some(b"bytes".to_vec()));
    assert_eq!(service.lookup("hello-ss-文.txt"), None);
}
