use arkiv::error::ArchiveError;
use arkiv::storage::local::LocalStorage;
use arkiv::storage::memory::MemoryStorage;
use arkiv::storage::{plan_save, save_file, split_path, SavePlan, Storage};
use std::path::PathBuf;

fn as_path(segments: Vec<String>) -> PathBuf {
    segments.iter().collect()
}

#[test]
fn test_path_split() {
    assert_eq!(PathBuf::from("12/3"), as_path(split_path("123")));
    assert_eq!(PathBuf::from("12/34/56/78"), as_path(split_path("1234567890")));
}

#[test]
fn split_path_segments() {
    assert_eq!(split_path("1234567890"), vec!["12", "34", "56", "78"]);
    assert_eq!(split_path("123"), vec!["12", "3"]);
    assert_eq!(split_path(""), Vec::<String>::new());
    assert_eq!(split_path("1"), vec!["1"]);
    assert_eq!(split_path("12"), vec!["12"]);
    assert_eq!(split_path("1234567"), vec!["12", "34", "56", "7"]);
    assert_eq!(split_path("12345678"), vec!["12", "34", "56", "78"]);
}

#[test]
fn split_path_counts_characters_not_bytes() {
    assert_eq!(split_path("äöüß€"), vec!["äö", "üß", "€"]);
}

#[test]
fn local_storage_locations() {
    let storage = LocalStorage::new("/data");
    assert_eq!(storage.root(), "/data");
    assert_eq!(
        storage.directory("1234567890.jpg", Some("g")),
        vec!["g", "12", "34", "56", "78"]
    );
    assert_eq!(
        storage.location("1234567890.jpg", Some("g")),
        vec!["g", "12", "34", "56", "78", "1234567890.jpg"]
    );
    assert_eq!(storage.location("123", None), vec!["12", "3", "123"]);
}

#[test]
fn memory_storage_round_trip() {
    let mut storage = MemoryStorage::new();
    assert_eq!(storage.contains("1s.jpg", Some("g")), Ok(false));
    assert_eq!(storage.get("1s.jpg", Some("g")), Err(ArchiveError::NotFound));
    assert_eq!(storage.save("1s.jpg", Some("g"), &[1, 2, 3]), Ok(()));
    assert_eq!(storage.contains("1s.jpg", Some("g")), Ok(true));
    assert_eq!(storage.get("1s.jpg", Some("g")), Ok(vec![1, 2, 3]));
}

#[test]
fn memory_storage_keeps_namespaces_apart() {
    let mut storage = MemoryStorage::new();
    storage.save("k", Some("a"), &[1]).unwrap();
    storage.save("k", Some("b"), &[2]).unwrap();
    storage.save("k", None, &[3]).unwrap();
    assert_eq!(storage.get("k", Some("a")), Ok(vec![1]));
    assert_eq!(storage.get("k", Some("b")), Ok(vec![2]));
    assert_eq!(storage.get("k", None), Ok(vec![3]));
    assert_eq!(storage.contains("k", Some("c")), Ok(false));
}

#[test]
fn memory_storage_overwrites_in_place() {
    let mut storage = MemoryStorage::new();
    storage.save("k", Some("a"), &[1]).unwrap();
    storage.save("j", Some("a"), &[9]).unwrap();
    storage.save("k", Some("a"), &[2, 2]).unwrap();
    assert_eq!(storage.get("k", Some("a")), Ok(vec![2, 2]));
    assert_eq!(storage.get("j", Some("a")), Ok(vec![9]));
}

#[test]
fn plan_save_never_fetches_what_is_there() {
    assert_eq!(plan_save(Ok(true), false), Ok(SavePlan::Present));
    assert_eq!(plan_save(Ok(true), true), Ok(SavePlan::Present));
    assert_eq!(plan_save(Ok(false), false), Ok(SavePlan::Fetch));
    assert_eq!(plan_save(Ok(false), true), Ok(SavePlan::Store));
    assert_eq!(
        plan_save(Err(ArchiveError::Storage), true),
        Err(ArchiveError::Storage)
    );
}

#[test]
fn save_file_saves_only_what_is_absent() {
    let mut storage = MemoryStorage::new();
    assert_eq!(
        save_file(&mut storage, "7.png", Some("g"), None),
        Ok(SavePlan::Fetch)
    );
    assert_eq!(storage.contains("7.png", Some("g")), Ok(false));
    assert_eq!(
        save_file(&mut storage, "7.png", Some("g"), Some(&[7, 7][..])),
        Ok(SavePlan::Store)
    );
    assert_eq!(storage.get("7.png", Some("g")), Ok(vec![7, 7]));
    assert_eq!(
        save_file(&mut storage, "7.png", Some("g"), None),
        Ok(SavePlan::Present)
    );
    assert_eq!(
        save_file(&mut storage, "7.png", Some("g"), Some(&[0][..])),
        Ok(SavePlan::Present)
    );
    assert_eq!(storage.get("7.png", Some("g")), Ok(vec![7, 7]));
}

#[test]
fn bounded_store_fails_when_full() {
    let mut storage = MemoryStorage::bounded(1);
    assert!(!storage.is_full());
    assert_eq!(storage.save("a", Some("g"), &[1]), Ok(()));
    assert!(storage.is_full());
    assert_eq!(storage.save("b", Some("g"), &[2]), Err(ArchiveError::Storage));
    assert_eq!(storage.contains("b", Some("g")), Ok(false));
    assert_eq!(storage.save("a", Some("g"), &[3]), Ok(()));
    assert_eq!(storage.get("a", Some("g")), Ok(vec![3]));
    assert_eq!(
        save_file(&mut storage, "b", Some("g"), Some(&[2][..])),
        Err(ArchiveError::Storage)
    );
    assert_eq!(
        save_file(&mut storage, "b", Some("g"), None),
        Ok(SavePlan::Fetch)
    );
    assert_eq!(
        save_file(&mut storage, "a", Some("g"), Some(&[9][..])),
        Ok(SavePlan::Present)
    );
    assert!(MemoryStorage::bounded(0).is_full());
    assert!(!MemoryStorage::new().is_full());
}
