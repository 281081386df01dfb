use ehce::mod_index::{build_mod_entries, ModsAssetReader};

fn listing(sources: &[&[&str]]) -> Vec<Vec<String>> {
    sources.iter().map(|s| s.iter().map(|n| n.to_string()).collect()).collect()
}

#[test]
fn index_lists_all_mods_in_order() {
    let entries = build_mod_entries(&listing(&[&["core", "extra"], &["user"]])).unwrap();
    let flat: Vec<(String, usize)> = entries.into_iter().map(|e| (e.name, e.system)).collect();
    assert_eq!(
        flat,
        vec![("core".to_string(), 0), ("extra".to_string(), 0), ("user".to_string(), 1)]
    );
}

#[test]
fn duplicate_mod_is_refused() {
    let err = build_mod_entries(&listing(&[&["core"], &["a", "core", "a"]])).unwrap_err();
    assert_eq!(err.name, "core");
    assert_eq!(err.first_system, 0);
    assert_eq!(err.second_system, 1);
    let err = build_mod_entries(&listing(&[&["x", "x"]])).unwrap_err();
    assert_eq!((err.name.as_str(), err.first_system, err.second_system), ("x", 0, 0));
}

#[test]
fn reader_caches_until_refresh() {
    let mut reader: ModsAssetReader<&str> = ModsAssetReader::new();
    assert_eq!(reader.cached_mod_names(), None);
    assert!(reader.get_mod(&"core".to_string()).is_none());
    reader.add_source("embedded");
    reader.add_source("filesystem");
    assert_eq!(reader.systems(), &vec!["embedded", "filesystem"]);
    reader.update_mods(&listing(&[&["core"], &["user", "extra"]])).unwrap();
    assert_eq!(
        reader.cached_mod_names(),
        Some(vec!["core".to_string(), "user".to_string(), "extra".to_string()])
    );
    assert_eq!(reader.get_mod(&"extra".to_string()).unwrap().unwrap(), 1);
    assert_eq!(reader.get_mod(&"core".to_string()).unwrap().unwrap(), 0);
    let missing = reader.get_mod(&"nope".to_string()).unwrap().unwrap_err();
    assert_eq!(missing.name, "nope");
    reader.refresh_mods();
    assert_eq!(reader.cached_mod_names(), None);
    assert!(reader.get_mod(&"core".to_string()).is_none());
}

#[test]
fn reader_keeps_old_index_on_duplicate() {
    let mut reader: ModsAssetReader<u8> = ModsAssetReader::new();
    reader.add_source(1);
    reader.add_source(2);
    reader.update_mods(&listing(&[&["a"], &["b"]])).unwrap();
    let err = reader.update_mods(&listing(&[&["a"], &["a"]])).unwrap_err();
    assert_eq!(err.name, "a");
    assert_eq!(reader.cached_mod_names(), Some(vec!["a".to_string(), "b".to_string()]));
    reader.add_source(3);
    assert_eq!(reader.cached_mod_names(), None);
}

#[test]
fn refresh_then_relist_gives_current_mods() {
    let mut reader: ModsAssetReader<u8> = ModsAssetReader::new();
    reader.add_source(1);
    reader.add_source(2);
    reader.update_mods(&listing(&[&["a"], &["b"]])).unwrap();
    let first = reader.cached_mod_names();
    // without a refresh the cached names stay
    assert_eq!(reader.cached_mod_names(), first);
    reader.refresh_mods();
    assert_eq!(reader.cached_mod_names(), None);
    reader.update_mods(&listing(&[&["a", "c"], &["d"]])).unwrap();
    let mut names = reader.cached_mod_names().unwrap();
    names.sort();
    assert_eq!(names, vec!["a".to_string(), "c".to_string(), "d".to_string()]);
}
