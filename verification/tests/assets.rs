use ehce::color::color_code;
use ehce::dir_listing::{check_ignore, entry_is_listed, listed_entries, DirEntryModel, IgnoreError};
use ehce::json5_asset::Json5AssetPlugin;
use ehce::mod_paths::{PathComponent, PathModel};
use ehce::parsing::{detect_format, source_text, DataFormat, NotUtf8};
use ehce::textures::{FilterMode, SpriteAsset, TextureCache, TextureMetadata};

fn path(parts: &[&str]) -> PathModel {
    PathModel {
        components: parts.iter().map(|p| PathComponent::Normal(p.as_bytes().to_vec())).collect(),
    }
}

fn entry(parts: &[&str], dir: bool) -> DirEntryModel {
    DirEntryModel { path: path(parts), is_directory: dir }
}

fn no_patterns() -> Vec<String> {
    vec![]
}

fn known() -> Vec<String> {
    vec!["json5".to_string(), "png".to_string(), "meta".to_string()]
}

#[test]
fn format_detection() {
    assert_eq!(detect_format(b"{ a: 1 }"), DataFormat::Json5);
    assert_eq!(detect_format(b"[section]"), DataFormat::Toml);
    assert_eq!(detect_format(b"key: value"), DataFormat::Yaml);
    assert_eq!(detect_format(b""), DataFormat::Yaml);
    assert_eq!(detect_format(b" {"), DataFormat::Yaml);
}

#[test]
fn text_decoding() {
    assert_eq!(source_text("héllo".as_bytes()), Ok("héllo"));
    assert_eq!(source_text(&[0x68, 0xff]), Err(NotUtf8));
}

#[test]
fn json5_plugin_extensions() {
    let plugin = Json5AssetPlugin::<u8>::new(&["json", "json5"]);
    let loader = plugin.loader();
    assert_eq!(loader.extensions(), &["json", "json5"]);
}

#[test]
fn dir_entries_filtered() {
    let k = known();
    let none = no_patterns();
    let drafts = vec!["**/draft_*".to_string()];
    assert!(entry_is_listed(&entry(&["core", "ship.json5"], false), &none, &k));
    assert!(entry_is_listed(&entry(&["core", "IMAGE.PNG"], false), &none, &k));
    assert!(!entry_is_listed(&entry(&["core", "notes.txt"], false), &none, &k));
    assert!(!entry_is_listed(&entry(&["core", "draft_ship.json5"], false), &drafts, &k));
    assert!(entry_is_listed(&entry(&["core", "ship.json5"], false), &drafts, &k));
    assert!(entry_is_listed(&entry(&["core", "ships"], true), &none, &k));
    assert!(!entry_is_listed(&entry(&["core", "README"], false), &none, &k));
    assert!(!entry_is_listed(&entry(&["core", "dir.d"], true), &none, &k));
    let odd = DirEntryModel {
        path: PathModel { components: vec![PathComponent::Normal(vec![b'a', b'.', 0xff])] },
        is_directory: false,
    };
    assert!(entry_is_listed(&odd, &none, &k));
}

#[test]
fn embedded_listing_from_the_end() {
    let entries = vec![
        entry(&["a.png"], false),
        entry(&["b.txt"], false),
        entry(&["sub"], true),
        entry(&["c.meta"], false),
        entry(&["d.json5"], false),
    ];
    let listed = listed_entries(entries, &vec!["c.*".to_string()], &known());
    let names: Vec<Vec<u8>> = listed
        .iter()
        .map(|p| match &p.components[0] {
            PathComponent::Normal(b) => b.clone(),
            _ => vec![],
        })
        .collect();
    assert_eq!(names, vec![b"d.json5".to_vec(), b"sub".to_vec(), b"a.png".to_vec()]);
}

#[test]
fn texture_settings() {
    assert_eq!(FilterMode::default(), FilterMode::Linear);
    assert_eq!(TextureMetadata::default(), TextureMetadata { filter_mode: FilterMode::Linear });
    assert!(FilterMode::Linear < FilterMode::Nearest);
    let sprite = SpriteAsset::from_id("core:ship");
    assert_eq!(sprite.id(), "core:ship");
}

#[test]
fn texture_cache_add_and_replace() {
    let mut cache: TextureCache<u32, u64> = TextureCache::new();
    assert!(cache.bytes("a").is_none());
    cache.add_texture("a".to_string(), vec![1, 2, 3]);
    assert_eq!(cache.bytes("a"), Some(&vec![1, 2, 3]));
    assert!(cache.take_macroquad_meta_dirty("a"));
    assert!(!cache.take_macroquad_meta_dirty("a"));
    cache.set_macroquad("a", 7);
    cache.set_yakui("a", 9);
    // same bytes: handles are kept
    cache.add_texture("a".to_string(), vec![1, 2, 3]);
    assert_eq!(cache.macroquad("a"), Some(&7));
    assert_eq!(cache.yakui("a"), Some(&9));
    // other bytes: a fresh image
    cache.add_texture("a".to_string(), vec![4]);
    assert_eq!(cache.bytes("a"), Some(&vec![4]));
    assert_eq!(cache.macroquad("a"), None);
    assert_eq!(cache.yakui("a"), None);
    assert!(cache.take_macroquad_meta_dirty("a"));
}

#[test]
fn texture_cache_metadata_dirty() {
    let mut cache: TextureCache<u32, u64> = TextureCache::new();
    cache.add_texture("a".to_string(), vec![1]);
    cache.add_texture("b".to_string(), vec![2]);
    cache.take_macroquad_meta_dirty("a");
    cache.set_macroquad("a", 1);
    cache.set_yakui("a", 2);
    cache.mark_metadata_dirty("a");
    assert_eq!(cache.macroquad("a"), Some(&1));
    assert_eq!(cache.yakui("a"), None);
    assert!(cache.take_macroquad_meta_dirty("a"));
    cache.mark_metadata_dirty("missing");
    assert!(cache.bytes("missing").is_none());
    assert_eq!(cache.bytes("b"), Some(&vec![2]));
}

#[test]
fn color_codes() {
    assert_eq!(color_code([255, 0, 16, 255], true), "#ff0010");
    assert_eq!(color_code([1, 171, 205, 128], false), "RGBA#01abcd80");
    assert_eq!(color_code([0, 0, 0, 0], true), "#000000");
}

#[test]
fn ignore_patterns() {
    assert_eq!(check_ignore(&no_patterns(), &path(&["core", "a.json5"])), Ok(()));
    let pats = vec!["*.txt".to_string()];
    assert_eq!(check_ignore(&pats, &path(&["core", "a.txt"])), Err(IgnoreError::Ignored));
    assert_eq!(check_ignore(&pats, &path(&["core", "a.json5"])), Ok(()));
    let bad = vec!["a[".to_string()];
    assert_eq!(check_ignore(&bad, &path(&["core", "a.json5"])), Err(IgnoreError::BadPattern));
}
