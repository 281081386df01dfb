use ehce::mod_paths::{
    get_meta_path, mod_name_from_path, normalize_with_parent, utf8_file_name, ModPathError,
    NormalizeError, PathComponent, PathModel,
};

fn comp(part: &str) -> PathComponent {
    match part {
        "/" => PathComponent::RootDir,
        "." => PathComponent::CurDir,
        ".." => PathComponent::ParentDir,
        other => PathComponent::Normal(other.as_bytes().to_vec()),
    }
}

fn path(parts: &[&str]) -> PathModel {
    PathModel { components: parts.iter().map(|p| comp(p)).collect() }
}

fn names(p: &PathModel) -> Vec<String> {
    p.components
        .iter()
        .map(|c| match c {
            PathComponent::Prefix(b) => format!("prefix:{}", String::from_utf8_lossy(b)),
            PathComponent::RootDir => "/".to_string(),
            PathComponent::CurDir => ".".to_string(),
            PathComponent::ParentDir => "..".to_string(),
            PathComponent::Normal(b) => String::from_utf8_lossy(b).to_string(),
        })
        .collect()
}

#[test]
fn file_name_of_paths() {
    assert_eq!(utf8_file_name(&path(&["mods", "core", "ship.json5"])).unwrap(), "ship.json5");
    assert_eq!(utf8_file_name(&path(&[])).unwrap_err(), ModPathError::NoFileName);
    assert_eq!(utf8_file_name(&path(&["a", ".."])).unwrap_err(), ModPathError::NoFileName);
    let bad = PathModel { components: vec![PathComponent::Normal(vec![0xff, 0xfe])] };
    assert_eq!(utf8_file_name(&bad).unwrap_err(), ModPathError::FileNameNotUtf8);
}

#[test]
fn mod_names() {
    assert_eq!(mod_name_from_path(&path(&["core", "ships", "a.json"])).unwrap(), "core");
    assert_eq!(mod_name_from_path(&path(&[])).unwrap_err(), ModPathError::NoComponents);
    assert_eq!(mod_name_from_path(&path(&["/", "core"])).unwrap_err(), ModPathError::AbsolutePath);
    assert_eq!(
        mod_name_from_path(&PathModel { components: vec![PathComponent::Prefix(b"C:".to_vec())] })
            .unwrap_err(),
        ModPathError::AbsolutePath
    );
    assert_eq!(mod_name_from_path(&path(&[".", "core"])).unwrap_err(), ModPathError::StartsWithCurDir);
    assert_eq!(
        mod_name_from_path(&path(&["..", "core"])).unwrap_err(),
        ModPathError::StartsWithParentDir
    );
    assert_eq!(mod_name_from_path(&path(&["", "x"])).unwrap_err(), ModPathError::EmptyFirstComponent);
    let bad = PathModel { components: vec![PathComponent::Normal(vec![0xc3])] };
    assert_eq!(mod_name_from_path(&bad).unwrap_err(), ModPathError::FirstComponentNotUtf8);
}

#[test]
fn meta_paths() {
    assert_eq!(names(&get_meta_path(&path(&["core", "image.png"]))), vec!["core", "image.png.meta"]);
    assert_eq!(names(&get_meta_path(&path(&["core", "data"]))), vec!["core", "data.meta"]);
    assert_eq!(names(&get_meta_path(&path(&["a.tar.gz"]))), vec!["a.tar.gz.meta"]);
    assert_eq!(names(&get_meta_path(&path(&[".hidden"]))), vec![".hidden.meta"]);
    assert_eq!(names(&get_meta_path(&path(&["trailing."]))), vec!["trailing.meta"]);
    assert_eq!(names(&get_meta_path(&path(&["a", ".."]))), vec!["a", ".."]);
}

#[test]
fn normalize_resolves_below_root() {
    let root = path(&["/", "srv", "mods"]);
    let r = normalize_with_parent(&root, &path(&["core", ".", "ships", "..", "a.json"])).unwrap();
    assert_eq!(names(&r), vec!["/", "srv", "mods", "core", "a.json"]);
    let r = normalize_with_parent(&root, &path(&[])).unwrap();
    assert_eq!(names(&r), vec!["/", "srv", "mods"]);
}

#[test]
fn normalize_refuses_escapes() {
    let root = path(&["/", "srv"]);
    assert_eq!(
        normalize_with_parent(&root, &path(&["..", "etc"])).unwrap_err(),
        NormalizeError::AboveRoot
    );
    assert_eq!(
        normalize_with_parent(&root, &path(&["a", "..", ".."])).unwrap_err(),
        NormalizeError::AboveRoot
    );
    assert_eq!(
        normalize_with_parent(&root, &path(&["a", "/", "b"])).unwrap_err(),
        NormalizeError::AbsolutePath
    );
}
