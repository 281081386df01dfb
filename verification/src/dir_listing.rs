//! Which entries of a mod directory are listed to the asset server.

use vstd::prelude::*;
use vstd::utf8::{encode_utf8, valid_utf8};
use crate::mod_paths::{file_extension, spec_extension, spec_file_name, ComponentView, PathComponent, PathModel};

verus! {

/// An entry read from a mod directory.
#[derive(Debug)]
pub struct DirEntryModel {
    /// The entry's path below the mod source's root
    pub path: PathModel,
    /// Whether the entry is a directory
    pub is_directory: bool,
}

/// Whether the glob patterns `patterns`, taken as one glob set, match
/// `path`; `None` when some pattern is not a valid glob.
pub uninterp spec fn spec_glob_match(patterns: Seq<Seq<char>>, path: Seq<ComponentView>) -> Option<bool>;

/// Matches `path` against the glob set made of `patterns`
/// (`globset::GlobSet::new` with each pattern through `globset::Glob::new`,
/// then `GlobSet::is_match`). The path is handed to the glob set with its
/// names decoded as UTF-8, invalid bytes replaced. The result is named, not
/// described; what is stated of it is that a set without patterns matches
/// nothing.
#[verifier::external_body]
fn glob_is_match(patterns: &Vec<String>, path: &PathModel) -> (r: Option<bool>)
    ensures
        r == spec_glob_match(patterns.deep_view(), path@),
        patterns@.len() == 0 ==> r == Some(false),
{
    let mut globs = Vec::new();
    for p in patterns {
        globs.push(globset::Glob::new(p).ok()?);
    }
    let set = globset::GlobSet::new(globs).ok()?;
    let mut full = std::path::PathBuf::new();
    for c in &path.components {
        full.push(match c {
            PathComponent::RootDir => "/".into(),
            PathComponent::CurDir => ".".into(),
            PathComponent::ParentDir => "..".into(),
            PathComponent::Prefix(b) | PathComponent::Normal(b) => String::from_utf8_lossy(b).into_owned(),
        });
    }
    Some(set.is_match(&full))
}

/// A path is ignored when the ignore patterns match it, or when they
/// cannot be read as globs.
pub open spec fn spec_ignored(patterns: Seq<Seq<char>>, path: Seq<ComponentView>) -> bool {
    spec_glob_match(patterns, path) != Some(false)
}

/// Why a path may not be read.
#[derive(Debug, Clone, Copy, PartialEq, Eq, Structural)]
pub enum IgnoreError {
    /// The ignore patterns match the path
    Ignored,
    /// Some ignore pattern is not a valid glob
    BadPattern,
}

/// Refuses a path that the ignore patterns match, as not found.
pub fn check_ignore(patterns: &Vec<String>, path: &PathModel) -> (r: Result<(), IgnoreError>)
    ensures
        match spec_glob_match(patterns.deep_view(), path@) {
            Some(false) => r == Ok::<(), IgnoreError>(()),
            Some(true) => r == Err::<(), IgnoreError>(IgnoreError::Ignored),
            None => r == Err::<(), IgnoreError>(IgnoreError::BadPattern),
        },
        r is Err <==> spec_ignored(patterns.deep_view(), path@),
        patterns@.len() == 0 ==> r is Ok,
{
    match glob_is_match(patterns, path) {
        Some(false) => Ok(()),
        Some(true) => Err(IgnoreError::Ignored),
        None => Err(IgnoreError::BadPattern),
    }
}

/// ASCII letters made lower case; other bytes are kept.
pub open spec fn spec_ascii_lower(b: Seq<u8>) -> Seq<u8> {
    b.map_values(|c: u8| if 65u8 <= c <= 90u8 { (c + 32) as u8 } else { c })
}

/// Lower-casing keeps the length, turns each letter `A` to `Z` into the same
/// letter from `a` to `z`, keeps every other byte, and leaves nothing more
/// to lower-case.
pub proof fn law_ascii_lower(b: Seq<u8>)
    ensures
        spec_ascii_lower(b).len() == b.len(),
        forall|i: int|
            0 <= i < b.len() ==> (if 'A' as int <= b[i] as int <= 'Z' as int {
                #[trigger] spec_ascii_lower(b)[i] as int == b[i] as int - 'A' as int + 'a' as int
            } else {
                spec_ascii_lower(b)[i] == b[i]
            }),
        spec_ascii_lower(spec_ascii_lower(b)) == spec_ascii_lower(b),
{
    assert(spec_ascii_lower(spec_ascii_lower(b)) =~= spec_ascii_lower(b));
}


/// The extension of the entry at `path`, if its file name has one.
pub open spec fn spec_entry_extension(path: Seq<ComponentView>) -> Option<Seq<u8>> {
    match spec_file_name(path) {
        Some(name) => spec_extension(name),
        None => None,
    }
}

/// Whether an entry is listed: it is not ignored, and an extension that is
/// valid UTF-8 must be known (compared in lower case), while an entry
/// without an extension must be a directory.
pub open spec fn spec_entry_is_listed(
    path: Seq<ComponentView>,
    is_directory: bool,
    ignored: bool,
    known: Seq<Seq<u8>>,
) -> bool {
    if ignored {
        false
    } else {
        match spec_entry_extension(path) {
            Some(x) => !valid_utf8(x) || known.contains(spec_ascii_lower(x)),
            None => is_directory,
        }
    }
}

/// The known extensions, as UTF-8 bytes.
pub open spec fn spec_known_bytes(known: Seq<String>) -> Seq<Seq<u8>> {
    known.map_values(|s: String| encode_utf8(s@))
}

fn ascii_lowercase(b: &Vec<u8>) -> (r: Vec<u8>)
    ensures
        r@ == spec_ascii_lower(b@),
{
    let mut out: Vec<u8> = Vec::new();
    let mut i: usize = 0;
    while i < b.len()
        invariant
            0 <= i <= b.len(),
            out@ == spec_ascii_lower(b@.take(i as int)),
        decreases b.len() - i,
    {
        let c = b[i];
        let l = if 65u8 <= c && c <= 90u8 { c + 32 } else { c };
        out.push(l);
        i = i + 1;
        assert(out@ =~= spec_ascii_lower(b@.take(i as int)));
    }
    assert(b@.take(b@.len() as int) =~= b@);
    out
}

fn bytes_equal(a: &Vec<u8>, b: &[u8]) -> (r: bool)
    ensures
        r <==> a@ == b@,
{
    if a.len() != b.len() {
        return false;
    }
    let mut i: usize = 0;
    while i < a.len()
        invariant
            a@.len() == b@.len(),
            0 <= i <= a.len(),
            forall|j: int| 0 <= j < i ==> a@[j] == b@[j],
        decreases a.len() - i,
    {
        if a[i] != b[i] {
            return false;
        }
        i = i + 1;
    }
    assert(a@ =~= b@);
    true
}

/// Whether `x` is one of the known extensions.
fn is_known(x: &Vec<u8>, known: &Vec<String>) -> (r: bool)
    ensures
        r <==> spec_known_bytes(known@).contains(x@),
{
    let ghost kb = spec_known_bytes(known@);
    let mut i: usize = 0;
    while i < known.len()
        invariant
            kb == spec_known_bytes(known@),
            0 <= i <= known.len(),
            forall|j: int| 0 <= j < i ==> kb[j] != x@,
        decreases known.len() - i,
    {
        let s: &str = known[i].as_str();
        let bytes = s.as_bytes();
        assert(bytes@ == kb[i as int]);
        if bytes_equal(x, bytes) {
            return true;
        }
        i = i + 1;
    }
    false
}

/// Whether a directory entry is listed to the asset server.
pub fn entry_is_listed(entry: &DirEntryModel, ignore_patterns: &Vec<String>, known_extensions: &Vec<String>) -> (r: bool)
    ensures
        r == spec_entry_is_listed(
            entry.path@,
            entry.is_directory,
            spec_ignored(ignore_patterns.deep_view(), entry.path@),
            spec_known_bytes(known_extensions@),
        ),
{
    if check_ignore(ignore_patterns, &entry.path).is_err() {
        return false;
    }
    let n = entry.path.components.len();
    let ext = if n > 0 {
        match &entry.path.components[n - 1] {
            PathComponent::Normal(name) => file_extension(name),
            _ => None,
        }
    } else {
        None
    };
    match ext {
        Some(x) => {
            match crate::mod_paths::utf8_string(&x) {
                Some(_) => {
                    let lower = ascii_lowercase(&x);
                    is_known(&lower, known_extensions)
                },
                None => true,
            }
        },
        None => entry.is_directory,
    }
}

/// The entries of an embedded directory that are listed, in the order the
/// stream hands them out: last entry first.
pub open spec fn spec_listed_entries(
    entries: Seq<(Seq<ComponentView>, bool)>,
    patterns: Seq<Seq<char>>,
    known: Seq<Seq<u8>>,
) -> Seq<Seq<ComponentView>>
    decreases entries.len(),
{
    if entries.len() == 0 {
        Seq::empty()
    } else {
        let e = entries.last();
        let rest = spec_listed_entries(entries.drop_last(), patterns, known);
        if spec_entry_is_listed(e.0, e.1, spec_ignored(patterns, e.0), known) {
            seq![e.0] + rest
        } else {
            rest
        }
    }
}

/// The abstract value of a list of directory entries.
pub open spec fn spec_dir_entries(entries: Seq<DirEntryModel>) -> Seq<(Seq<ComponentView>, bool)> {
    entries.map_values(|e: DirEntryModel| (e.path@, e.is_directory))
}

/// The paths of the entries of an embedded directory that are listed: the
/// entries are taken from the end, and those not listed are skipped.
pub fn listed_entries(entries: Vec<DirEntryModel>, ignore_patterns: &Vec<String>, known_extensions: &Vec<String>) -> (r: Vec<PathModel>)
    ensures
        r@.map_values(|p: PathModel| p@) == spec_listed_entries(
            spec_dir_entries(entries@),
            ignore_patterns.deep_view(),
            spec_known_bytes(known_extensions@),
        ),
{
    let ghost all = spec_dir_entries(entries@);
    let ghost known = spec_known_bytes(known_extensions@);
    let ghost pats = ignore_patterns.deep_view();
    let mut entries = entries;
    let mut out: Vec<PathModel> = Vec::new();
    proof {
        assert(all.take(entries@.len() as int) =~= all);
        assert(out@.map_values(|p: PathModel| p@) =~= Seq::<Seq<ComponentView>>::empty());
    }
    while entries.len() > 0
        invariant
            known == spec_known_bytes(known_extensions@),
            pats == ignore_patterns.deep_view(),
            entries@.len() <= all.len(),
            spec_dir_entries(entries@) == all.take(entries@.len() as int),
            spec_listed_entries(all, pats, known) == out@.map_values(|p: PathModel| p@) + spec_listed_entries(
                all.take(entries@.len() as int),
                pats,
                known,
            ),
        decreases entries@.len(),
    {
        let ghost before = entries@;
        let entry = entries.pop().unwrap();
        let ghost n = before.len() as int;
        proof {
            assert(spec_dir_entries(entries@) =~= all.take(n - 1));
            assert(all.take(n).drop_last() =~= all.take(n - 1));
            assert(all.take(n).last() == (entry.path@, entry.is_directory));
        }
        if entry_is_listed(&entry, ignore_patterns, known_extensions) {
            let ghost prev = out@.map_values(|p: PathModel| p@);
            out.push(entry.path);
            proof {
                assert(out@.map_values(|p: PathModel| p@) =~= prev.push(entry.path@));
                assert(prev.push(entry.path@) + spec_listed_entries(all.take(n - 1), pats, known)
                    =~= prev + (seq![entry.path@] + spec_listed_entries(all.take(n - 1), pats, known)));
            }
        }
    }
    proof {
        assert(spec_listed_entries(all.take(0), pats, known) =~= Seq::<Seq<ComponentView>>::empty());
        assert(out@.map_values(|p: PathModel| p@) + Seq::<Seq<ComponentView>>::empty()
            =~= out@.map_values(|p: PathModel| p@));
    }
    out
}

} // verus!
