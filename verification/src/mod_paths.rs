//! Paths of mod assets, held as their components, and the rules that map
//! them to mods, file names, metadata files and locations on disk.

use vstd::prelude::*;
use vstd::utf8::{decode_utf8, valid_utf8};

verus! {

/// One component of a path, as the standard library splits paths. Names
/// are held as the raw bytes of the operating system's string.
#[derive(Debug)]
pub enum PathComponent {
    /// A Windows path prefix, such as `C:`
    Prefix(Vec<u8>),
    /// The root directory
    RootDir,
    /// A `.` at the start of a relative path
    CurDir,
    /// A `..`
    ParentDir,
    /// A plain name
    Normal(Vec<u8>),
}

/// The abstract value of a path component.
pub enum ComponentView {
    Prefix(Seq<u8>),
    RootDir,
    CurDir,
    ParentDir,
    Normal(Seq<u8>),
}

impl View for PathComponent {
    type V = ComponentView;

    open spec fn view(&self) -> ComponentView {
        match self {
            PathComponent::Prefix(b) => ComponentView::Prefix(b@),
            PathComponent::RootDir => ComponentView::RootDir,
            PathComponent::CurDir => ComponentView::CurDir,
            PathComponent::ParentDir => ComponentView::ParentDir,
            PathComponent::Normal(b) => ComponentView::Normal(b@),
        }
    }
}

/// A path, as the sequence of its components.
#[derive(Debug)]
pub struct PathModel {
    pub components: Vec<PathComponent>,
}

impl View for PathModel {
    type V = Seq<ComponentView>;

    open spec fn view(&self) -> Seq<ComponentView> {
        self.components@.map_values(|c: PathComponent| c@)
    }
}

/// Why a path could not name a mod or a file.
#[derive(Debug, Clone, Copy, PartialEq, Eq, Structural)]
pub enum ModPathError {
    /// The path has no components
    NoComponents,
    /// The path is absolute
    AbsolutePath,
    /// The path starts with `.`
    StartsWithCurDir,
    /// The path starts with `..`
    StartsWithParentDir,
    /// The first component is empty
    EmptyFirstComponent,
    /// The first component is not valid UTF-8
    FirstComponentNotUtf8,
    /// The path has no file name
    NoFileName,
    /// The file name is not valid UTF-8
    FileNameNotUtf8,
}

/// Why a path could not be resolved below a root.
#[derive(Debug, Clone, Copy, PartialEq, Eq, Structural)]
pub enum NormalizeError {
    /// The path is absolute
    AbsolutePath,
    /// The path climbs above the root
    AboveRoot,
}

/// Decodes UTF-8 bytes (`core::str::from_utf8`).
#[verifier::external_body]
pub(crate) fn str_from_utf8(bytes: &[u8]) -> (r: Option<&str>)
    ensures
        r is Some <==> valid_utf8(bytes@),
        r matches Some(s) ==> s@ == decode_utf8(bytes@),
{
    core::str::from_utf8(bytes).ok()
}

/// Decodes UTF-8 bytes into a string, when they are valid UTF-8.
pub fn utf8_string(bytes: &Vec<u8>) -> (r: Option<String>)
    ensures
        r is Some <==> valid_utf8(bytes@),
        r matches Some(s) ==> s@ == decode_utf8(bytes@),
{
    match str_from_utf8(bytes.as_slice()) {
        Some(s) => Some(s.to_owned()),
        None => None,
    }
}

fn copy_bytes(v: &Vec<u8>) -> (r: Vec<u8>)
    ensures
        r@ == v@,
{
    let mut r: Vec<u8> = Vec::new();
    let mut i: usize = 0;
    while i < v.len()
        invariant
            i <= v.len(),
            r@ == v@.subrange(0, i as int),
        decreases v.len() - i,
    {
        r.push(v[i]);
        i = i + 1;
        assert(r@ =~= v@.subrange(0, i as int));
    }
    assert(r@ =~= v@);
    r
}

impl Clone for PathComponent {
    fn clone(&self) -> (r: Self)
        ensures
            r@ == self@,
    {
        match self {
            PathComponent::Prefix(b) => PathComponent::Prefix(copy_bytes(b)),
            PathComponent::RootDir => PathComponent::RootDir,
            PathComponent::CurDir => PathComponent::CurDir,
            PathComponent::ParentDir => PathComponent::ParentDir,
            PathComponent::Normal(b) => PathComponent::Normal(copy_bytes(b)),
        }
    }
}

fn clone_components(v: &Vec<PathComponent>) -> (r: Vec<PathComponent>)
    ensures
        r@.map_values(|c: PathComponent| c@) == v@.map_values(|c: PathComponent| c@),
{
    let mut r: Vec<PathComponent> = Vec::new();
    let mut i: usize = 0;
    while i < v.len()
        invariant
            i <= v.len(),
            r.len() == i,
            forall|j: int| 0 <= j < i ==> (#[trigger] r@[j])@ == v@[j]@,
        decreases v.len() - i,
    {
        r.push(v[i].clone());
        i = i + 1;
    }
    assert(r@.map_values(|c: PathComponent| c@) =~= v@.map_values(|c: PathComponent| c@));
    r
}

/// The file name of a path: its last component, when that is a plain name.
pub open spec fn spec_file_name(path: Seq<ComponentView>) -> Option<Seq<u8>> {
    if path.len() > 0 {
        match path.last() {
            ComponentView::Normal(name) => Some(name),
            _ => None,
        }
    } else {
        None
    }
}

/// The file name of `path` as UTF-8 text; it is refused when the path
/// has no file name or the name is not valid UTF-8.
pub fn utf8_file_name(path: &PathModel) -> (r: Result<String, ModPathError>)
    ensures
        match spec_file_name(path@) {
            None => r == Err::<String, ModPathError>(ModPathError::NoFileName),
            Some(name) => if valid_utf8(name) {
                r matches Ok(s) && s@ == decode_utf8(name)
            } else {
                r == Err::<String, ModPathError>(ModPathError::FileNameNotUtf8)
            },
        },
{
    let n = path.components.len();
    if n == 0 {
        return Err(ModPathError::NoFileName);
    }
    match &path.components[n - 1] {
        PathComponent::Normal(name) => match utf8_string(name) {
            Some(s) => Ok(s),
            None => Err(ModPathError::FileNameNotUtf8),
        },
        _ => Err(ModPathError::NoFileName),
    }
}

/// The mod a path belongs to: the name of its first component, which must
/// be a plain, non-empty, UTF-8 name.
pub open spec fn spec_mod_name(path: Seq<ComponentView>) -> Result<Seq<char>, ModPathError> {
    if path.len() == 0 {
        Err(ModPathError::NoComponents)
    } else {
        match path[0] {
            ComponentView::Prefix(_) | ComponentView::RootDir => Err(ModPathError::AbsolutePath),
            ComponentView::CurDir => Err(ModPathError::StartsWithCurDir),
            ComponentView::ParentDir => Err(ModPathError::StartsWithParentDir),
            ComponentView::Normal(name) => if name.len() == 0 {
                Err(ModPathError::EmptyFirstComponent)
            } else if !valid_utf8(name) {
                Err(ModPathError::FirstComponentNotUtf8)
            } else {
                Ok(decode_utf8(name))
            },
        }
    }
}

/// The name of the mod that `path` belongs to: its first component.
pub fn mod_name_from_path(path: &PathModel) -> (r: Result<String, ModPathError>)
    ensures
        match spec_mod_name(path@) {
            Ok(name) => r matches Ok(s) && s@ == name,
            Err(e) => r == Err::<String, ModPathError>(e),
        },
{
    if path.components.len() == 0 {
        return Err(ModPathError::NoComponents);
    }
    match &path.components[0] {
        PathComponent::Prefix(_) | PathComponent::RootDir => Err(ModPathError::AbsolutePath),
        PathComponent::CurDir => Err(ModPathError::StartsWithCurDir),
        PathComponent::ParentDir => Err(ModPathError::StartsWithParentDir),
        PathComponent::Normal(name) => {
            if name.len() == 0 {
                return Err(ModPathError::EmptyFirstComponent);
            }
            match utf8_string(name) {
                Some(s) => Ok(s),
                None => Err(ModPathError::FirstComponentNotUtf8),
            }
        },
    }
}

} // verus!

verus! {

/// The index of the last `.` in a name, or -1 when it has none.
pub open spec fn spec_last_dot(name: Seq<u8>) -> int
    decreases name.len(),
{
    if name.len() == 0 {
        -1
    } else if name.last() == 46u8 {
        name.len() - 1
    } else {
        spec_last_dot(name.drop_last())
    }
}

/// A file name split at its last dot into the part before and the part
/// after it, as the standard library splits it: `..` and names whose only
/// dot leads them are not split.
pub open spec fn spec_split_at_dot(name: Seq<u8>) -> (Option<Seq<u8>>, Option<Seq<u8>>) {
    let k = spec_last_dot(name);
    if name == seq![46u8, 46u8] {
        (Some(name), None)
    } else if k < 0 {
        (None, Some(name))
    } else if k == 0 {
        (Some(name), None)
    } else {
        (Some(name.subrange(0, k)), Some(name.subrange(k + 1, name.len() as int)))
    }
}

/// The stem of a file name: the part before its last dot, or the whole name.
pub open spec fn spec_file_stem(name: Seq<u8>) -> Seq<u8> {
    let (before, after) = spec_split_at_dot(name);
    match before {
        Some(b) => b,
        None => after.unwrap(),
    }
}

/// The extension of a file name: the part after its last dot, if it has one.
pub open spec fn spec_extension(name: Seq<u8>) -> Option<Seq<u8>> {
    let (before, after) = spec_split_at_dot(name);
    match before {
        Some(_) => after,
        None => None,
    }
}

/// The name of the metadata file of `name`: its extension, if it has a
/// non-empty one, gains the suffix `.meta`, and otherwise becomes `meta`.
pub open spec fn spec_meta_name(name: Seq<u8>) -> Seq<u8> {
    let ext = match spec_extension(name) {
        Some(x) => if x.len() > 0 { x + seq![46u8] } else { Seq::empty() },
        None => Seq::empty(),
    };
    spec_file_stem(name) + seq![46u8] + ext + seq![109u8, 101u8, 116u8, 97u8]
}

/// The path of the metadata file of `path`: the file name is replaced by
/// its metadata name; a path without a file name is returned as it is.
pub open spec fn spec_meta_path(path: Seq<ComponentView>) -> Seq<ComponentView> {
    match spec_file_name(path) {
        Some(name) => path.drop_last().push(ComponentView::Normal(spec_meta_name(name))),
        None => path,
    }
}

/// The last dot index, when there is one, points at a dot inside the name.
proof fn lemma_last_dot(name: Seq<u8>)
    ensures
        -1 <= spec_last_dot(name) < name.len(),
        spec_last_dot(name) >= 0 ==> name[spec_last_dot(name)] == 46u8,
    decreases name.len(),
{
    if name.len() > 0 && name.last() != 46u8 {
        lemma_last_dot(name.drop_last());
    }
}

/// The last dot is the last one: when a name has no dot it is -1, and
/// otherwise it is the place of a dot after which no dot follows.
pub proof fn law_last_dot_is_last(name: Seq<u8>)
    ensures
        spec_last_dot(name) == -1 <==> (forall|j: int| 0 <= j < name.len() ==> name[j] != 46u8),
        spec_last_dot(name) != -1 ==> {
            &&& 0 <= spec_last_dot(name) < name.len()
            &&& name[spec_last_dot(name)] == 46u8
            &&& forall|j: int| spec_last_dot(name) < j < name.len() ==> name[j] != 46u8
        },
    decreases name.len(),
{
    if name.len() > 0 {
        law_last_dot_is_last(name.drop_last());
        if name.last() != 46u8 {
            assert forall|j: int| 0 <= j < name.len() - 1 implies name.drop_last()[j] == name[j] by {}
        }
    }
}

/// The extension of a name, when it has one, holds no dot: it is the end of
/// the name after a dot, and the name has no dot after it.
pub proof fn law_extension_after_last_dot(name: Seq<u8>)
    ensures
        spec_extension(name) matches Some(x) ==> {
            &&& !x.contains(46u8)
            &&& x.len() < name.len()
            &&& name[name.len() - x.len() - 1] == 46u8
            &&& name.subrange(name.len() - x.len(), name.len() as int) == x
        },
{
    law_last_dot_is_last(name);
    if let Some(x) = spec_extension(name) {
        let k = spec_last_dot(name);
        assert(x == name.subrange(k + 1, name.len() as int));
        assert forall|j: int| 0 <= j < x.len() implies x[j] != 46u8 by {
            assert(x[j] == name[k + 1 + j]);
        }
    }
}

/// A name with an extension is its stem, a dot and the extension; a name
/// without one is its own stem. The metadata name of a name ends in `.meta`
/// and starts with the stem and a dot.
pub proof fn law_stem_and_extension(name: Seq<u8>)
    ensures
        spec_extension(name) matches Some(x) ==> name == spec_file_stem(name) + seq![46u8] + x,
        spec_extension(name) is None ==> spec_file_stem(name) == name,
        spec_meta_name(name).len() >= spec_file_stem(name).len() + 5,
        spec_meta_name(name).subrange(0, spec_file_stem(name).len() + 1int) == spec_file_stem(name)
            + seq![46u8],
        spec_meta_name(name).subrange(spec_meta_name(name).len() - 5, spec_meta_name(name).len() as int)
            == seq![46u8, 109u8, 101u8, 116u8, 97u8],
{
    lemma_last_dot(name);
    let k = spec_last_dot(name);
    if let Some(x) = spec_extension(name) {
        assert(name =~= name.subrange(0, k) + seq![46u8] + name.subrange(k + 1, name.len() as int));
    }
    let stem = spec_file_stem(name);
    let ext = match spec_extension(name) {
        Some(x) => if x.len() > 0 { x + seq![46u8] } else { Seq::<u8>::empty() },
        None => Seq::<u8>::empty(),
    };
    let m = spec_meta_name(name);
    assert(m == stem + seq![46u8] + ext + seq![109u8, 101u8, 116u8, 97u8]);
    assert(m.subrange(0, stem.len() + 1int) =~= stem + seq![46u8]);
    if ext.len() > 0 {
        assert(ext[ext.len() - 1] == 46u8);
        assert(m.subrange(m.len() - 5, m.len() as int) =~= seq![46u8, 109u8, 101u8, 116u8, 97u8]);
    } else {
        assert(m.subrange(m.len() - 5, m.len() as int) =~= seq![46u8, 109u8, 101u8, 116u8, 97u8]);
    }
}

fn last_dot(name: &Vec<u8>) -> (r: Option<usize>)
    ensures
        match r {
            Some(k) => k as int == spec_last_dot(name@),
            None => spec_last_dot(name@) == -1,
        },
{
    let mut i: usize = name.len();
    assert(name@.subrange(0, i as int) =~= name@);
    while i > 0
        invariant
            i <= name.len(),
            spec_last_dot(name@) == spec_last_dot(name@.subrange(0, i as int)),
        decreases i,
    {
        if name[i - 1] == 46u8 {
            assert(name@.subrange(0, i as int).last() == 46u8);
            return Some(i - 1);
        }
        assert(name@.subrange(0, i as int).drop_last() =~= name@.subrange(0, i - 1));
        i = i - 1;
    }
    None
}

fn push_bytes(dst: &mut Vec<u8>, src: &Vec<u8>, from: usize, to: usize)
    requires
        from <= to <= src.len(),
    ensures
        final(dst)@ == old(dst)@ + src@.subrange(from as int, to as int),
{
    let mut i = from;
    while i < to
        invariant
            from <= i <= to <= src.len(),
            dst@ == old(dst)@ + src@.subrange(from as int, i as int),
        decreases to - i,
    {
        dst.push(src[i]);
        i = i + 1;
        assert(dst@ =~= old(dst)@ + src@.subrange(from as int, i as int));
    }
}

/// The extension of a file name: the bytes after its last dot, when the
/// name has one that neither leads it nor is part of `..`.
pub fn file_extension(name: &Vec<u8>) -> (r: Option<Vec<u8>>)
    ensures
        match r {
            Some(x) => spec_extension(name@) == Some(x@),
            None => spec_extension(name@) is None,
        },
{
    let n = name.len();
    let is_parent = n == 2 && name[0] == 46u8 && name[1] == 46u8;
    proof {
        lemma_last_dot(name@);
        if is_parent {
            assert(name@ =~= seq![46u8, 46u8]);
        }
        if name@ == seq![46u8, 46u8] {
            assert(is_parent);
        }
    }
    match last_dot(name) {
        Some(k) if !is_parent && k > 0 => {
            let mut out: Vec<u8> = Vec::new();
            push_bytes(&mut out, name, k + 1, n);
            assert(out@ =~= name@.subrange(k + 1, n as int));
            Some(out)
        },
        _ => None,
    }
}

fn meta_name(name: &Vec<u8>) -> (r: Vec<u8>)
    ensures
        r@ == spec_meta_name(name@),
{
    let n = name.len();
    let mut out: Vec<u8> = Vec::new();
    let is_parent = n == 2 && name[0] == 46u8 && name[1] == 46u8;
    let dot = last_dot(name);
    proof {
        lemma_last_dot(name@);
        if is_parent {
            assert(name@ =~= seq![46u8, 46u8]);
        }
        if name@ == seq![46u8, 46u8] {
            assert(is_parent);
        }
    }
    match dot {
        Some(k) if !is_parent && k > 0 => {
            if k + 1 < n {
                push_bytes(&mut out, name, 0, n);
                out.push(46u8);
                assert(name@.subrange(0, k as int) + seq![46u8] + name@.subrange(k + 1, n as int)
                    =~= name@) by {
                    assert(name@[k as int] == 46u8);
                }
            } else {
                push_bytes(&mut out, name, 0, k);
                out.push(46u8);
            }
        },
        _ => {
            push_bytes(&mut out, name, 0, n);
            out.push(46u8);
        },
    }
    out.push(109u8);
    out.push(101u8);
    out.push(116u8);
    out.push(97u8);
    assert(out@ =~= spec_meta_name(name@));
    out
}

/// The path of the metadata file that goes with `path` (`image.png` gives
/// `image.png.meta`, `data` gives `data.meta`). A path without a file name
/// is returned unchanged. The extension must not hold a path separator.
pub fn get_meta_path(path: &PathModel) -> (r: PathModel)
    requires
        spec_file_name(path@) matches Some(name) ==> (spec_extension(name) matches Some(x)
            ==> !x.contains(47u8)),
    ensures
        r@ == spec_meta_path(path@),
{
    let n = path.components.len();
    let mut components = clone_components(&path.components);
    if n > 0 {
        if let PathComponent::Normal(name) = &path.components[n - 1] {
            let new_name = meta_name(name);
            components.pop();
            components.push(PathComponent::Normal(new_name));
            let r = PathModel { components };
            assert(r@.drop_last() =~= path@.drop_last());
            assert(r@ =~= spec_meta_path(path@));
            return r;
        }
    }
    PathModel { components }
}

/// One step of resolving a relative path: plain names are appended, `.` is
/// skipped, `..` drops the last name, and roots or prefixes are refused.
pub open spec fn spec_resolve_step(
    acc: Result<Seq<ComponentView>, NormalizeError>,
    c: ComponentView,
) -> Result<Seq<ComponentView>, NormalizeError> {
    match acc {
        Err(e) => Err(e),
        Ok(l) => match c {
            ComponentView::RootDir | ComponentView::Prefix(_) => Err(NormalizeError::AbsolutePath),
            ComponentView::ParentDir => if l.len() == 0 {
                Err(NormalizeError::AboveRoot)
            } else {
                Ok(l.drop_last())
            },
            ComponentView::Normal(_) => Ok(l.push(c)),
            ComponentView::CurDir => Ok(l),
        },
    }
}

/// The components of `child` resolved lexically, from the first to the last.
pub open spec fn spec_resolve(child: Seq<ComponentView>) -> Result<Seq<ComponentView>, NormalizeError>
    decreases child.len(),
{
    if child.len() == 0 {
        Ok(Seq::empty())
    } else {
        spec_resolve_step(spec_resolve(child.drop_last()), child.last())
    }
}

/// `child` resolved lexically below `root`: `.` is skipped, `..` drops the
/// previous name and may not climb above `root`, and absolute paths are refused.
pub fn normalize_with_parent(root_path: &PathModel, child: &PathModel) -> (r: Result<PathModel, NormalizeError>)
    ensures
        match spec_resolve(child@) {
            Ok(l) => r matches Ok(p) && p@ == root_path@ + l,
            Err(e) => r == Err::<PathModel, NormalizeError>(e),
        },
{
    let n = child.components.len();
    let mut lexical: Vec<PathComponent> = Vec::new();
    let mut i: usize = 0;
    assert(child@.subrange(0, 0) =~= Seq::<ComponentView>::empty());
    assert(lexical@.map_values(|c: PathComponent| c@) =~= Seq::<ComponentView>::empty());
    while i < n
        invariant
            n == child.components.len(),
            i <= n,
            spec_resolve(child@.subrange(0, i as int)) == Ok::<Seq<ComponentView>, NormalizeError>(
                lexical@.map_values(|c: PathComponent| c@),
            ),
        decreases n - i,
    {
        let ghost prefix = child@.subrange(0, i as int);
        assert(child@.subrange(0, i + 1).drop_last() =~= prefix);
        assert(child@.subrange(0, i + 1).last() == child@[i as int]);
        let ghost before = lexical@.map_values(|c: PathComponent| c@);
        match &child.components[i] {
            PathComponent::RootDir | PathComponent::Prefix(_) => {
                proof {
                    lemma_resolve_error_sticks(child@, i as int + 1, NormalizeError::AbsolutePath);
                }
                return Err(NormalizeError::AbsolutePath);
            },
            PathComponent::ParentDir => {
                if lexical.len() == 0 {
                    proof {
                        lemma_resolve_error_sticks(child@, i as int + 1, NormalizeError::AboveRoot);
                    }
                    return Err(NormalizeError::AboveRoot);
                }
                lexical.pop();
                assert(lexical@.map_values(|c: PathComponent| c@) =~= before.drop_last());
            },
            PathComponent::Normal(name) => {
                lexical.push(PathComponent::Normal(copy_bytes(name)));
                assert(lexical@.map_values(|c: PathComponent| c@) =~= before.push(child@[i as int]));
            },
            PathComponent::CurDir => {},
        }
        i = i + 1;
    }
    assert(child@.subrange(0, n as int) =~= child@);
    let mut components = clone_components(&root_path.components);
    let ghost lex = lexical@.map_values(|c: PathComponent| c@);
    let ghost start = components@.map_values(|c: PathComponent| c@);
    assert(lex.subrange(0, 0) =~= Seq::<ComponentView>::empty());
    let mut k: usize = 0;
    let l = lexical.len();
    while k < l
        invariant
            l == lexical.len(),
            k <= l,
            lex == lexical@.map_values(|c: PathComponent| c@),
            components.len() == start.len() + k,
            forall|j: int| 0 <= j < components.len() ==> (#[trigger] components@[j])@ == (start + lex.subrange(0, k as int))[j],
        decreases l - k,
    {
        components.push(lexical[k].clone());
        k = k + 1;
    }
    assert(components@.map_values(|c: PathComponent| c@) =~= start + lex);
    assert(lex.subrange(0, l as int) =~= lex);
    Ok(PathModel { components })
}

/// Once resolving a prefix of a path fails, resolving the whole path fails
/// with the same error.
proof fn lemma_resolve_error_sticks(child: Seq<ComponentView>, i: int, e: NormalizeError)
    requires
        0 <= i <= child.len(),
        spec_resolve(child.subrange(0, i)) == Err::<Seq<ComponentView>, NormalizeError>(e),
    ensures
        spec_resolve(child) == Err::<Seq<ComponentView>, NormalizeError>(e),
    decreases child.len() - i,
{
    if i < child.len() {
        assert(child.subrange(0, i + 1).drop_last() =~= child.subrange(0, i));
        lemma_resolve_error_sticks(child, i + 1, e);
    } else {
        assert(child.subrange(0, i) =~= child);
    }
}

/// A resolved path holds plain names only, so joined to a root it never
/// leaves that root.
pub proof fn law_resolved_only_names(child: Seq<ComponentView>)
    ensures
        spec_resolve(child) matches Ok(l) ==> forall|i: int| 0 <= i < l.len() ==> #[trigger] l[i] is Normal,
    decreases child.len(),
{
    if child.len() > 0 {
        law_resolved_only_names(child.drop_last());
        match spec_resolve(child.drop_last()) {
            Ok(l) => {
                match child.last() {
                    ComponentView::ParentDir => {
                        if l.len() > 0 {
                            assert forall|i: int| 0 <= i < l.drop_last().len() implies #[trigger] l.drop_last()[i] is Normal by {
                                assert(l.drop_last()[i] == l[i]);
                            }
                        }
                    },
                    ComponentView::Normal(_) => {
                        assert forall|i: int| 0 <= i < l.push(child.last()).len() implies #[trigger] l.push(child.last())[i] is Normal by {
                            if i < l.len() {
                                assert(l.push(child.last())[i] == l[i]);
                            }
                        }
                    },
                    _ => {},
                }
            },
            Err(_) => {},
        }
    }
}

/// A path made of plain names only resolves to itself.
pub proof fn law_plain_names_resolve_to_themselves(child: Seq<ComponentView>)
    requires
        forall|i: int| 0 <= i < child.len() ==> #[trigger] child[i] is Normal,
    ensures
        spec_resolve(child) == Ok::<Seq<ComponentView>, NormalizeError>(child),
    decreases child.len(),
{
    if child.len() > 0 {
        let rest = child.drop_last();
        assert forall|i: int| 0 <= i < rest.len() implies #[trigger] rest[i] is Normal by {
            assert(rest[i] == child[i]);
        }
        law_plain_names_resolve_to_themselves(rest);
        assert(child.last() is Normal);
        assert(rest.push(child.last()) =~= child);
    } else {
        assert(child =~= Seq::<ComponentView>::empty());
    }
}

/// The metadata file's name always ends in `.meta`.
pub proof fn law_meta_name_ends_in_meta(name: Seq<u8>)
    ensures
        spec_meta_name(name).len() >= 5,
        spec_meta_name(name).subrange(spec_meta_name(name).len() - 5, spec_meta_name(name).len() as int)
            == seq![46u8, 109u8, 101u8, 116u8, 97u8],
{
    let m = spec_meta_name(name);
    let ext = match spec_extension(name) {
        Some(x) => if x.len() > 0 { x + seq![46u8] } else { Seq::empty() },
        None => Seq::empty(),
    };
    let head = spec_file_stem(name) + seq![46u8] + ext;
    assert(head + seq![109u8, 101u8, 116u8, 97u8] == m);
    assert(head.last() == 46u8) by {
        if ext.len() > 0 {
            assert(ext.last() == 46u8);
        }
    }
    assert(m.subrange(m.len() - 5, m.len() as int) =~= seq![46u8, 109u8, 101u8, 116u8, 97u8]);
}

} // verus!
