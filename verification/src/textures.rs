//! Texture settings of sprites, and the cache of texture images that keeps
//! the graphics handles made from them until the image or its settings
//! change.

use vstd::prelude::*;

verus! {

/// How a texture is sampled when it is scaled.
#[derive(Debug, Clone, Copy, PartialEq, Eq, PartialOrd, Ord, Hash, Structural)]
pub enum FilterMode {
    Linear,
    Nearest,
}

impl Default for FilterMode {
    fn default() -> (r: Self)
        ensures
            r == FilterMode::Linear,
    {
        FilterMode::Linear
    }
}

/// The settings of a texture that a mod may give.
#[derive(Debug, Clone, Copy, PartialEq, Eq, Hash, Structural)]
pub struct TextureMetadata {
    pub filter_mode: FilterMode,
}

impl Default for TextureMetadata {
    fn default() -> (r: Self)
        ensures
            r.filter_mode == FilterMode::Linear,
    {
        TextureMetadata { filter_mode: FilterMode::Linear }
    }
}

/// A sprite, named by the id of its image.
#[derive(Debug, Clone)]
pub struct SpriteAsset(pub String);

impl SpriteAsset {
    /// The sprite of the image with id `id`.
    pub fn from_id(id: &str) -> (r: Self)
        ensures
            r.0@ == id@,
    {
        SpriteAsset(id.to_owned())
    }

    /// The id of the sprite's image.
    pub fn id(&self) -> (r: &str)
        ensures
            r@ == self.0@,
    {
        self.0.as_str()
    }
}

/// One cached image: its bytes, the handles made from it for each
/// graphics backend, and whether the first backend's handle must have its
/// texture settings applied again.
pub struct ImageHandle<M, Y> {
    bytes: Vec<u8>,
    macroquad: Option<M>,
    yakui: Option<Y>,
    macroquad_meta_dirty: bool,
}

impl<M, Y> ImageHandle<M, Y> {
    fn placeholder() -> (r: Self)
        ensures
            r@ == (ImageView::<M, Y> { bytes: Seq::empty(), macroquad: None, yakui: None, macroquad_meta_dirty: false }),
    {
        let r = ImageHandle { bytes: Vec::new(), macroquad: None, yakui: None, macroquad_meta_dirty: false };
        assert(r@.bytes =~= Seq::<u8>::empty());
        r
    }
}

/// The abstract value of a cached image.
pub struct ImageView<M, Y> {
    pub bytes: Seq<u8>,
    pub macroquad: Option<M>,
    pub yakui: Option<Y>,
    pub macroquad_meta_dirty: bool,
}

impl<M, Y> View for ImageHandle<M, Y> {
    type V = ImageView<M, Y>;

    closed spec fn view(&self) -> ImageView<M, Y> {
        ImageView {
            bytes: self.bytes@,
            macroquad: self.macroquad,
            yakui: self.yakui,
            macroquad_meta_dirty: self.macroquad_meta_dirty,
        }
    }
}

/// A freshly added image: no handles yet, settings to be applied.
pub open spec fn spec_fresh<M, Y>(bytes: Seq<u8>) -> ImageView<M, Y> {
    ImageView { bytes, macroquad: None, yakui: None, macroquad_meta_dirty: true }
}

/// The cache after image `k` is added with bytes `b`: unchanged when the
/// same bytes are already cached, else holding a fresh image there.
pub open spec fn spec_after_add<M, Y>(m: Map<Seq<char>, ImageView<M, Y>>, k: Seq<char>, b: Seq<u8>) -> Map<Seq<char>, ImageView<M, Y>> {
    if m.contains_key(k) && m[k].bytes == b {
        m
    } else {
        m.insert(k, spec_fresh::<M, Y>(b))
    }
}

/// Adding an image twice with the same bytes is adding it once.
pub proof fn law_add_texture_idempotent<M, Y>(m: Map<Seq<char>, ImageView<M, Y>>, k: Seq<char>, b: Seq<u8>)
    ensures
        spec_after_add(spec_after_add(m, k, b), k, b) == spec_after_add(m, k, b),
{
}

/// After an image is added, the cache holds its bytes, and other images are
/// untouched.
pub proof fn law_add_texture_then_bytes<M, Y>(m: Map<Seq<char>, ImageView<M, Y>>, k: Seq<char>, b: Seq<u8>, other: Seq<char>)
    requires
        other != k,
    ensures
        spec_after_add(m, k, b).contains_key(k),
        spec_after_add(m, k, b)[k].bytes == b,
        spec_after_add(m, k, b).contains_key(other) == m.contains_key(other),
        m.contains_key(other) ==> spec_after_add(m, k, b)[other] == m[other],
{
}

/// Adding an image with the bytes it already has keeps its handles and
/// settings; adding it with other bytes, or adding a new image, leaves it
/// without handles and with its settings to be applied.
pub proof fn law_add_texture_handles<M, Y>(m: Map<Seq<char>, ImageView<M, Y>>, k: Seq<char>, b: Seq<u8>)
    ensures
        m.contains_key(k) && m[k].bytes == b ==> spec_after_add(m, k, b)[k] == m[k],
        !(m.contains_key(k) && m[k].bytes == b) ==> {
            &&& spec_after_add(m, k, b)[k].macroquad is None
            &&& spec_after_add(m, k, b)[k].yakui is None
            &&& spec_after_add(m, k, b)[k].macroquad_meta_dirty
        },
{
}

/// The cache of texture images, by image id.
pub struct TextureCache<M, Y> {
    entries: Vec<(String, ImageHandle<M, Y>)>,
}

spec fn entries_map<M, Y>(e: Seq<(String, ImageHandle<M, Y>)>) -> Map<Seq<char>, ImageView<M, Y>> {
    Map::new(
        |k: Seq<char>| exists|i: int| 0 <= i < e.len() && e[i].0@ == k,
        |k: Seq<char>|
            {
                let i = choose|i: int| 0 <= i < e.len() && e[i].0@ == k;
                e[i].1@
            },
    )
}

spec fn entries_distinct<M, Y>(e: Seq<(String, ImageHandle<M, Y>)>) -> bool {
    forall|i: int, j: int| 0 <= i < j < e.len() ==> e[i].0@ != e[j].0@
}

proof fn lemma_map_at<M, Y>(e: Seq<(String, ImageHandle<M, Y>)>, i: int)
    requires
        entries_distinct(e),
        0 <= i < e.len(),
    ensures
        entries_map(e).contains_key(e[i].0@),
        entries_map(e)[e[i].0@] == e[i].1@,
{
    let k = e[i].0@;
    let c = choose|c: int| 0 <= c < e.len() && e[c].0@ == k;
    if c != i {
        if c < i {
            assert(e[c].0@ != e[i].0@);
        } else {
            assert(e[i].0@ != e[c].0@);
        }
    }
}

/// Replacing the image at one position changes the map at that key only.
proof fn lemma_map_update<M, Y>(e: Seq<(String, ImageHandle<M, Y>)>, i: int, h: ImageHandle<M, Y>)
    requires
        entries_distinct(e),
        0 <= i < e.len(),
    ensures
        entries_distinct(e.update(i, (e[i].0, h))),
        entries_map(e.update(i, (e[i].0, h))) == entries_map(e).insert(e[i].0@, h@),
{
    let e2 = e.update(i, (e[i].0, h));
    let k0 = e[i].0@;
    assert forall|a: int, b: int| 0 <= a < b < e2.len() implies e2[a].0@ != e2[b].0@ by {
        assert(e[a].0@ != e[b].0@);
    }
    let m2 = entries_map(e2);
    let m1 = entries_map(e).insert(k0, h@);
    assert forall|q: Seq<char>| #[trigger] m2.contains_key(q) == m1.contains_key(q) by {
        if exists|x: int| 0 <= x < e.len() && e[x].0@ == q {
            let x = choose|x: int| 0 <= x < e.len() && e[x].0@ == q;
            assert(e2[x].0@ == q);
        }
        if exists|x: int| 0 <= x < e2.len() && e2[x].0@ == q {
            let x = choose|x: int| 0 <= x < e2.len() && e2[x].0@ == q;
            assert(e[x].0@ == q);
        }
    }
    assert forall|q: Seq<char>| #[trigger] m2.contains_key(q) implies m2[q] == m1[q] by {
        let x = choose|x: int| 0 <= x < e2.len() && e2[x].0@ == q;
        lemma_map_at(e2, x);
        if x != i {
            assert(e[x].0@ == q);
            lemma_map_at(e, x);
        }
    }
    assert(m2 =~= m1);
}

impl<M, Y> View for TextureCache<M, Y> {
    type V = Map<Seq<char>, ImageView<M, Y>>;

    closed spec fn view(&self) -> Map<Seq<char>, ImageView<M, Y>> {
        entries_map(self.entries@)
    }
}

fn same_bytes(a: &Vec<u8>, b: &Vec<u8>) -> (r: bool)
    ensures
        r <==> a@ == b@,
{
    if a.len() != b.len() {
        return false;
    }
    let mut i: usize = 0;
    while i < a.len()
        invariant
            a@.len() == b@.len(),
            0 <= i <= a.len(),
            forall|j: int| 0 <= j < i ==> a@[j] == b@[j],
        decreases a.len() - i,
    {
        if a[i] != b[i] {
            return false;
        }
        i = i + 1;
    }
    assert(a@ =~= b@);
    true
}

impl<M, Y> TextureCache<M, Y> {
    #[verifier::type_invariant]
    spec fn keys_distinct(&self) -> bool {
        entries_distinct(self.entries@)
    }

    /// The position of the image `k`, if it is cached.
    fn find(&self, k: &String) -> (r: Option<usize>)
        ensures
            match r {
                Some(i) => i < self.entries@.len() && self.entries@[i as int].0@ == k@,
                None => forall|i: int| 0 <= i < self.entries@.len() ==> self.entries@[i].0@ != k@,
            },
    {
        let mut i: usize = 0;
        while i < self.entries.len()
            invariant
                0 <= i <= self.entries@.len(),
                forall|j: int| 0 <= j < i ==> self.entries@[j].0@ != k@,
            decreases self.entries@.len() - i,
        {
            if self.entries[i].0 == *k {
                return Some(i);
            }
            i = i + 1;
        }
        None
    }

    /// Puts `h` in place of the image at position `i` and hands back the
    /// image that was there.
    fn swap_handle(&mut self, i: usize, h: ImageHandle<M, Y>) -> (r: ImageHandle<M, Y>)
        requires
            i < old(self).entries@.len(),
        ensures
            final(self).entries@.len() == old(self).entries@.len(),
            forall|j: int| 0 <= j < old(self).entries@.len() ==> #[trigger] final(self).entries@[j].0@ == old(self).entries@[j].0@,
            old(self)@.contains_key(old(self).entries@[i as int].0@),
            r@ == old(self)@[old(self).entries@[i as int].0@],
            final(self)@ == old(self)@.insert(old(self).entries@[i as int].0@, h@),
    {
        proof {
            use_type_invariant(&*self);
            lemma_map_at(self.entries@, i as int);
        }
        let ghost before = self.entries@;
        let mut entries = Vec::new();
        std::mem::swap(&mut entries, &mut self.entries);
        let (name, old_handle) = entries.remove(i);
        entries.insert(i, (name, h));
        proof {
            assert(entries@ =~= before.update(i as int, (before[i as int].0, h)));
            lemma_map_update(before, i as int, h);
        }
        self.entries = entries;
        old_handle
    }

    /// Stores the handle made for the first backend from image `k`.
    pub fn set_macroquad(&mut self, k: &str, m: M)
        requires
            old(self)@.contains_key(k@),
        ensures
            final(self)@ == old(self)@.insert(
                k@,
                ImageView { macroquad: Some(m), ..old(self)@[k@] },
            ),
    {
        let key = k.to_owned();
        let i = self.find_known(&key);
        let h = self.swap_handle(i, ImageHandle::placeholder());
        let ImageHandle { bytes, macroquad: _, yakui, macroquad_meta_dirty } = h;
        self.swap_handle(i, ImageHandle { bytes, macroquad: Some(m), yakui, macroquad_meta_dirty });
        proof {
            assert(final(self)@ =~= old(self)@.insert(k@, ImageView { macroquad: Some(m), ..old(self)@[k@] }));
        }
    }

    /// Stores the handle made for the second backend from image `k`.
    pub fn set_yakui(&mut self, k: &str, y: Y)
        requires
            old(self)@.contains_key(k@),
        ensures
            final(self)@ == old(self)@.insert(k@, ImageView { yakui: Some(y), ..old(self)@[k@] }),
    {
        let key = k.to_owned();
        let i = self.find_known(&key);
        let h = self.swap_handle(i, ImageHandle::placeholder());
        let ImageHandle { bytes, macroquad, yakui: _, macroquad_meta_dirty } = h;
        self.swap_handle(i, ImageHandle { bytes, macroquad, yakui: Some(y), macroquad_meta_dirty });
        proof {
            assert(final(self)@ =~= old(self)@.insert(k@, ImageView { yakui: Some(y), ..old(self)@[k@] }));
        }
    }

    /// Whether the texture settings of image `k` must be applied to the
    /// first backend's handle; they count as applied afterwards.
    pub fn take_macroquad_meta_dirty(&mut self, k: &str) -> (r: bool)
        requires
            old(self)@.contains_key(k@),
        ensures
            r == old(self)@[k@].macroquad_meta_dirty,
            final(self)@ == old(self)@.insert(
                k@,
                ImageView { macroquad_meta_dirty: false, ..old(self)@[k@] },
            ),
    {
        let key = k.to_owned();
        let i = self.find_known(&key);
        let h = self.swap_handle(i, ImageHandle::placeholder());
        let ImageHandle { bytes, macroquad, yakui, macroquad_meta_dirty } = h;
        self.swap_handle(i, ImageHandle { bytes, macroquad, yakui, macroquad_meta_dirty: false });
        proof {
            assert(final(self)@ =~= old(self)@.insert(
                k@,
                ImageView { macroquad_meta_dirty: false, ..old(self)@[k@] },
            ));
        }
        macroquad_meta_dirty
    }

    /// The position of image `k`, which is cached.
    fn find_known(&self, k: &String) -> (r: usize)
        requires
            self@.contains_key(k@),
        ensures
            r < self.entries@.len(),
            self.entries@[r as int].0@ == k@,
    {
        match self.find(k) {
            Some(i) => i,
            None => {
                proof {
                    let x = choose|x: int| 0 <= x < self.entries@.len() && self.entries@[x].0@ == k@;
                    assert(self.entries@[x].0@ != k@);
                }
                0
            },
        }
    }

    /// An empty cache.
    pub fn new() -> (r: Self)
        ensures
            r@ == Map::<Seq<char>, ImageView<M, Y>>::empty(),
    {
        let r = TextureCache { entries: Vec::new() };
        assert(r@ =~= Map::<Seq<char>, ImageView<M, Y>>::empty());
        r
    }

    /// Caches the image `k`. Adding the same bytes again keeps the cached
    /// image and its handles; other bytes replace it with a fresh image.
    pub fn add_texture(&mut self, k: String, bytes: Vec<u8>)
        ensures
            final(self)@ == spec_after_add(old(self)@, k@, bytes@),
    {
        proof {
            use_type_invariant(&*self);
        }
        let fresh = ImageHandle { bytes, macroquad: None, yakui: None, macroquad_meta_dirty: true };
        match self.find(&k) {
            Some(i) => {
                proof {
                    lemma_map_at(self.entries@, i as int);
                }
                if same_bytes(&self.entries[i].1.bytes, &fresh.bytes) {
                    return;
                }
                let ghost before = self.entries@;
                let mut entries = Vec::new();
                std::mem::swap(&mut entries, &mut self.entries);
                let (key, _old) = entries.remove(i);
                entries.insert(i, (key, fresh));
                proof {
                    assert(entries@ =~= before.update(i as int, (before[i as int].0, fresh)));
                    lemma_map_update(before, i as int, fresh);
                }
                self.entries = entries;
            },
            None => {
                let ghost before = self.entries@;
                let mut entries = Vec::new();
                std::mem::swap(&mut entries, &mut self.entries);
                entries.push((k, fresh));
                proof {
                    assert forall|a: int, b: int|
                        0 <= a < b < entries@.len() implies entries@[a].0@ != entries@[b].0@ by {
                        if b < before.len() {
                            assert(before[a].0@ != before[b].0@);
                        }
                    }
                }
                self.entries = entries;
                proof {
                    let n = before.len() as int;
                    let k0 = self.entries@[n].0@;
                    assert forall|q: Seq<char>| #[trigger] self@.contains_key(q) == old(self)@.insert(k0, spec_fresh::<M, Y>(bytes@)).contains_key(q) by {
                        if exists|x: int| 0 <= x < before.len() && before[x].0@ == q {
                            let x = choose|x: int| 0 <= x < before.len() && before[x].0@ == q;
                            assert(self.entries@[x].0@ == q);
                        }
                        if exists|x: int| 0 <= x < self.entries@.len() && self.entries@[x].0@ == q {
                            let x = choose|x: int| 0 <= x < self.entries@.len() && self.entries@[x].0@ == q;
                            if x < n {
                                assert(before[x].0@ == q);
                            }
                        }
                    }
                    assert forall|q: Seq<char>| #[trigger] self@.contains_key(q) implies self@[q] == old(self)@.insert(k0, spec_fresh::<M, Y>(bytes@))[q] by {
                        let x = choose|x: int| 0 <= x < self.entries@.len() && self.entries@[x].0@ == q;
                        lemma_map_at(self.entries@, x);
                        if x != n {
                            assert(before[x].0@ == q);
                            assert(q != k0);
                            lemma_map_at(before, x);
                        }
                    }
                    assert(self@ =~= old(self)@.insert(k0, spec_fresh::<M, Y>(bytes@)));
                }
            },
        }
    }

    /// Marks the settings of image `k` as changed: the first backend's
    /// handle must have them applied again, and the second backend's handle,
    /// which takes its settings only when made, is dropped. An image that is
    /// not cached is ignored.
    pub fn mark_metadata_dirty(&mut self, k: &str)
        ensures
            old(self)@.contains_key(k@) ==> final(self)@ == old(self)@.insert(
                k@,
                ImageView {
                    bytes: old(self)@[k@].bytes,
                    macroquad: old(self)@[k@].macroquad,
                    yakui: None,
                    macroquad_meta_dirty: true,
                },
            ),
            !old(self)@.contains_key(k@) ==> final(self)@ == old(self)@,
    {
        proof {
            use_type_invariant(&*self);
        }
        let key = k.to_owned();
        match self.find(&key) {
            Some(i) => {
                proof {
                    lemma_map_at(self.entries@, i as int);
                }
                let ghost before = self.entries@;
                let mut entries = Vec::new();
                std::mem::swap(&mut entries, &mut self.entries);
                let (name, old_handle) = entries.remove(i);
                let ImageHandle { bytes, macroquad, yakui: _, macroquad_meta_dirty: _ } = old_handle;
                let handle = ImageHandle { bytes, macroquad, yakui: None, macroquad_meta_dirty: true };
                entries.insert(i, (name, handle));
                proof {
                    assert(entries@ =~= before.update(i as int, (before[i as int].0, handle)));
                    lemma_map_update(before, i as int, handle);
                }
                self.entries = entries;
            },
            None => {
                proof {
                    assert(!old(self)@.contains_key(k@));
                }
            },
        }
    }

    /// The bytes of image `k`, if it is cached.
    pub fn bytes(&self, k: &str) -> (r: Option<&Vec<u8>>)
        ensures
            match r {
                Some(b) => self@.contains_key(k@) && b@ == self@[k@].bytes,
                None => !self@.contains_key(k@),
            },
    {
        proof {
            use_type_invariant(self);
        }
        let key = k.to_owned();
        match self.find(&key) {
            Some(i) => {
                proof {
                    lemma_map_at(self.entries@, i as int);
                }
                Some(&self.entries[i].1.bytes)
            },
            None => None,
        }
    }

    /// The handle made for the first backend from image `k`, if there is one.
    pub fn macroquad(&self, k: &str) -> (r: Option<&M>)
        ensures
            match r {
                Some(m) => self@.contains_key(k@) && self@[k@].macroquad == Some(*m),
                None => !self@.contains_key(k@) || self@[k@].macroquad is None,
            },
    {
        proof {
            use_type_invariant(self);
        }
        let key = k.to_owned();
        match self.find(&key) {
            Some(i) => {
                proof {
                    lemma_map_at(self.entries@, i as int);
                }
                self.entries[i].1.macroquad.as_ref()
            },
            None => None,
        }
    }

    /// The handle made for the second backend from image `k`, if there is
    /// one.
    pub fn yakui(&self, k: &str) -> (r: Option<&Y>)
        ensures
            match r {
                Some(y) => self@.contains_key(k@) && self@[k@].yakui == Some(*y),
                None => !self@.contains_key(k@) || self@[k@].yakui is None,
            },
    {
        proof {
            use_type_invariant(self);
        }
        let key = k.to_owned();
        match self.find(&key) {
            Some(i) => {
                proof {
                    lemma_map_at(self.entries@, i as int);
                }
                self.entries[i].1.yakui.as_ref()
            },
            None => None,
        }
    }
}

} // verus!
