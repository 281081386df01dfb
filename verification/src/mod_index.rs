//! The index of mods known to the mod asset reader: which source each mod
//! comes from, built from the mod lists of all sources and cached until the
//! sources change.

use vstd::prelude::*;

verus! {

/// One mod found in a source: its name and the index of the source.
#[derive(Debug)]
pub struct ModEntry {
    pub name: String,
    pub system: usize,
}

/// A mod name was found in two sources.
#[derive(Debug)]
pub struct DuplicateMod {
    /// The name of the mod
    pub name: String,
    /// The source in which the name was found first
    pub first_system: usize,
    /// The source in which the name was found again
    pub second_system: usize,
}

/// A mod was asked for by a name that no source lists.
#[derive(Debug)]
pub struct ModNotFound {
    pub name: String,
}

/// The names of one source's mods, each paired with that source's index.
pub open spec fn spec_tag(names: Seq<Seq<char>>, system: int) -> Seq<(Seq<char>, int)> {
    names.map_values(|n: Seq<char>| (n, system))
}

/// All mods of all sources, source by source, in listing order.
pub open spec fn spec_flatten(listing: Seq<Seq<Seq<char>>>) -> Seq<(Seq<char>, int)>
    decreases listing.len(),
{
    if listing.len() == 0 {
        Seq::empty()
    } else {
        spec_flatten(listing.drop_last()) + spec_tag(listing.last(), listing.len() - 1)
    }
}

/// No name occurs twice.
pub open spec fn spec_names_distinct(entries: Seq<(Seq<char>, int)>) -> bool {
    forall|i: int, j: int| 0 <= i < j < entries.len() ==> entries[i].0 != entries[j].0
}

/// The first entry whose name was seen before: its name, the source of
/// the earlier entry and its own source.
pub open spec fn spec_first_duplicate(entries: Seq<(Seq<char>, int)>) -> Option<(Seq<char>, int, int)>
    decreases entries.len(),
{
    if entries.len() == 0 {
        None
    } else {
        let prefix = entries.drop_last();
        let last = entries.last();
        match spec_first_duplicate(prefix) {
            Some(d) => Some(d),
            None => if exists|j: int| 0 <= j < prefix.len() && prefix[j].0 == last.0 {
                let j = choose|j: int| 0 <= j < prefix.len() && prefix[j].0 == last.0;
                Some((last.0, prefix[j].1, last.1))
            } else {
                None
            },
        }
    }
}

/// The source of the mod called `name`, if some entry has that name.
pub open spec fn spec_lookup(entries: Seq<(Seq<char>, int)>, name: Seq<char>) -> Option<int> {
    if exists|i: int| 0 <= i < entries.len() && entries[i].0 == name {
        let i = choose|i: int| 0 <= i < entries.len() && entries[i].0 == name;
        Some(entries[i].1)
    } else {
        None
    }
}

/// The abstract value of a list of entries.
pub open spec fn spec_entries(v: Seq<ModEntry>) -> Seq<(Seq<char>, int)> {
    v.map_values(|e: ModEntry| (e.name@, e.system as int))
}

/// Without a repeated name there is no first repeated name, and the other
/// way round.
pub proof fn lemma_first_duplicate_none(entries: Seq<(Seq<char>, int)>)
    ensures
        spec_first_duplicate(entries) is None <==> spec_names_distinct(entries),
    decreases entries.len(),
{
    if entries.len() > 0 {
        let prefix = entries.drop_last();
        lemma_first_duplicate_none(prefix);
        if spec_first_duplicate(prefix) is None {
            if spec_names_distinct(entries) {
                assert forall|j: int| 0 <= j < prefix.len() implies prefix[j].0 != entries.last().0 by {
                    assert(entries[j].0 != entries[entries.len() - 1].0);
                }
            } else {
                let (i, j) = choose|i: int, j: int|
                    0 <= i < j < entries.len() && entries[i].0 == entries[j].0;
                if j < entries.len() - 1 {
                    assert(prefix[i].0 == prefix[j].0);
                } else {
                    assert(prefix[i].0 == entries.last().0);
                }
            }
        } else {
            assert(!spec_names_distinct(entries)) by {
                let (i, j) = choose|i: int, j: int|
                    0 <= i < j < prefix.len() && prefix[i].0 == prefix[j].0;
                assert(entries[i].0 == entries[j].0);
            }
        }
    }
}

/// A reported duplicate is a name that two entries share: the earlier
/// entry's source comes first, the later entry's second, and no name
/// repeats before the later entry.
pub proof fn law_duplicate_is_repeated(entries: Seq<(Seq<char>, int)>)
    ensures
        spec_first_duplicate(entries) matches Some(d) ==> exists|i: int, j: int|
            #![trigger entries[i], entries[j]]
            0 <= i < j < entries.len() && entries[i] == (d.0, d.1) && entries[j] == (d.0, d.2)
                && spec_names_distinct(entries.take(j)),
    decreases entries.len(),
{
    if entries.len() > 0 {
        let prefix = entries.drop_last();
        law_duplicate_is_repeated(prefix);
        match spec_first_duplicate(prefix) {
            Some(d) => {
                let (i, j) = choose|i: int, j: int|
                    #![trigger prefix[i], prefix[j]]
                    0 <= i < j < prefix.len() && prefix[i] == (d.0, d.1) && prefix[j] == (d.0, d.2)
                        && spec_names_distinct(prefix.take(j));
                assert(entries[i] == prefix[i] && entries[j] == prefix[j]);
                assert(entries.take(j) =~= prefix.take(j));
            },
            None => {
                lemma_first_duplicate_none(prefix);
                if exists|j: int| 0 <= j < prefix.len() && prefix[j].0 == entries.last().0 {
                    let j = choose|j: int| 0 <= j < prefix.len() && prefix[j].0 == entries.last().0;
                    let n = entries.len() - 1;
                    assert(entries[j] == prefix[j]);
                    assert(entries[j] == (entries.last().0, prefix[j].1));
                    assert(entries[n] == (entries.last().0, entries.last().1));
                    assert(entries.take(n) =~= prefix);
                }
            },
        }
    }
}

/// A repeated name in a prefix is the first repeated name of the whole.
pub proof fn lemma_first_duplicate_prefix(entries: Seq<(Seq<char>, int)>, k: int)
    requires
        0 <= k <= entries.len(),
        spec_first_duplicate(entries.take(k)) is Some,
    ensures
        spec_first_duplicate(entries) == spec_first_duplicate(entries.take(k)),
    decreases entries.len() - k,
{
    if k < entries.len() {
        assert(entries.take(k + 1).drop_last() =~= entries.take(k));
        lemma_first_duplicate_prefix(entries, k + 1);
    } else {
        assert(entries.take(k) =~= entries);
    }
}

/// The listing of the first `s` sources, then the first `i` names of
/// source `s`.
pub open spec fn spec_partial(listing: Seq<Seq<Seq<char>>>, s: int, i: int) -> Seq<(Seq<char>, int)> {
    spec_flatten(listing.take(s)) + spec_tag(listing[s].take(i), s)
}

proof fn lemma_partial_next_source(listing: Seq<Seq<Seq<char>>>, s: int)
    requires
        0 <= s < listing.len(),
    ensures
        spec_flatten(listing.take(s + 1)) == spec_partial(listing, s, listing[s].len() as int),
{
    assert(listing.take(s + 1).drop_last() =~= listing.take(s));
    assert(listing[s].take(listing[s].len() as int) =~= listing[s]);
}

/// Builds the entries of all mods from the names each source lists, in
/// listing order. A name listed twice, in one source or in two, is refused
/// with the first such name.
pub fn build_mod_entries(listing: &Vec<Vec<String>>) -> (r: Result<Vec<ModEntry>, DuplicateMod>)
    ensures
        match r {
            Ok(v) => spec_entries(v@) == spec_flatten(listing.deep_view())
                && spec_names_distinct(spec_flatten(listing.deep_view())),
            Err(d) => spec_first_duplicate(spec_flatten(listing.deep_view())) == Some(
                (d.name@, d.first_system as int, d.second_system as int),
            ),
        },
{
    let ghost full = listing.deep_view();
    let mut acc: Vec<ModEntry> = Vec::new();
    let mut s: usize = 0;
    proof {
        assert(full.take(0) =~= Seq::<Seq<Seq<char>>>::empty());
        assert(spec_entries(acc@) =~= spec_flatten(full.take(0)));
        lemma_first_duplicate_none(spec_entries(acc@));
    }
    while s < listing.len()
        invariant
            full == listing.deep_view(),
            0 <= s <= listing.len(),
            spec_entries(acc@) == spec_flatten(full.take(s as int)),
            spec_names_distinct(spec_entries(acc@)),
            forall|k: int| 0 <= k < acc@.len() ==> acc@[k].system < s,
        decreases listing.len() - s,
    {
        let names = &listing[s];
        assert(names.deep_view() == full[s as int]);
        let mut i: usize = 0;
        proof {
            assert(full[s as int].take(0) =~= Seq::<Seq<char>>::empty());
            assert(spec_entries(acc@) =~= spec_partial(full, s as int, 0));
        }
        while i < names.len()
            invariant
                full == listing.deep_view(),
                0 <= s < listing.len(),
                names.deep_view() == full[s as int],
                0 <= i <= names.len(),
                spec_entries(acc@) == spec_partial(full, s as int, i as int),
                spec_names_distinct(spec_entries(acc@)),
                forall|k: int| 0 <= k < acc@.len() ==> acc@[k].system <= s,
            decreases names.len() - i,
        {
            let name = &names[i];
            assert(name@ == full[s as int][i as int]);
            let ghost prefix = spec_entries(acc@);
            let ghost next = spec_partial(full, s as int, i as int + 1);
            proof {
                assert(full[s as int].take(i as int + 1) =~= full[s as int].take(i as int).push(name@));
                assert(next =~= prefix.push((name@, s as int)));
            }
            let mut j: usize = 0;
            while j < acc.len()
                invariant
                    full == listing.deep_view(),
                    0 <= s < listing.len(),
                    names.deep_view() == full[s as int],
                    0 <= i < names.len(),
                    name@ == full[s as int][i as int],
                    0 <= j <= acc.len(),
                    prefix == spec_entries(acc@),
                    spec_names_distinct(prefix),
                    next == prefix.push((name@, s as int)),
                    next == spec_partial(full, s as int, i as int + 1),
                    forall|k: int| 0 <= k < j ==> acc@[k].name@ != name@,
                decreases acc.len() - j,
            {
                if acc[j].name == *name {
                    proof {
                        lemma_first_duplicate_none(prefix);
                        assert(next.drop_last() =~= prefix);
                        assert(prefix[j as int].0 == next.last().0);
                        let jj = choose|jj: int| 0 <= jj < prefix.len() && prefix[jj].0 == next.last().0;
                        if jj != j as int {
                            assert(prefix[jj].0 == prefix[j as int].0);
                        }
                        assert(spec_first_duplicate(next) == Some((name@, acc@[j as int].system as int, s as int)));
                        let total = spec_flatten(full);
                        let k: int = prefix.len() as int + 1;
                        lemma_partial_prefix(full, s as int, i as int + 1);
                        assert(total.take(k) =~= next);
                        lemma_first_duplicate_prefix(total, k);
                    }
                    return Err(DuplicateMod {
                        name: name.clone(),
                        first_system: acc[j].system,
                        second_system: s,
                    });
                }
                j = j + 1;
            }
            acc.push(ModEntry { name: name.clone(), system: s });
            proof {
                assert(spec_entries(acc@) =~= next);
                assert forall|a: int, b: int| 0 <= a < b < next.len() implies next[a].0 != next[b].0 by {
                    if b == next.len() - 1 {
                        assert(prefix[a].0 == acc@[a].name@);
                    } else {
                        assert(prefix[a].0 != prefix[b].0);
                    }
                }
            }
            i = i + 1;
        }
        proof {
            lemma_partial_next_source(full, s as int);
        }
        s = s + 1;
    }
    proof {
        assert(full.take(s as int) =~= full);
    }
    Ok(acc)
}

/// The listing of a prefix of the sources is a prefix of the listing of
/// all of them.
proof fn lemma_partial_prefix(listing: Seq<Seq<Seq<char>>>, s: int, i: int)
    requires
        0 <= s < listing.len(),
        0 <= i <= listing[s].len(),
    ensures
        spec_flatten(listing).len() >= spec_partial(listing, s, i).len(),
        spec_flatten(listing).take(spec_partial(listing, s, i).len() as int) == spec_partial(listing, s, i),
{
    lemma_flatten_prefix(listing, s + 1);
    lemma_partial_next_source(listing, s);
    let p = spec_partial(listing, s, i);
    let whole = spec_flatten(listing.take(s + 1));
    assert(whole =~= spec_flatten(listing.take(s)) + spec_tag(listing[s], s));
    assert(whole.take(p.len() as int) =~= p) by {
        assert(listing[s].take(i) =~= listing[s].subrange(0, i));
    }
    assert(spec_flatten(listing).take(p.len() as int) =~= whole.take(p.len() as int));
}

/// Flattening the first `s` sources gives a prefix of flattening them all.
proof fn lemma_flatten_prefix(listing: Seq<Seq<Seq<char>>>, s: int)
    requires
        0 <= s <= listing.len(),
    ensures
        spec_flatten(listing).len() >= spec_flatten(listing.take(s)).len(),
        spec_flatten(listing).take(spec_flatten(listing.take(s)).len() as int) == spec_flatten(listing.take(s)),
    decreases listing.len() - s,
{
    if s == listing.len() {
        assert(listing.take(s) =~= listing);
        assert(spec_flatten(listing).take(spec_flatten(listing).len() as int) =~= spec_flatten(listing));
    } else {
        lemma_flatten_prefix(listing, s + 1);
        let a = spec_flatten(listing.take(s));
        let b = spec_flatten(listing.take(s + 1));
        assert(listing.take(s + 1).drop_last() =~= listing.take(s));
        assert(b =~= a + spec_tag(listing[s], s));
        assert(b.take(a.len() as int) =~= a);
        assert(spec_flatten(listing).take(a.len() as int) =~= b.take(a.len() as int));
    }
}

/// Every mod that a source lists is found, after the index is built, in
/// that source, when no name is listed twice.
pub proof fn law_listed_mod_found(listing: Seq<Seq<Seq<char>>>, s: int, i: int)
    requires
        0 <= s < listing.len(),
        0 <= i < listing[s].len(),
        spec_names_distinct(spec_flatten(listing)),
    ensures
        spec_lookup(spec_flatten(listing), listing[s][i]) == Some(s),
{
    let whole = spec_flatten(listing);
    lemma_partial_prefix(listing, s, i + 1);
    let p = spec_partial(listing, s, i + 1);
    assert(listing[s].take(i + 1)[i] == listing[s][i]);
    let at = p.len() - 1;
    assert(p[at] == (listing[s][i], s));
    assert(whole[at] == p[at]);
    let k = choose|k: int| 0 <= k < whole.len() && whole[k].0 == listing[s][i];
    if k != at {
        if k < at {
            assert(whole[k].0 != whole[at].0);
        } else {
            assert(whole[at].0 != whole[k].0);
        }
    }
}

/// Each entry of the index names a mod that its source lists.
pub proof fn lemma_flatten_entry(listing: Seq<Seq<Seq<char>>>, k: int)
    requires
        0 <= k < spec_flatten(listing).len(),
    ensures
        0 <= spec_flatten(listing)[k].1 < listing.len(),
        listing[spec_flatten(listing)[k].1].contains(spec_flatten(listing)[k].0),
    decreases listing.len(),
{
    let rest = listing.drop_last();
    let a = spec_flatten(rest);
    if k < a.len() {
        lemma_flatten_entry(rest, k);
        assert(listing[spec_flatten(listing)[k].1] == rest[a[k].1]);
    } else {
        let t = spec_tag(listing.last(), listing.len() - 1);
        assert(spec_flatten(listing)[k] == t[k - a.len()]);
        assert(listing.last()[k - a.len()] == t[k - a.len()].0);
    }
}

/// A name that no source lists is not found in the index.
pub proof fn law_unlisted_mod_not_found(listing: Seq<Seq<Seq<char>>>, name: Seq<char>)
    requires
        forall|s: int| 0 <= s < listing.len() ==> !listing[s].contains(name),
    ensures
        spec_lookup(spec_flatten(listing), name) is None,
{
    let whole = spec_flatten(listing);
    if exists|k: int| 0 <= k < whole.len() && whole[k].0 == name {
        let k = choose|k: int| 0 <= k < whole.len() && whole[k].0 == name;
        lemma_flatten_entry(listing, k);
    }
}

/// The abstract state of a mod asset reader.
pub struct ModsAssetReaderView<S> {
    /// The sources, in the order they were added
    pub systems: Seq<S>,
    /// The index of mods, while it is up to date
    pub mods: Option<Seq<(Seq<char>, int)>>,
}

impl<S> ModsAssetReaderView<S> {
    /// The state after the index is forgotten.
    pub open spec fn refreshed(self) -> Self {
        ModsAssetReaderView { systems: self.systems, mods: None }
    }

    /// The state after the index is built from `listing`: the mods of all
    /// sources when no name repeats, the state as it was otherwise.
    pub open spec fn relisted(self, listing: Seq<Seq<Seq<char>>>) -> Self {
        if spec_names_distinct(spec_flatten(listing)) {
            ModsAssetReaderView { systems: self.systems, mods: Some(spec_flatten(listing)) }
        } else {
            self
        }
    }

    /// The names of all mods, in listing order, while the index is up to
    /// date.
    pub open spec fn cached_names(self) -> Option<Seq<Seq<char>>> {
        match self.mods {
            Some(m) => Some(spec_mod_names(m)),
            None => None,
        }
    }
}

/// The names of the entries, in order.
pub open spec fn spec_mod_names(entries: Seq<(Seq<char>, int)>) -> Seq<Seq<char>> {
    entries.map_values(|e: (Seq<char>, int)| e.0)
}

/// After a refresh no names are cached; after the mods are listed again,
/// with no name in two places, the cached names are exactly the names that
/// the sources list now, each once.
pub proof fn law_refresh_then_relist<S>(r: ModsAssetReaderView<S>, listing: Seq<Seq<Seq<char>>>)
    requires
        spec_names_distinct(spec_flatten(listing)),
    ensures
        r.refreshed().cached_names() is None,
        r.refreshed().relisted(listing).cached_names() matches Some(names) && names.no_duplicates()
            && forall|n: Seq<char>|
            names.contains(n) <==> exists|s: int| 0 <= s < listing.len() && #[trigger] listing[s].contains(n),
{
    let flat = spec_flatten(listing);
    let names = spec_mod_names(flat);
    assert(r.refreshed().relisted(listing).cached_names() == Some(names));
    assert forall|i: int, j: int| 0 <= i < names.len() && 0 <= j < names.len() && i != j implies names[i] != names[j] by {
        if i < j {
            assert(flat[i].0 != flat[j].0);
        } else {
            assert(flat[j].0 != flat[i].0);
        }
    }
    assert forall|n: Seq<char>|
        names.contains(n) <==> exists|s: int| 0 <= s < listing.len() && #[trigger] listing[s].contains(n) by {
        if names.contains(n) {
            let k = choose|k: int| 0 <= k < names.len() && names[k] == n;
            lemma_flatten_entry(listing, k);
            let s = flat[k].1;
            assert(listing[s].contains(n));
        }
        if exists|s: int| 0 <= s < listing.len() && #[trigger] listing[s].contains(n) {
            let s = choose|s: int| 0 <= s < listing.len() && #[trigger] listing[s].contains(n);
            let i = choose|i: int| 0 <= i < listing[s].len() && listing[s][i] == n;
            law_listed_mod_found(listing, s, i);
            let k = choose|k: int| 0 <= k < flat.len() && flat[k].0 == n;
            assert(names[k] == n);
        }
    }
}

/// The state of the mod asset reader: its sources of mods, and the index of
/// mods, built from their listings and kept until the sources change or a
/// refresh is asked for. The sources are opaque values of the caller's
/// choosing; listing them is the caller's work.
pub struct ModsAssetReader<S> {
    systems: Vec<S>,
    mods: Option<Vec<ModEntry>>,
}

impl<S> View for ModsAssetReader<S> {
    type V = ModsAssetReaderView<S>;

    closed spec fn view(&self) -> ModsAssetReaderView<S> {
        ModsAssetReaderView {
            systems: self.systems@,
            mods: match self.mods {
                Some(m) => Some(spec_entries(m@)),
                None => None,
            },
        }
    }
}

impl<S> ModsAssetReader<S> {
    #[verifier::type_invariant]
    spec fn index_is_sound(&self) -> bool {
        match self.mods {
            Some(m) => {
                &&& spec_names_distinct(spec_entries(m@))
                &&& forall|k: int| 0 <= k < m@.len() ==> m@[k].system < self.systems@.len()
            },
            None => true,
        }
    }

    /// A reader with no sources and no index.
    pub fn new() -> (r: Self)
        ensures
            r@.systems == Seq::<S>::empty(),
            r@.mods is None,
    {
        ModsAssetReader { systems: Vec::new(), mods: None }
    }

    /// The sources, in the order they were added.
    pub fn systems(&self) -> (r: &Vec<S>)
        ensures
            r@ == self@.systems,
    {
        &self.systems
    }

    /// Adds a source of mods after the others; the index must be built
    /// again.
    pub fn add_source(&mut self, system: S)
        ensures
            final(self)@.systems == old(self)@.systems.push(system),
            final(self)@.mods is None,
    {
        self.mods = None;
        let mut systems = Vec::new();
        std::mem::swap(&mut systems, &mut self.systems);
        systems.push(system);
        self.systems = systems;
    }

    /// Forgets the index, so that the mods are listed again on next use.
    pub fn refresh_mods(&mut self)
        ensures
            final(self)@.systems == old(self)@.systems,
            final(self)@.mods is None,
            final(self)@ == old(self)@.refreshed(),
    {
        self.mods = None;
    }

    /// Builds the index from the names that each source lists, one list per
    /// source in the order of the sources. A name listed twice is refused,
    /// and the reader is then left as it was.
    pub fn update_mods(&mut self, listing: &Vec<Vec<String>>) -> (r: Result<(), DuplicateMod>)
        requires
            listing.len() == old(self)@.systems.len(),
        ensures
            final(self)@.systems == old(self)@.systems,
            final(self)@ == old(self)@.relisted(listing.deep_view()),
            match r {
                Ok(()) => {
                    &&& final(self)@.mods == Some(spec_flatten(listing.deep_view()))
                    &&& spec_names_distinct(spec_flatten(listing.deep_view()))
                },
                Err(d) => {
                    &&& final(self)@.mods == old(self)@.mods
                    &&& spec_first_duplicate(spec_flatten(listing.deep_view())) == Some(
                        (d.name@, d.first_system as int, d.second_system as int),
                    )
                },
            },
    {
        match build_mod_entries(listing) {
            Ok(entries) => {
                proof {
                    assert forall|k: int| 0 <= k < entries@.len() implies entries@[k].system < self.systems@.len() by {
                        assert(spec_entries(entries@)[k] == spec_flatten(listing.deep_view())[k]);
                        lemma_flatten_entry(listing.deep_view(), k);
                    }
                }
                self.mods = Some(entries);
                Ok(())
            },
            Err(d) => {
                proof {
                    lemma_first_duplicate_none(spec_flatten(listing.deep_view()));
                }
                Err(d)
            },
        }
    }

    /// The names of all mods, in listing order, while the index is up to
    /// date.
    pub fn cached_mod_names(&self) -> (r: Option<Vec<String>>)
        ensures
            match self@.mods {
                Some(m) => r matches Some(names) && names@.len() == m.len()
                    && forall|k: int| 0 <= k < m.len() ==> #[trigger] names@[k]@ == m[k].0,
                None => r is None,
            },
            match self@.cached_names() {
                Some(names) => r matches Some(v) && v.deep_view() == names,
                None => r is None,
            },
    {
        match &self.mods {
            Some(entries) => {
                let mut names: Vec<String> = Vec::new();
                let mut k: usize = 0;
                while k < entries.len()
                    invariant
                        0 <= k <= entries.len(),
                        names@.len() == k,
                        forall|q: int| 0 <= q < k ==> #[trigger] names@[q]@ == entries@[q].name@,
                    decreases entries.len() - k,
                {
                    names.push(entries[k].name.clone());
                    k = k + 1;
                }
                proof {
                    assert(names.deep_view() =~= spec_mod_names(spec_entries(entries@)));
                }
                Some(names)
            },
            None => None,
        }
    }

    /// The source of the mod called `name`: `None` while there is no index,
    /// else that source, or an error when no source lists the name.
    pub fn get_mod(&self, name: &String) -> (r: Option<Result<usize, ModNotFound>>)
        ensures
            match self@.mods {
                Some(m) => match spec_lookup(m, name@) {
                    Some(s) => r == Some(Ok::<usize, ModNotFound>(s as usize)),
                    None => r matches Some(Err(e)) && e.name@ == name@,
                },
                None => r is None,
            },
    {
        proof {
            use_type_invariant(self);
        }
        match &self.mods {
            Some(entries) => {
                let ghost m = spec_entries(entries@);
                assert(self@.mods == Some(m));
                let mut k: usize = 0;
                while k < entries.len()
                    invariant
                        m == spec_entries(entries@),
                        self@.mods == Some(m),
                        spec_names_distinct(m),
                        0 <= k <= entries.len(),
                        forall|q: int| 0 <= q < k ==> entries@[q].name@ != name@,
                    decreases entries.len() - k,
                {
                    if entries[k].name == *name {
                        proof {
                            assert(m[k as int].0 == name@);
                            let c = choose|i: int| 0 <= i < m.len() && m[i].0 == name@;
                            if c != k as int {
                                if c < k as int {
                                    assert(m[c].0 != m[k as int].0);
                                } else {
                                    assert(m[k as int].0 != m[c].0);
                                }
                            }
                            assert(spec_lookup(m, name@) == Some(m[k as int].1));
                            assert(m[k as int].1 == entries@[k as int].system as int);
                            assert(self@.mods == Some(m));
                        }
                        let found = entries[k].system;
                        assert(found as int == m[k as int].1);
                        return Some(Ok(found));
                    }
                    k = k + 1;
                }
                proof {
                    assert(!exists|i: int| 0 <= i < m.len() && m[i].0 == name@) by {
                        if exists|i: int| 0 <= i < m.len() && m[i].0 == name@ {
                            let i = choose|i: int| 0 <= i < m.len() && m[i].0 == name@;
                            assert(entries@[i].name@ == m[i].0);
                        }
                    }
                }
                Some(Err(ModNotFound { name: name.clone() }))
            },
            None => None,
        }
    }
}

} // verus!
