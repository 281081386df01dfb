//! The plugin that loads one asset type from JSON5 files, and its loader:
//! which file extensions they claim.

use std::marker::PhantomData;
use vstd::prelude::*;

verus! {

fn copy_extensions(extensions: &[&'static str]) -> (r: Vec<&'static str>)
    ensures
        r@ == extensions@,
{
    let mut r: Vec<&'static str> = Vec::new();
    let mut i: usize = 0;
    while i < extensions.len()
        invariant
            0 <= i <= extensions.len(),
            r@ == extensions@.take(i as int),
        decreases extensions.len() - i,
    {
        r.push(extensions[i]);
        i = i + 1;
        assert(r@ =~= extensions@.take(i as int));
    }
    assert(extensions@.take(extensions@.len() as int) =~= extensions@);
    r
}

/// A plugin that loads assets of type `A` from JSON5 files with the given
/// extensions.
pub struct Json5AssetPlugin<A> {
    extensions: Vec<&'static str>,
    _marker: PhantomData<A>,
}

impl<A> Json5AssetPlugin<A> {
    /// The extensions of the files this plugin loads.
    pub closed spec fn spec_extensions(&self) -> Seq<&'static str> {
        self.extensions@
    }

    /// Create a new plugin that will load assets from files with the given extensions.
    pub fn new(extensions: &[&'static str]) -> (r: Self)
        ensures
            r.spec_extensions() == extensions@,
    {
        Json5AssetPlugin { extensions: copy_extensions(extensions), _marker: PhantomData }
    }

    /// The loader that the plugin registers, for the same extensions.
    pub fn loader(&self) -> (r: Json5AssetLoader<A>)
        ensures
            r.spec_extensions() == self.spec_extensions(),
    {
        Json5AssetLoader {
            extensions: copy_extensions(self.extensions.as_slice()),
            _marker: PhantomData,
        }
    }
}

/// Loads your asset type `A` from json files
pub struct Json5AssetLoader<A> {
    extensions: Vec<&'static str>,
    _marker: PhantomData<A>,
}

impl<A> Json5AssetLoader<A> {
    /// The extensions of the files this loader reads.
    pub closed spec fn spec_extensions(&self) -> Seq<&'static str> {
        self.extensions@
    }

    /// The extensions of the files this loader reads.
    pub fn extensions(&self) -> (r: &[&'static str])
        ensures
            r@ == self.spec_extensions(),
    {
        self.extensions.as_slice()
    }
}

} // verus!
