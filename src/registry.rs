use vstd::hash_map::HashMapWithView;
use vstd::prelude::*;

verus! {

broadcast use vstd::std_specs::hash::group_hash_axioms;

/// The watch registry: for each watch handle that the event source gave out
/// for a directory, the path of that directory, as bytes.
///
/// A handle is the event source's integer descriptor. Entries are only ever
/// added: an entry is replaced only when the event source hands out a
/// handle again.
pub struct WatchRegistry {
    paths: HashMapWithView<i32, Vec<u8>>,
}

impl View for WatchRegistry {
    type V = Map<i32, Seq<u8>>;

    closed spec fn view(&self) -> Map<i32, Seq<u8>> {
        self.paths@.map_values(|p: Vec<u8>| p@)
    }
}

impl WatchRegistry {
    /// An empty registry.
    pub fn new() -> (r: WatchRegistry)
        ensures
            r@ == Map::<i32, Seq<u8>>::empty(),
    {
        let r = WatchRegistry { paths: HashMapWithView::new() };
        assert(r@ =~= Map::<i32, Seq<u8>>::empty());
        r
    }

    /// The number of handles in the registry.
    pub fn len(&self) -> (r: usize)
        ensures
            r == self@.len(),
    {
        assert(self@.dom() =~= self.paths@.dom());
        self.paths.len()
    }

    /// Whether `wd` is a registered handle.
    pub fn contains(&self, wd: i32) -> (r: bool)
        ensures
            r == self@.contains_key(wd),
    {
        self.paths.contains_key(&wd)
    }

    /// The path registered for `wd`, if any.
    pub fn path_of(&self, wd: i32) -> (r: Option<&Vec<u8>>)
        ensures
            match r {
                Some(p) => self@.contains_key(wd) && p@ == self@[wd],
                None => !self@.contains_key(wd),
            },
    {
        self.paths.get(&wd)
    }

    /// Records that `wd` watches the directory at `path`.
    pub fn insert(&mut self, wd: i32, path: Vec<u8>)
        ensures
            final(self)@ == old(self)@.insert(wd, path@),
    {
        self.paths.insert(wd, path);
        assert(self@ =~= old(self)@.insert(wd, path@));
    }
}

} // verus!
