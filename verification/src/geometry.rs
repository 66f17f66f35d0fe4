//! Window rectangles in whole logical units, and the keyed store that
//! remembers them between requests.

use vstd::hash_map::StringHashMap;
use vstd::prelude::*;

verus! {

/// A rectangle in logical units: the top-left corner and the size of a
/// window or of a monitor.
#[derive(Clone, Copy, Debug, PartialEq, Eq, Structural)]
pub struct FocusWindowGeometry {
    pub x: i32,
    pub y: i32,
    pub width: u32,
    pub height: u32,
}

/// What a map of snapshots holds under `key`.
pub open spec fn lookup(
    slots: Map<Seq<char>, FocusWindowGeometry>,
    key: Seq<char>,
) -> Option<FocusWindowGeometry> {
    if slots.contains_key(key) {
        Some(slots[key])
    } else {
        None
    }
}

/// Last known rectangles, one per key. Nothing is kept beyond the life of
/// the value.
pub struct GeometryStore {
    slots: StringHashMap<FocusWindowGeometry>,
}

impl View for GeometryStore {
    type V = Map<Seq<char>, FocusWindowGeometry>;

    closed spec fn view(&self) -> Map<Seq<char>, FocusWindowGeometry> {
        self.slots@
    }
}

impl GeometryStore {
    /// A store with no entry.
    pub fn new() -> (store: Self)
        ensures
            store@ == Map::<Seq<char>, FocusWindowGeometry>::empty(),
    {
        GeometryStore { slots: StringHashMap::new() }
    }

    /// The snapshot kept under `key`, if there is one.
    pub fn get(&self, key: &str) -> (found: Option<FocusWindowGeometry>)
        ensures
            found == lookup(self@, key@),
    {
        match self.slots.get(key) {
            Some(snapshot) => Some(*snapshot),
            None => None,
        }
    }

    /// Keeps `snapshot` under `key`, in place of whatever was there.
    pub fn put(&mut self, key: &str, snapshot: FocusWindowGeometry)
        ensures
            final(self)@ == old(self)@.insert(key@, snapshot),
    {
        self.slots.insert(key.to_owned(), snapshot);
    }

    /// Forgets the entry under `key` and hands it out.
    pub fn remove(&mut self, key: &str) -> (taken: Option<FocusWindowGeometry>)
        ensures
            taken == lookup(old(self)@, key@),
            final(self)@ == old(self)@.remove(key@),
    {
        let taken = self.get(key);
        self.slots.remove(key);
        taken
    }
}

/// Reading back what was just put gives the same snapshot, and other keys
/// are not disturbed.
pub proof fn lemma_put_then_get(
    slots: Map<Seq<char>, FocusWindowGeometry>,
    key: Seq<char>,
    snapshot: FocusWindowGeometry,
    other: Seq<char>,
)
    ensures
        lookup(slots.insert(key, snapshot), key) == Some(snapshot),
        other != key ==> lookup(slots.insert(key, snapshot), other) == lookup(slots, other),
{
}

/// After a removal the key has no entry, and other keys are not disturbed.
pub proof fn lemma_remove_then_get(
    slots: Map<Seq<char>, FocusWindowGeometry>,
    key: Seq<char>,
    other: Seq<char>,
)
    ensures
        lookup(slots.remove(key), key) is None,
        other != key ==> lookup(slots.remove(key), other) == lookup(slots, other),
{
}

} // verus!
