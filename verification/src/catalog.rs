//! The star catalogue: entries numbered in the order they were added, so that
//! the number stored beside an entry in a spatial index finds it again.
use vstd::prelude::*;

verus! {

/// The entry numbered `id` in `entries`, if there is one.
pub open spec fn entry_with_id<T>(entries: Seq<T>, id: u32) -> Option<T> {
    if (id as int) < entries.len() {
        Some(entries[id as int])
    } else {
        None
    }
}

/// Whether every number in `ids` names an entry of `entries`.
pub open spec fn all_known<T>(entries: Seq<T>, ids: Seq<u32>) -> bool {
    forall|i: int| 0 <= i < ids.len() ==> (#[trigger] ids[i] as int) < entries.len()
}

/// Entries in the order they were added; an entry's number is its position.
pub struct StarCatalog<T> {
    entries: Vec<T>,
}

impl<T> View for StarCatalog<T> {
    type V = Seq<T>;

    closed spec fn view(&self) -> Seq<T> {
        self.entries@
    }
}

impl<T> StarCatalog<T> {
    pub fn new() -> (catalog: Self)
        ensures
            catalog@ == Seq::<T>::empty(),
    {
        StarCatalog { entries: Vec::new() }
    }

    pub fn len(&self) -> (n: usize)
        ensures
            n == self@.len(),
    {
        self.entries.len()
    }

    /// Whether another entry can still be numbered by a `u32`.
    pub fn has_room(&self) -> (b: bool)
        ensures
            b == (self@.len() < u32::MAX),
    {
        self.entries.len() < 4294967295usize
    }

    /// Adds `entry` and returns the number it is filed under: the count of
    /// entries before it.
    pub fn add(&mut self, entry: T) -> (id: u32)
        requires
            old(self)@.len() < u32::MAX,
        ensures
            id == old(self)@.len(),
            final(self)@ == old(self)@.push(entry),
    {
        let id: u32 = self.entries.len() as u32;
        self.entries.push(entry);
        id
    }

    /// The entry numbered `id`, if there is one.
    pub fn get(&self, id: u32) -> (res: Option<&T>)
        ensures
            res matches Some(r) ==> entry_with_id(self@, id) == Some(*r),
            res is None <==> entry_with_id(self@, id) is None,
    {
        if (id as usize) < self.entries.len() {
            Some(&self.entries[id as usize])
        } else {
            None
        }
    }

    /// The entries numbered by `ids`, in the order of `ids`; `None` when some
    /// number names no entry.
    pub fn lookup_all(&self, ids: &Vec<u32>) -> (res: Option<Vec<&T>>)
        ensures
            res is Some <==> all_known(self@, ids@),
            res matches Some(found) ==> {
                &&& found@.len() == ids@.len()
                &&& forall|i: int|
                    0 <= i < ids@.len() ==> *#[trigger] found@[i] == self@[ids@[i] as int]
            },
    {
        let mut found: Vec<&T> = Vec::new();
        let mut k: usize = 0;
        while k < ids.len()
            invariant
                k <= ids@.len(),
                found@.len() == k,
                forall|i: int| 0 <= i < k ==> (#[trigger] ids@[i] as int) < self@.len(),
                forall|i: int| 0 <= i < k ==> *#[trigger] found@[i] == self@[ids@[i] as int],
            decreases ids@.len() - k,
        {
            let id: u32 = ids[k];
            if (id as usize) < self.entries.len() {
                found.push(&self.entries[id as usize]);
            } else {
                return None;
            }
            k = k + 1;
        }
        Some(found)
    }

    /// All entries, in the order they were added.
    pub fn entries(&self) -> (res: &Vec<T>)
        ensures
            res@ == self@,
    {
        &self.entries
    }
}

/// Reading back what was added: the number that `add` returns finds the
/// entry just added, and every number that found an entry before still finds
/// the same entry.
pub proof fn lemma_added_entry_is_found<T>(before: Seq<T>, entry: T, id: u32)
    requires
        before.len() < u32::MAX,
    ensures
        entry_with_id(before.push(entry), before.len() as u32) == Some(entry),
        (id as int) < before.len() ==> entry_with_id(before.push(entry), id) == entry_with_id(
            before,
            id,
        ),
        (id as int) > before.len() ==> entry_with_id(before.push(entry), id) is None,
{
}

} // verus!
