//! The display-name directory.
//!
//! Maps a peer identity to the display name it last announced. A peer with
//! no entry renders as the short form of its identity. The directory is
//! mutated only by the dispatcher and lives for the room session; it is not
//! persisted.

use vstd::prelude::*;
use vstd::slice::slice_to_vec;
use crate::identity::{PeerId, short_label_spec};

verus! {

/// The mapping an entry list stands for.
pub open spec fn map_of_entries(entries: Seq<(PeerId, Vec<u8>)>) -> Map<Seq<u8>, Seq<u8>>
    decreases entries.len(),
{
    if entries.len() == 0 {
        Map::empty()
    } else {
        map_of_entries(entries.drop_last()).insert(entries.last().0@, entries.last().1@)
    }
}

/// Every key occurs in at most one entry.
pub open spec fn unique_keys(entries: Seq<(PeerId, Vec<u8>)>) -> bool {
    forall|i: int, j: int| 0 <= i < j < entries.len() ==> entries[i].0@ != entries[j].0@
}

/// The name a peer displays under: its entry in the directory, or the short
/// form of its identity when it has none.
pub open spec fn display_spec(names: Map<Seq<u8>, Seq<u8>>, id: Seq<u8>) -> Seq<u8> {
    if names.dom().contains(id) {
        names[id]
    } else {
        short_label_spec(id)
    }
}

proof fn lemma_entry_found(entries: Seq<(PeerId, Vec<u8>)>, i: int)
    requires
        unique_keys(entries),
        0 <= i < entries.len(),
    ensures
        map_of_entries(entries).dom().contains(entries[i].0@),
        map_of_entries(entries)[entries[i].0@] == entries[i].1@,
    decreases entries.len(),
{
    if i < entries.len() - 1 {
        lemma_entry_found(entries.drop_last(), i);
    }
}

proof fn lemma_entry_absent(entries: Seq<(PeerId, Vec<u8>)>, key: Seq<u8>)
    requires
        forall|i: int| 0 <= i < entries.len() ==> entries[i].0@ != key,
    ensures
        !map_of_entries(entries).dom().contains(key),
    decreases entries.len(),
{
    if entries.len() > 0 {
        lemma_entry_absent(entries.drop_last(), key);
    }
}

proof fn lemma_entry_update(entries: Seq<(PeerId, Vec<u8>)>, i: int, name: Vec<u8>)
    requires
        unique_keys(entries),
        0 <= i < entries.len(),
    ensures
        map_of_entries(entries.update(i, (entries[i].0, name))) == map_of_entries(
            entries,
        ).insert(entries[i].0@, name@),
        unique_keys(entries.update(i, (entries[i].0, name))),
    decreases entries.len(),
{
    let key = entries[i].0@;
    let updated = entries.update(i, (entries[i].0, name));
    assert(unique_keys(updated));
    if i == entries.len() - 1 {
        assert(updated.drop_last() =~= entries.drop_last());
        assert(map_of_entries(updated) =~= map_of_entries(entries).insert(key, name@));
    } else {
        assert(updated.drop_last() =~= entries.drop_last().update(i, (entries[i].0, name)));
        lemma_entry_update(entries.drop_last(), i, name);
        assert(entries.last().0@ != key);
        assert(map_of_entries(updated) =~= map_of_entries(entries).insert(key, name@));
    }
}

/// The directory of display names, keyed by peer identity.
pub struct NameDirectory {
    entries: Vec<(PeerId, Vec<u8>)>,
}

impl View for NameDirectory {
    type V = Map<Seq<u8>, Seq<u8>>;

    closed spec fn view(&self) -> Map<Seq<u8>, Seq<u8>> {
        map_of_entries(self.entries@)
    }
}

impl NameDirectory {
    /// The directory's internal invariant: one entry per peer.
    pub closed spec fn wf(&self) -> bool {
        unique_keys(self.entries@)
    }

    /// An empty directory.
    pub fn new() -> (r: NameDirectory)
        ensures
            r.wf(),
            r@ == Map::<Seq<u8>, Seq<u8>>::empty(),
    {
        NameDirectory { entries: Vec::new() }
    }

    fn find(&self, id: &PeerId) -> (r: Option<usize>)
        requires
            self.wf(),
        ensures
            match r {
                Some(i) => i < self.entries@.len() && self.entries@[i as int].0@ == id@,
                None => !self@.dom().contains(id@) && (forall|j: int|
                    0 <= j < self.entries@.len() ==> self.entries@[j].0@ != id@),
            },
    {
        let mut i: usize = 0;
        let n: usize = self.entries.len();
        while i < n
            invariant
                n == self.entries@.len(),
                i <= n,
                forall|j: int| 0 <= j < i ==> self.entries@[j].0@ != id@,
            decreases n - i,
        {
            if self.entries[i].0.eq_id(id) {
                return Some(i);
            }
            i += 1;
        }
        proof {
            lemma_entry_absent(self.entries@, id@);
        }
        None
    }

    /// Record the name a peer announced, inserting or overwriting its entry.
    pub fn set_name(&mut self, id: &PeerId, name: Vec<u8>)
        requires
            old(self).wf(),
        ensures
            final(self).wf(),
            final(self)@ == old(self)@.insert(id@, name@),
    {
        match self.find(id) {
            Some(i) => {
                proof {
                    lemma_entry_update(self.entries@, i as int, name);
                }
                let pid = self.entries[i].0;
                self.entries[i] = (pid, name);
                proof {
                    assert(self.entries@ =~= old(self).entries@.update(
                        i as int,
                        (old(self).entries@[i as int].0, name),
                    ));
                }
            }
            None => {
                self.entries.push((*id, name));
                proof {
                    assert(self.entries@.drop_last() =~= old(self).entries@);
                    assert(forall|j: int|
                        0 <= j < old(self).entries@.len() ==> old(self).entries@[j].0@ != id@);
                    assert(unique_keys(self.entries@));
                }
            }
        }
    }

    /// The name a peer displays under: its recorded name, or the short form
    /// of its identity when it never announced one.
    pub fn display_name(&self, id: &PeerId) -> (r: Vec<u8>)
        requires
            self.wf(),
        ensures
            r@ == display_spec(self@, id@),
    {
        match self.find(id) {
            Some(i) => {
                proof {
                    lemma_entry_found(self.entries@, i as int);
                }
                slice_to_vec(self.entries[i].1.as_slice())
            }
            None => id.short_label(),
        }
    }
}

} // verus!
