//! The storage model: a flat collection of stored objects, each a durable
//! byte sequence filed under a well-formed name. A later write under a name
//! already in use replaces the earlier object, mirroring the deliberate
//! silent-overwrite policy of name collisions.

use vstd::prelude::*;
use crate::{bytes_eq, valid_name};

verus! {

/// One stored object: an opaque alphanumeric name and the bytes filed under
/// it.
pub struct StoredObject {
    pub name: Vec<u8>,
    pub data: Vec<u8>,
}

/// The storage root: every object the service has accepted, in the order the
/// uploads completed. Lookup is by name; the most recent write under a name
/// wins.
pub struct Store {
    objects: Vec<StoredObject>,
}

/// The map an object sequence denotes: entries are folded in order, so a
/// later entry under the same name replaces an earlier one.
pub open spec fn entries_map(s: Seq<StoredObject>) -> Map<Seq<u8>, Seq<u8>>
    decreases s.len(),
{
    if s.len() == 0 {
        Map::empty()
    } else {
        entries_map(s.drop_last()).insert(s.last().name@, s.last().data@)
    }
}

/// A name present somewhere in `s` is in the map, and the map holds the data
/// of the last entry under that name.
pub proof fn lemma_entries_map_found(s: Seq<StoredObject>, k: Seq<u8>, i: int)
    requires
        0 <= i < s.len(),
        s[i].name@ == k,
        forall|j: int| i < j < s.len() ==> s[j].name@ != k,
    ensures
        entries_map(s).contains_key(k),
        entries_map(s)[k] == s[i].data@,
    decreases s.len(),
{
    if i == s.len() - 1 {
        assert(s.last() == s[i]);
    } else {
        assert(s[s.len() - 1].name@ != k);
        lemma_entries_map_found(s.drop_last(), k, i);
    }
}

/// A name present in no entry of `s` is not in the map.
pub proof fn lemma_entries_map_absent(s: Seq<StoredObject>, k: Seq<u8>)
    requires
        forall|j: int| 0 <= j < s.len() ==> s[j].name@ != k,
    ensures
        !entries_map(s).contains_key(k),
    decreases s.len(),
{
    if s.len() > 0 {
        assert(s[s.len() - 1].name@ != k);
        lemma_entries_map_absent(s.drop_last(), k);
    }
}

impl Store {
    /// The store as a map from object names to their contents.
    pub closed spec fn contents(self) -> Map<Seq<u8>, Seq<u8>> {
        entries_map(self.objects@)
    }

    /// Every stored object carries a well-formed name.
    pub closed spec fn wf(self) -> bool {
        forall|i: int| 0 <= i < self.objects@.len() ==> valid_name(self.objects@[i].name@)
    }

    /// An empty storage root, as created at process start.
    pub fn new() -> (s: Store)
        ensures
            s.wf(),
            s.contents() == Map::<Seq<u8>, Seq<u8>>::empty(),
    {
        Store { objects: Vec::new() }
    }

    /// Files `data` under `name`. If an object of that name already exists
    /// it is silently replaced; otherwise a new object appears. No other
    /// entry changes.
    pub fn save(&mut self, name: Vec<u8>, data: Vec<u8>)
        requires
            old(self).wf(),
            valid_name(name@),
        ensures
            final(self).wf(),
            final(self).contents() == old(self).contents().insert(name@, data@),
    {
        let ghost pre = self.objects@;
        self.objects.push(StoredObject { name, data });
        proof {
            assert(self.objects@.drop_last() =~= pre);
        }
    }

    /// Looks an object up by name: the bytes filed under `name`, or `None`
    /// when no object of that name exists.
    pub fn load(&self, name: &[u8]) -> (r: Option<Vec<u8>>)
        ensures
            r is Some <==> self.contents().contains_key(name@),
            r matches Some(data) ==> data@ == self.contents()[name@],
    {
        let mut i: usize = self.objects.len();
        while i > 0
            invariant
                i <= self.objects@.len(),
                forall|j: int| i <= j < self.objects@.len() ==> self.objects@[j].name@ != name@,
            decreases i,
        {
            i = i - 1;
            if bytes_eq(self.objects[i].name.as_slice(), name) {
                let data = vstd::slice::slice_to_vec(self.objects[i].data.as_slice());
                proof {
                    lemma_entries_map_found(self.objects@, name@, i as int);
                }
                return Some(data);
            }
        }
        proof {
            lemma_entries_map_absent(self.objects@, name@);
        }
        None
    }
}

} // verus!
