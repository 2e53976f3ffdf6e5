//! The requests that a peer has sent out and still waits on.
use crate::address::RequestId;
use crate::text_map::{distinct_keys, has_key, lemma_to_map_lookup, lemma_to_map_push, lemma_to_map_remove, to_map};
use crate::utils::FileInstructions;
use vstd::prelude::*;

verus! {

/// Open requests: for each request id, what the request is for. No id occurs twice.
#[derive(Debug)]
pub struct RequestTable {
    entries: Vec<(RequestId, FileInstructions)>,
}

impl View for RequestTable {
    type V = Map<RequestId, FileInstructions>;

    open spec fn view(&self) -> Map<RequestId, FileInstructions> {
        to_map(self.entries())
    }
}

impl RequestTable {
    /// The open requests in the order they were made.
    pub closed spec fn entries(self) -> Seq<(RequestId, FileInstructions)> {
        self.entries@
    }

    /// No id occurs twice.
    #[verifier::type_invariant]
    pub open spec fn inv(self) -> bool {
        distinct_keys(self.entries())
    }

    /// A table with no open request.
    pub fn new() -> (t: Self)
        ensures
            t@ == Map::<RequestId, FileInstructions>::empty(),
    {
        let t = RequestTable { entries: Vec::new() };
        assert(t@ =~= Map::<RequestId, FileInstructions>::empty());
        t
    }

    fn position(&self, id: &RequestId) -> (r: Option<usize>)
        ensures
            r matches Some(i) ==> i < self.entries().len() && self.entries()[i as int].0 == *id,
            r is None <==> !self@.contains_key(*id),
    {
        id_position(&self.entries, id)
    }

    /// Whether the request `id` is open.
    pub fn contains_key(&self, id: &RequestId) -> (b: bool)
        ensures
            b == self@.contains_key(*id),
    {
        self.position(id).is_some()
    }

    /// What the open request `id` is for, if it is open.
    pub fn get(&self, id: &RequestId) -> (r: Option<FileInstructions>)
        ensures
            r is None <==> !self@.contains_key(*id),
            r matches Some(v) ==> v == self@[*id],
    {
        proof {
            use_type_invariant(self);
        }
        match self.position(id) {
            Some(i) => {
                proof {
                    lemma_to_map_lookup(self.entries(), i as int);
                }
                Some(self.entries[i].1)
            },
            None => None,
        }
    }

    /// Opens the request `id` for `instr`, or changes what it is for if it is open.
    pub fn insert(&mut self, id: RequestId, instr: FileInstructions)
        ensures
            final(self)@ == old(self)@.insert(id, instr),
    {
        proof {
            use_type_invariant(&*self);
        }
        let mut entries: Vec<(RequestId, FileInstructions)> = Vec::new();
        std::mem::swap(&mut entries, &mut self.entries);
        match id_position(&entries, &id) {
            Some(i) => {
                proof {
                    crate::text_map::lemma_to_map_update(entries@, i as int, instr);
                }
                entries.set(i, (id, instr));
            },
            None => {
                proof {
                    lemma_to_map_push(entries@, id, instr);
                }
                entries.push((id, instr));
            },
        }
        self.entries = entries;
    }

    /// Closes the request `id`, if it is open.
    pub fn remove(&mut self, id: &RequestId)
        ensures
            final(self)@ == old(self)@.remove(*id),
    {
        proof {
            use_type_invariant(&*self);
        }
        let mut entries: Vec<(RequestId, FileInstructions)> = Vec::new();
        std::mem::swap(&mut entries, &mut self.entries);
        match id_position(&entries, id) {
            Some(i) => {
                proof {
                    lemma_to_map_remove(entries@, i as int);
                }
                entries.remove(i);
            },
            None => {
                assert(to_map(entries@).remove(*id) =~= to_map(entries@));
            },
        }
        self.entries = entries;
    }
}

/// The position of the entry with id `id` in a list of entries.
fn id_position(entries: &Vec<(RequestId, FileInstructions)>, id: &RequestId) -> (r: Option<usize>)
    ensures
        r matches Some(i) ==> i < entries@.len() && entries@[i as int].0 == *id,
        r is None <==> !has_key(entries@, *id),
{
    let mut i: usize = 0;
    while i < entries.len()
        invariant
            i <= entries@.len(),
            forall|j: int| 0 <= j < i ==> entries@[j].0 != *id,
        decreases entries@.len() - i,
    {
        if entries[i].0 == *id {
            return Some(i);
        }
        i = i + 1;
    }
    None
}

} // verus!
