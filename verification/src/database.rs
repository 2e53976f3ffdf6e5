//! The files that one peer stores.
use crate::text_map::TextMap;
use vstd::prelude::*;

verus! {

/// The local store of a peer: the bytes of each file, under the file's name.
#[derive(Debug)]
pub struct Database {
    pub data: TextMap<Vec<u8>>,
}

impl View for Database {
    type V = Map<Seq<char>, Seq<u8>>;

    /// Each file name with the bytes stored under it.
    open spec fn view(&self) -> Map<Seq<char>, Seq<u8>> {
        self.data@.map_values(|v: Vec<u8>| v@)
    }
}

impl Database {
    /// An empty database.
    pub fn new() -> (db: Database)
        ensures
            db@ == Map::<Seq<char>, Seq<u8>>::empty(),
            db.data.entries().len() == 0,
    {
        let db = Database { data: TextMap::new() };
        assert(db@ =~= Map::<Seq<char>, Seq<u8>>::empty());
        db
    }

    /// The stored files.
    pub fn get_data(&self) -> (d: &TextMap<Vec<u8>>)
        ensures
            *d == self.data,
    {
        &self.data
    }
}

} // verus!
