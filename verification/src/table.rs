//! The alias table: the configured records in load order.

use vstd::prelude::*;

use crate::model::record_views;
use crate::model::Alias;
use crate::model::AliasView;

verus! {

/// The records whose path is exactly `path`, in load order.
pub open spec fn candidates(records: Seq<AliasView>, path: Seq<char>) -> Seq<AliasView> {
    records.filter(|record: AliasView| record.uri == path)
}

/// The views of borrowed records, in order.
pub open spec fn borrowed_views(records: Seq<&Alias>) -> Seq<AliasView> {
    records.map_values(|record: &Alias| record@)
}

/// An ordered collection of alias records, fixed once built.
pub struct AliasTable {
    records: Vec<Alias>,
}

impl View for AliasTable {
    type V = Seq<AliasView>;

    closed spec fn view(&self) -> Seq<AliasView> {
        record_views(self.records@)
    }
}

impl AliasTable {
    /// A table of `records`, in the order given.
    pub fn new(records: Vec<Alias>) -> (table: AliasTable)
        ensures
            table@ == record_views(records@),
    {
        AliasTable { records }
    }

    /// The records in load order.
    pub fn records(&self) -> (records: &Vec<Alias>)
        ensures
            record_views(records@) == self@,
    {
        &self.records
    }

    /// Every record whose path equals `path`, compared character by
    /// character, in load order.
    pub fn lookup_candidates(&self, path: &str) -> (found: Vec<&Alias>)
        ensures
            borrowed_views(found@) == candidates(self@, path@),
    {
        let key: String = path.to_owned();
        let ghost all = self@;
        let ghost same_path = |record: AliasView| record.uri == path@;
        let mut found: Vec<&Alias> = Vec::new();
        let mut i: usize = 0;
        proof {
            reveal(Seq::filter);
        }
        while i < self.records.len()
            invariant
                i <= self.records.len(),
                all == self@,
                key@ == path@,
                same_path == |record: AliasView| record.uri == path@,
                borrowed_views(found@) == all.take(i as int).filter(same_path),
            decreases self.records.len() - i,
        {
            let record = &self.records[i];
            proof {
                assert(all.take(i as int + 1) == all.take(i as int).push(all[i as int]));
                all.take(i as int).lemma_filter_push(all[i as int], same_path);
            }
            if record.uri == key {
                found.push(record);
            }
            i += 1;
        }
        assert(all.take(i as int) == all);
        found
    }
}

} // verus!
