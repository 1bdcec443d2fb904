//! Collections: one base record and its overrides, and the composites they yield.

use ureq::serde_json::Value;
use vstd::prelude::*;

use crate::cascade::{pointees, Cascade};
use crate::merger::{composite, composites, entries_of, fold, lemma_merged_pair};
use crate::record::{json_entries, json_is_object, Entries, Record};

verus! {

/// The entries of each of `values`, in their order.
pub open spec fn entries_of_values(values: Seq<Value>) -> Seq<Entries> {
    values.map_values(|value: Value| json_entries(value))
}

/// The entries of each of `records`, in their order.
pub open spec fn entries_of_records(records: Seq<Record>) -> Seq<Entries> {
    records.map_values(|record: Record| record@)
}

/// Whether every one of `values` is a JSON object.
pub open spec fn all_objects(values: Seq<Value>) -> bool {
    forall|i: int| 0 <= i < values.len() ==> json_is_object(#[trigger] values[i])
}

/// A base record shared by every page, and one override record per page.
#[derive(Debug)]
pub struct Collection {
    data: Record,
    pages: Vec<Record>,
}

impl Collection {
    /// The base record's entries.
    pub closed spec fn base(&self) -> Entries {
        self.data@
    }

    /// The entries of each override, in input order.
    pub closed spec fn overrides(&self) -> Seq<Entries> {
        entries_of_records(self.pages@)
    }

    /// A collection of `data` as base and `pages` as overrides. Each of them has
    /// to be a JSON object; with anything else among them there is no collection.
    pub fn new(data: Value, pages: Vec<Value>) -> (collection: Option<Collection>)
        ensures
            collection is Some <==> json_is_object(data) && all_objects(pages@),
            collection matches Some(c) ==> c.base() == json_entries(data) && c.overrides()
                == entries_of_values(pages@),
    {
        let base = match Record::from_value(data) {
            Some(record) => record,
            None => { return None; },
        };
        let mut records: Vec<Record> = Vec::new();
        for page in it: pages
            invariant
                records@.len() == it.index(),
                forall|i: int| 0 <= i < records@.len() ==> json_is_object(#[trigger] it.seq()[i]),
                forall|i: int| 0 <= i < records@.len() ==> (#[trigger] records@[i])@ == json_entries(it.seq()[i]),
        {
            match Record::from_value(page) {
                Some(record) => { records.push(record); },
                None => { return None; },
            }
        }
        Some(Collection { data: base, pages: records })
    }

    /// One composite per override, in the overrides' order: the base record with
    /// that override's top-level keys laid over it. The base alone yields nothing.
    pub fn cascade(self) -> (results: Vec<Value>)
        ensures
            results@.len() == self.overrides().len(),
            all_objects(results@),
            entries_of_values(results@) == composites(self.base(), self.overrides()),
            forall|i: int|
                0 <= i < results@.len() ==> json_entries(#[trigger] results@[i]) == composite(
                    self.base(),
                    self.overrides()[i],
                ),
    {
        let ghost base = self.data@;
        let ghost overrides = entries_of_records(self.pages@);
        let mut root: Cascade<Record> = Cascade::new();
        root.push(self.data);
        let mut results: Vec<Value> = Vec::new();
        for page in it: self.pages
            invariant
                root@.len() == 1,
                root@[0]@ == base,
                entries_of_records(it.seq()) == overrides,
                results@.len() == it.index(),
                all_objects(results@),
                forall|i: int|
                    0 <= i < results@.len() ==> json_entries(#[trigger] results@[i]) == composite(
                        base,
                        overrides[i],
                    ),
        {
            let ghost specific = page@;
            let mut branch = root.branch();
            branch.push(page);
            let lineage = branch.into_vec();
            let folded = fold(&lineage);
            proof {
                let records = pointees(lineage@);
                assert(records == root@.push(page));
                assert(records[0]@ == base && records[1]@ == specific);
                assert(entries_of(lineage@) == seq![base, specific]);
                lemma_merged_pair(base, specific);
            }
            results.push(folded.into_value());
        }
        results
    }
}

} // verus!
