//! Cascades: handles to the leaf of a lineage, which branch without copying the
//! ancestry they share.

use std::sync::Arc;
use vstd::prelude::*;
use vstd::std_specs::iter::IteratorSpec;

use crate::lineage::{share, LineageNode};

verus! {

/// A handle to the most specific node of a lineage; empty until the first push.
///
/// Cascades that were branched from one another share the nodes of their common
/// ancestry: branching copies a handle, never a record.
#[derive(Debug)]
pub struct Cascade<T> {
    leaf: Option<Arc<LineageNode<T>>>,
}

impl<T> View for Cascade<T> {
    type V = Seq<T>;

    /// The records of the lineage, from the root to the leaf.
    closed spec fn view(&self) -> Seq<T> {
        lineage_of(self.leaf)
    }
}

/// The records from the root down to `leaf`; none where there is no node.
pub open spec fn lineage_of<T>(leaf: Option<Arc<LineageNode<T>>>) -> Seq<T> {
    match leaf {
        Some(node) => node.lineage(),
        None => Seq::empty(),
    }
}

/// What the handles in `handles` point at, in their order.
pub open spec fn pointees<T>(handles: Seq<Arc<T>>) -> Seq<T> {
    handles.map_values(|handle: Arc<T>| *handle)
}

impl<T> Cascade<T> {
    /// A cascade with no records.
    pub fn new() -> (cascade: Self)
        ensures
            cascade@ == Seq::<T>::empty(),
    {
        Cascade { leaf: None }
    }

    /// Adds `value` below the current leaf as the new, most specific record.
    pub fn push(&mut self, value: T)
        ensures
            final(self)@ == old(self)@.push(value),
    {
        let mut node = LineageNode::create(value);
        if let Some(parent) = self.leaf.take() {
            let attached = node.attach(parent);
            assert(attached is Ok);
        }
        proof {
            node.lemma_lineage_unfold();
        }
        self.leaf = Some(Arc::new(node));
    }

    /// A second handle to the same lineage. Both share every node pushed so far;
    /// what is pushed onto one is not seen by the other.
    pub fn branch(&self) -> (sibling: Self)
        ensures
            sibling@ == self@,
    {
        match &self.leaf {
            Some(node) => Cascade { leaf: Some(share(node)) },
            None => Cascade { leaf: None },
        }
    }

    /// The records from the leaf up to the root, found by following ancestry
    /// links. The cascade is only read: walking it again gives the same records.
    pub fn path(&self) -> (walk: Vec<Arc<T>>)
        ensures
            pointees(walk@) == self@.reverse(),
            walk@.len() == self@.len(),
            forall|i: int| 0 <= i < walk@.len() ==> *(#[trigger] walk@[i]) == self@[self@.len() - 1 - i],
    {
        let mut walk: Vec<Arc<T>> = Vec::new();
        let mut cursor: Option<Arc<LineageNode<T>>> = match &self.leaf {
            Some(node) => Some(share(node)),
            None => None,
        };
        loop
            invariant
                walk@.len() + lineage_of(cursor).len() == self@.len(),
                lineage_of(cursor) == self@.take(lineage_of(cursor).len() as int),
                forall|i: int|
                    0 <= i < walk@.len() ==> *(#[trigger] walk@[i]) == self@[self@.len() - 1 - i],
            ensures
                walk@.len() == self@.len(),
                forall|i: int|
                    0 <= i < walk@.len() ==> *(#[trigger] walk@[i]) == self@[self@.len() - 1 - i],
            decreases lineage_of(cursor).len(),
        {
            let node = match cursor {
                Some(node) => node,
                None => { break ; },
            };
            proof {
                node.lemma_lineage_unfold();
            }
            walk.push(node.get_record());
            cursor = node.get_parent();
        }
        walk
    }

    /// The records from the root down to the leaf, the order in which they are merged.
    pub fn into_vec(self) -> (records: Vec<Arc<T>>)
        ensures
            pointees(records@) == self@,
    {
        let mut walk = self.path();
        let ghost upward = walk@;
        let mut records: Vec<Arc<T>> = Vec::new();
        while walk.len() > 0
            invariant
                walk@.len() + records@.len() == upward.len(),
                walk@ == upward.take(walk@.len() as int),
                forall|i: int|
                    0 <= i < records@.len() ==> #[trigger] records@[i] == upward[upward.len() - 1 - i],
            decreases walk@.len(),
        {
            let handle = walk.pop().unwrap();
            records.push(handle);
        }
        records
    }
}

impl<T> IntoIterator for Cascade<T> {
    type Item = Arc<T>;

    type IntoIter = std::vec::IntoIter<Arc<T>>;

    /// Iterates over the records from the root down to the leaf.
    fn into_iter(self) -> (iter: std::vec::IntoIter<Arc<T>>)
        ensures
            pointees(iter.remaining()) == self@,
    {
        self.into_vec().into_iter()
    }
}

} // verus!
