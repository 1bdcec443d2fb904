//! Lineage nodes: one record each, and an ancestry slot that is filled at most once.

use std::sync::Arc;
use vstd::prelude::*;

use crate::error::GeneratorError;

verus! {

/// `Arc::clone` of the standard library: a second handle to the same allocation,
/// so the value behind the result is the value behind the argument.
#[verifier::external_body]
pub(crate) fn share<T>(handle: &Arc<T>) -> (shared: Arc<T>)
    ensures
        shared == *handle,
{
    Arc::clone(handle)
}

/// One record of a lineage together with the link to the node it refines.
///
/// The link starts empty and is filled at most once, while the node still has a
/// single owner. A node knows its parent and never its children, and since a
/// parent exists before anything is attached to it, no node is its own ancestor.
#[derive(Debug)]
pub struct LineageNode<T> {
    record: Arc<T>,
    parent: Option<Arc<LineageNode<T>>>,
}

impl<T> LineageNode<T> {
    /// The record this node owns.
    pub closed spec fn record(&self) -> T {
        *self.record
    }

    /// The node this one refines, if its ancestry slot is filled.
    pub closed spec fn ancestry(&self) -> Option<LineageNode<T>> {
        match self.parent {
            Some(p) => Some(*p),
            None => None,
        }
    }

    /// The records from the root down to this node.
    pub closed spec fn lineage(&self) -> Seq<T>
        decreases self,
    {
        match self.parent {
            Some(p) => p.lineage().push(*self.record),
            None => seq![*self.record],
        }
    }

    /// An unattached node for `record`.
    pub fn create(record: T) -> (node: Self)
        ensures
            node.record() == record,
            node.ancestry() is None,
    {
        LineageNode { record: Arc::new(record), parent: None }
    }

    /// Fills the ancestry slot with `parent`, once. A second attempt is refused
    /// and leaves the node as it was.
    pub fn attach(&mut self, parent: Arc<LineageNode<T>>) -> (outcome: Result<(), GeneratorError>)
        ensures
            old(self).ancestry() is Some ==> outcome is Err
                && outcome->Err_0 is AncestryAlreadySet
                && *final(self) == *old(self),
            old(self).ancestry() is None ==> outcome is Ok
                && final(self).ancestry() == Some(*parent)
                && final(self).record() == old(self).record(),
    {
        if self.parent.is_some() {
            return Err(GeneratorError::AncestryAlreadySet);
        }
        self.parent = Some(parent);
        Ok(())
    }

    /// The node this one refines, if any. Reading it changes nothing.
    pub fn get_parent(&self) -> (found: Option<Arc<LineageNode<T>>>)
        ensures
            found is Some <==> self.ancestry() is Some,
            found matches Some(p) ==> self.ancestry() == Some(*p),
    {
        match &self.parent {
            Some(p) => Some(share(p)),
            None => None,
        }
    }

    /// A shared handle to this node's record.
    pub fn get_record(&self) -> (shared: Arc<T>)
        ensures
            *shared == self.record(),
    {
        share(&self.record)
    }

    /// The lineage of a node is its parent's lineage followed by its own record;
    /// a root's lineage is its record alone.
    pub proof fn lemma_lineage_unfold(&self)
        ensures
            self.ancestry() is None ==> self.lineage() == seq![self.record()],
            self.ancestry() matches Some(p) ==> self.lineage() == p.lineage().push(self.record()),
            self.lineage().len() == self.depth() + 1,
            self.lineage().last() == self.record(),
        decreases self,
    {
        match self.parent {
            Some(p) => {
                p.lemma_lineage_unfold();
            },
            None => {},
        }
    }

    /// How many ancestry links lead from this node up to its root.
    pub closed spec fn depth(&self) -> nat
        decreases self,
    {
        match self.parent {
            Some(p) => p.depth() + 1,
            None => 0,
        }
    }

    /// Following ancestry links ends at a root after finitely many steps: each
    /// link leads to a node of lesser depth, and a node without a parent has
    /// depth zero. So no node is among its own ancestors.
    pub proof fn lemma_ancestry_ends_at_root(&self)
        ensures
            self.ancestry() is None <==> self.depth() == 0,
            self.ancestry() matches Some(p) ==> p.depth() + 1 == self.depth(),
    {
    }
}

} // verus!
