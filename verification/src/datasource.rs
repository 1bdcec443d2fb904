//! Data sources: where a collection comes from.

use vstd::prelude::*;

use crate::collection::Collection;
use crate::error::GeneratorError;

verus! {

/// Something that can supply a collection: a base record and its overrides.
/// A source hands out the whole collection, or the reason why it has none.
pub trait DataSource {
    fn fetch(&self) -> Result<Collection, GeneratorError>;
}

} // verus!
