//! Naming a layer within a dataset.

use vstd::prelude::*;

verus! {

/// A layer of a dataset can be named either by its index or by its name.
pub enum DatasetLayer {
    Name(String),
    Index(usize),
}

/// Marker contract for types that are decoded from a whole dataset rather
/// than from a single layer.
pub trait DatasetTrait {}

} // verus!
