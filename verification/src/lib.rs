//! Typed decoding of attribute records from a geospatial vector source.
//!
//! A record source hands out loosely typed records: named fields that may be
//! missing, null, or fail to fetch, plus an optional geometry and an optional
//! numeric identifier.  This crate lets a consumer declare once which named
//! fields a target type needs, and then mechanically turns raw records into
//! strongly typed values, surfacing per-field absence and per-field type
//! mismatch as distinct, recoverable outcomes.

use vstd::prelude::*;

pub mod country;
pub mod dataset;
pub mod feature;
pub mod value;

pub use feature::{FeatureTrait, FieldResult};

verus! {

/// The shared error taxonomy: a source-level failure, a null where a value
/// was required, or a value of the wrong concrete kind.
///
/// All three are cloneable so that a single resolution-time failure can be
/// fanned out across every record of a batch without asking the source again.
#[derive(Debug, PartialEq)]
pub enum GdalTraitError {
    /// An opaque failure reported by the underlying data source, with a
    /// human-readable description.
    GdalError(String),
    /// A field that must carry a value was null.
    NullField,
    /// A field carried a value whose kind does not match the requested one;
    /// the text describes the expected and the found kind.
    InvalidFieldValue(String),
}

/// The specification-level picture of a [`GdalTraitError`]: the same three
/// kinds, with every description abstracted to its character sequence.
pub enum GdalTraitErrorModel {
    GdalError(Seq<char>),
    NullField,
    InvalidFieldValue(Seq<char>),
}

impl DeepView for GdalTraitError {
    type V = GdalTraitErrorModel;

    open spec fn deep_view(&self) -> GdalTraitErrorModel {
        match self {
            GdalTraitError::GdalError(s) => GdalTraitErrorModel::GdalError(s@),
            GdalTraitError::NullField => GdalTraitErrorModel::NullField,
            GdalTraitError::InvalidFieldValue(s) => GdalTraitErrorModel::InvalidFieldValue(s@),
        }
    }
}

impl View for GdalTraitError {
    type V = GdalTraitErrorModel;

    open spec fn view(&self) -> GdalTraitErrorModel {
        self.deep_view()
    }
}

impl Clone for GdalTraitError {
    /// A clone is the very same error, so a resolution failure can be reused
    /// for every record of a batch.
    fn clone(&self) -> (r: Self)
        ensures
            r == *self,
    {
        match self {
            GdalTraitError::GdalError(s) => GdalTraitError::GdalError(s.clone()),
            GdalTraitError::NullField => GdalTraitError::NullField,
            GdalTraitError::InvalidFieldValue(s) => GdalTraitError::InvalidFieldValue(s.clone()),
        }
    }
}

} // verus!
