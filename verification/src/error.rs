//! Error reporting for chart construction.

use vstd::prelude::*;

verus! {

/// What went wrong.
#[derive(Debug, Clone, Copy, PartialEq, Eq, Structural)]
pub enum ErrorKind {
    /// The chosen data axis cannot live in the chosen coordinate system.
    IncompatibleOrientationAndDataAxis,
    /// A dataset added to a chart does not match the existing datasets.
    DatasetToAddIsNotTheSameLengthAsExistingDatasets,
}

/// An error raised by the chart library, carrying its kind and a
/// human-readable description.
#[derive(Debug)]
pub struct ChartsLibError {
    kind: ErrorKind,
    description: String,
}

impl ChartsLibError {
    /// The kind, as a spec-level value.
    pub closed spec fn spec_kind(&self) -> ErrorKind {
        self.kind
    }

    /// The description, as a spec-level value.
    pub closed spec fn spec_description(&self) -> Seq<char> {
        self.description@
    }

    pub fn new(kind: ErrorKind, description: String) -> (r: ChartsLibError)
        ensures
            r.spec_kind() == kind,
            r.spec_description() == description@,
    {
        ChartsLibError { kind, description }
    }

    pub fn kind(&self) -> (r: ErrorKind)
        ensures
            r == self.spec_kind(),
    {
        self.kind
    }

    /// The human-readable description of the error.
    pub fn description(&self) -> (r: &String)
        ensures
            r@ == self.spec_description(),
    {
        &self.description
    }
}

} // verus!
