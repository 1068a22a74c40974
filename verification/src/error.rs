//! What can go wrong, and how it is reported.

use vstd::prelude::*;

verus! {

/// The structural problems that validation found in one configuration entry,
/// in the order in which validation reported them.
#[derive(Clone, Debug, PartialEq, Eq)]
pub struct ValidationError {
    pub problems: Vec<String>,
}

impl View for ValidationError {
    type V = Seq<Seq<char>>;

    /// The problems as text.
    open spec fn view(&self) -> Seq<Seq<char>> {
        self.problems@.map_values(|problem: String| problem@)
    }
}

/// An error of the collector core. Every failure is reported as a value; none
/// aborts the process.
#[derive(Clone, Debug, PartialEq, Eq)]
pub enum DuckError {
    /// A configuration entry is unusable. No collector of that entry's
    /// backend is created until the configuration is corrected.
    Validation(ValidationError),
    /// One poll of one collector failed. The text describes the failure for
    /// a human; nothing depends on it.
    Collection(String),
}

/// [`DuckError`] as plain text.
pub enum DuckErrorView {
    Validation(Seq<Seq<char>>),
    Collection(Seq<char>),
}

impl View for DuckError {
    type V = DuckErrorView;

    open spec fn view(&self) -> DuckErrorView {
        match self {
            DuckError::Validation(e) => DuckErrorView::Validation(e@),
            DuckError::Collection(message) => DuckErrorView::Collection(message@),
        }
    }
}

pub type DuckResult<T> = Result<T, DuckError>;

} // verus!
