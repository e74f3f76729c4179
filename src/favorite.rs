use vstd::prelude::*;

verus! {

/// A recurring booking target with default values, as the user lists it in
/// the configuration document.
#[derive(Debug, Clone, PartialEq, Eq)]
pub struct Favorite {
    pub project: usize,
    pub task: usize,
    pub duration: Option<usize>,
    pub comment: Option<String>,
}

} // verus!
