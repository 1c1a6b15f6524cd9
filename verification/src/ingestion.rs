//! What a listing of the journal's ingestions is asked to show.

use vstd::prelude::*;

verus! {

/// A request to list the ingestions that were stored.
#[derive(Debug)]
pub struct ListIngestion {
    /// Show only the ingestions of the substance with this name; all of them
    /// where there is none.
    pub substance_name: Option<String>,
}

} // verus!
