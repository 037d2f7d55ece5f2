//! Named selections of GPU resources.

use vstd::prelude::*;

verus! {

/// A selected combination of a pipeline, a bind group layout and a bind
/// group, each identified by its label.
#[derive(Debug)]
pub struct RenderCombo {
    pub name: String,
    pub pipeline: String,
    pub bglayout: String,
    pub bindgroup: String,
}

} // verus!
