//! Records of the sales database.
use vstd::prelude::*;

verus! {

/// A skin of the catalogue; name and class are filled in when known.
#[derive(Debug)]
pub struct Skin {
    pub id: i32,
    pub name: Option<String>,
    pub class_id: Option<String>,
}

} // verus!
