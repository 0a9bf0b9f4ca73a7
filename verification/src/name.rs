//! Mock personal names.

use crate::data::name::{FIRST, LAST};
use crate::misc::{offers, random_data};
use vstd::prelude::*;

verus! {

/// A random given name.
pub fn first() -> (s: String)
    ensures
        offers(FIRST@, s@),
{
    random_data(&FIRST)
}

/// A random family name.
pub fn last() -> (s: String)
    ensures
        offers(LAST@, s@),
{
    random_data(&LAST)
}

} // verus!
