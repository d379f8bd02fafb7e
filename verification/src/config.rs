//! Reading the settings that come from the environment.

use vstd::prelude::*;
use crate::text::same_text;

verus! {

/// Whether development mode is on, given the value of `DEV_MODE` if it is
/// set: only the exact text `true` turns it on; anything else, or no value,
/// leaves it off.
pub fn dev_mode_enabled(value: Option<&str>) -> (r: bool)
    ensures
        r == (value matches Some(v) && v@ == "true"@),
{
    match value {
        Some(v) => same_text(v, "true"),
        None => false,
    }
}

} // verus!
