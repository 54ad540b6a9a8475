//! Shared default values for object-form fields.

use vstd::prelude::*;

verus! {

/// The default for the boolean sub-fields of an object-form Mach service:
/// both options are off unless set.
pub fn default_false() -> (r: bool)
    ensures
        r == false,
{
    false
}

} // verus!
