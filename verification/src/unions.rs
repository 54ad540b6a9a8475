//! Union value types: tagged sums whose rendered form is always the bare
//! encoding of the active variant, never a wrapper dictionary.
//!
//! On decoding, the integer variant of [`StringOrU32`] is the canonical first
//! candidate for a numeral, so a string that spells a number stays a number
//! only if it was stored as the integer variant; this crate renders each
//! variant as itself, so the choice is visible in the stored value.

use vstd::prelude::*;

use crate::value::{PlistValue, SpecValue, spec_value_of, str_arr};

verus! {

/// Either a string or a 32-bit unsigned integer, used for the umask and for
/// socket service names.
#[derive(Clone)]
pub enum StringOrU32 {
    String(String),
    Integer(u32),
}

/// The rendered form of a [`StringOrU32`]: the bare active variant.
pub open spec fn string_or_u32_value(v: StringOrU32) -> SpecValue {
    match v {
        StringOrU32::String(s) => SpecValue::Str(s@),
        StringOrU32::Integer(x) => SpecValue::Int(x as int),
    }
}

impl StringOrU32 {
    /// Renders the active variant with no surrounding tag.
    pub fn to_value(&self) -> (r: PlistValue)
        ensures
            r@ == string_or_u32_value(*self),
    {
        match self {
            StringOrU32::String(s) => PlistValue::String(s.clone()),
            StringOrU32::Integer(x) => PlistValue::Integer(*x as i64),
        }
    }
}

/// The rendered form determines the variant and its content: equal renderings
/// come only from the same variant holding equal content.
pub proof fn lemma_string_or_u32_value_injective(a: StringOrU32, b: StringOrU32)
    requires
        string_or_u32_value(a) == string_or_u32_value(b),
    ensures
        a matches StringOrU32::String(x) ==> (b matches StringOrU32::String(y) && x@ == y@),
        a matches StringOrU32::Integer(x) ==> (b matches StringOrU32::Integer(y) && x == y),
{
}

/// Either one string or a list of strings, used for one-or-many name fields.
#[derive(Clone)]
pub enum StringOrVec {
    String(String),
    Vec(Vec<String>),
}

/// The rendered form of a [`StringOrVec`]: the bare active variant.
pub open spec fn string_or_vec_value(v: StringOrVec) -> SpecValue {
    match v {
        StringOrVec::String(s) => SpecValue::Str(s@),
        StringOrVec::Vec(a) => str_arr(a@),
    }
}

impl StringOrVec {
    /// Renders the active variant with no surrounding tag.
    pub fn to_value(&self) -> (r: PlistValue)
        ensures
            r@ == string_or_vec_value(*self),
    {
        match self {
            StringOrVec::String(s) => PlistValue::String(s.clone()),
            StringOrVec::Vec(a) => crate::value::str_vec_value(a),
        }
    }
}

/// The rendered form determines the variant and its content: equal renderings
/// come only from the same variant holding equal content.
pub proof fn lemma_string_or_vec_value_injective(a: StringOrVec, b: StringOrVec)
    requires
        string_or_vec_value(a) == string_or_vec_value(b),
    ensures
        a matches StringOrVec::String(x) ==> (b matches StringOrVec::String(y) && x@ == y@),
        a matches StringOrVec::Vec(x) ==> (b matches StringOrVec::Vec(y)
            && x.deep_view() == y.deep_view()),
{
    match (a, b) {
        (StringOrVec::Vec(x), StringOrVec::Vec(y)) => {
            let fx = x@.map_values(|s: String| SpecValue::Str(s@));
            let fy = y@.map_values(|s: String| SpecValue::Str(s@));
            assert(fx == fy);
            assert forall|i: int| 0 <= i < x@.len() implies x@[i]@ == y@[i]@ by {
                assert(fx[i] == fy[i]);
            }
            assert(x.deep_view() =~= y.deep_view());
        },
        _ => {},
    }
}

} // verus!
