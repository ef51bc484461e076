//! The record types bound from request data, and the one validation rule
//! among them: an age field that accepts only adults.

use vstd::prelude::*;
use crate::numbers::parse_usize;
use crate::numbers::usize_parse_ok;
use crate::numbers::usize_parse_val;

verus! {

/// A user record bound from a form or a JSON body.
pub struct User {
    pub name: String,
    pub account: usize,
}

/// A task record bound from a form; on the wire the `api_type` field is
/// named `type`.
pub struct Task {
    pub description: String,
    pub api_type: String,
}

/// The least age the `AdultAge` field accepts.
pub const ADULT_MIN: usize = 21;

/// An age that has been checked to be at least `ADULT_MIN`.
pub struct AdultAge(pub usize);

impl AdultAge {
    /// Every value of this type that `from_form_value` built satisfies this.
    pub open spec fn wf(self) -> bool {
        self.0 >= ADULT_MIN
    }

    /// Reads a raw form value as an age. Succeeds exactly on the strings
    /// that parse as an unsigned integer of at least `ADULT_MIN`; any other
    /// input fails and is handed back unchanged as the error.
    pub fn from_form_value<'v>(form_value: &'v str) -> (r: Result<AdultAge, &'v str>)
        ensures
            r is Ok <==> usize_parse_ok(form_value@) && usize_parse_val(form_value@)
                >= ADULT_MIN,
            r matches Ok(a) ==> a.0 == usize_parse_val(form_value@) && a.wf(),
            r matches Err(e) ==> e@ == form_value@,
    {
        match parse_usize(form_value) {
            Some(age) => {
                if age >= ADULT_MIN {
                    Ok(AdultAge(age))
                } else {
                    Err(form_value)
                }
            },
            None => Err(form_value),
        }
    }
}

/// A person as bound from a form: just a checked age.
pub struct Person {
    pub age: AdultAge,
}

} // verus!
