//! The sort order a listing request may ask for: one of a small closed set
//! of keys, defaulting to ascending by name.

use crate::text::str_eq;
use vstd::prelude::*;

verus! {

/// A validated sort order for listing records.
#[derive(Clone, Debug)]
pub struct SortKey(pub String);

/// The accepted sort orders.
pub open spec fn sort_key_ok(s: Seq<char>) -> bool {
    s == "name asc"@ || s == "name desc"@ || s == "time asc"@ || s == "time desc"@
}

/// The rejection of a sort field that names no accepted order.
#[derive(Clone, Copy, Debug)]
pub struct SortKeyError;

impl SortKeyError {
    /// The user-facing message listing the accepted orders.
    pub fn message(&self) -> (r: String)
        ensures
            r@ == "must be one of [name asc, name desc, time asc, time desc]"@,
    {
        "must be one of [name asc, name desc, time asc, time desc]".to_owned()
    }
}

impl SortKey {
    /// Accepts exactly the four known sort orders, keeping the accepted
    /// value; anything else is rejected.
    pub fn from_value(field: &str) -> (r: Result<SortKey, SortKeyError>)
        ensures
            sort_key_ok(field@) ==> (r matches Ok(k) && k.0@ == field@),
            !sort_key_ok(field@) ==> r is Err,
    {
        if str_eq(field, "name asc") || str_eq(field, "name desc") || str_eq(field, "time asc")
            || str_eq(field, "time desc") {
            Ok(SortKey(field.to_owned()))
        } else {
            Err(SortKeyError)
        }
    }
}

impl Default for SortKey {
    /// The order used when the request names none: ascending by name.
    fn default() -> (r: Self)
        ensures
            r.0@ == "name asc"@,
    {
        SortKey("name asc".to_owned())
    }
}

} // verus!
