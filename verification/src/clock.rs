//! The wall clock, read through `chrono`.

use vstd::prelude::*;

verus! {

/// `chrono::NaiveDateTime`, carried through the library as an opaque value.
#[verifier::external_type_specification]
#[verifier::external_body]
pub struct ExNaiveDateTime(chrono::NaiveDateTime);

/// `NaiveDateTime` derives `Copy` and `Clone`: a clone is the same date and
/// time.
pub assume_specification[ <chrono::NaiveDateTime as Clone>::clone ](
    value: &chrono::NaiveDateTime,
) -> (copy: chrono::NaiveDateTime)
    ensures
        copy == *value,
;

/// Calls `chrono::Utc::now` and takes its naive UTC date and time. The value
/// depends on the machine's clock, so nothing is claimed of it.
#[verifier::external_body]
pub(crate) fn current_time() -> chrono::NaiveDateTime {
    chrono::Utc::now().naive_utc()
}

} // verus!
