//! The one ambient fact the library reads: the current wall-clock second.
use vstd::prelude::*;

verus! {

/// Relies on jiff::Timestamp::now and jiff::Timestamp::as_second: the
/// current wall-clock time as whole seconds since the Unix epoch. Nothing
/// can be promised about the clock's value, only that it lies within the
/// range a jiff timestamp can represent.
#[verifier::external_body]
pub fn now_second() -> (r: i64)
    ensures
        crate::valid_second(r),
{
    jiff::Timestamp::now().as_second()
}

} // verus!
