//! The tick identifier comes from the `tick_id` crate; its value is the
//! one number that the buffer's logic reads.

use tick_id::TickId;
use vstd::prelude::*;

verus! {

#[verifier::external_type_specification]
#[verifier::external_body]
pub struct ExTickId(TickId);

/// The `u32` counter that a `TickId` holds.
pub uninterp spec fn tick_value(t: TickId) -> u32;

/// Relies on `TickId::new`, which wraps the given counter value.
pub assume_specification[ TickId::new ](value: u32) -> (r: TickId)
    ensures
        tick_value(r) == value,
;

/// Relies on `TickId::value`, which returns the wrapped counter value.
pub assume_specification[ TickId::value ](t: &TickId) -> (r: u32)
    ensures
        r == tick_value(*t),
;

} // verus!
