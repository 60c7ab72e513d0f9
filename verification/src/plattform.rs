//! The platforms through which bookings arrive.

use vstd::prelude::*;
use crate::moment::DateTime;

verus! {

/// A channel that sells bookings.
#[derive(Debug, PartialEq, Eq)]
pub struct Platform {
    pub id: i32,
    pub plattform_name: String,
    pub created_at: DateTime,
    pub updated_at: DateTime,
}

} // verus!
