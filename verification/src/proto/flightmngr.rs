//! Messages of the flight and plane inventory service.

use vstd::prelude::*;

verus! {

/// Asks for a flight by its identifier.
#[derive(Debug, PartialEq)]
pub struct GetFlightRequest {
    pub id: String,
}

/// A flight, as far as the ticket service reads it: the plane assigned to it.
#[derive(Debug, PartialEq)]
pub struct Flight {
    pub plane_id: String,
}

/// Asks for a plane by its identifier.
#[derive(Debug, PartialEq)]
pub struct GetPlaneRequest {
    pub id: String,
}

/// A plane, as far as the ticket service reads it: the seats in its cabin.
#[derive(Clone, Copy, Debug, PartialEq, Eq, Structural)]
pub struct Plane {
    pub cabin_capacity: u32,
}

} // verus!
