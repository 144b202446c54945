//! The two services that the ticket service consults: what it asks of each,
//! and what it makes of the answers. The calls themselves are made by the
//! one who runs the service; a failure of a call is passed on as it came.

use vstd::prelude::*;
use crate::proto::flightmngr::{Flight, GetFlightRequest, GetPlaneRequest};
use crate::proto::ticketsrvc::Ticket;
use crate::proto::validationsvc::{SignTicketRequest, SignTicketResponse};
use crate::status::{Status, StatusView};

verus! {

/// The client of the flight and plane inventory. The plane of a flight is
/// found in two calls: the flight tells its plane, the plane its seats.
#[derive(Clone, Copy, Debug, PartialEq, Eq)]
pub struct FlightManager {}

/// What the answer to the first call leads to: the identifier of the plane to
/// ask for, or the failure.
pub open spec fn plane_request_of(flight: Result<Flight, Status>) -> Result<Seq<char>, StatusView> {
    match flight {
        Ok(flight) => Ok(flight.plane_id@),
        Err(status) => Err(status@),
    }
}

impl FlightManager {
    pub fn new() -> Self {
        FlightManager {  }
    }

    /// The first call on the way to the plane of a flight: the request for
    /// the flight.
    pub fn get_plane_details(&self, flight_id: String) -> (request: GetFlightRequest)
        ensures
            request.id@ == flight_id@,
    {
        GetFlightRequest { id: flight_id }
    }

    /// The second call: the request for the plane that the flight names.
    /// Where the first call failed, its failure is the answer.
    pub fn plane_of(&self, flight: Result<Flight, Status>) -> (request: Result<
        GetPlaneRequest,
        Status,
    >)
        ensures
            match request {
                Ok(request) => plane_request_of(flight) == Ok::<Seq<char>, StatusView>(
                    request.id@,
                ),
                Err(status) => plane_request_of(flight) == Err::<Seq<char>, StatusView>(status@),
            },
    {
        match flight {
            Ok(flight) => Ok(GetPlaneRequest { id: flight.plane_id }),
            Err(status) => Err(status),
        }
    }
}

/// The client of the service that signs tickets.
#[derive(Clone, Copy, Debug, PartialEq, Eq)]
pub struct ValidationService {}

/// What the answer of the signing service means: the signed code, or the
/// failure.
pub open spec fn qr_code_of(response: Result<SignTicketResponse, Status>) -> Result<
    Seq<u8>,
    StatusView,
> {
    match response {
        Ok(response) => Ok(response.qr@),
        Err(status) => Err(status@),
    }
}

impl ValidationService {
    pub fn new() -> Self {
        ValidationService {  }
    }

    /// The request for the signed code of a ticket.
    pub fn make_qr_code(&self, ticket: Ticket) -> (request: SignTicketRequest)
        ensures
            request.ticket matches Some(asked) && asked@ == ticket@,
    {
        SignTicketRequest { ticket: Some(ticket) }
    }

    /// The signed code in the answer of the signing service. Where the call
    /// failed, its failure is the answer.
    pub fn qr_code(&self, response: Result<SignTicketResponse, Status>) -> (qr: Result<
        Vec<u8>,
        Status,
    >)
        ensures
            match qr {
                Ok(qr) => qr_code_of(response) == Ok::<Seq<u8>, StatusView>(qr@),
                Err(status) => qr_code_of(response) == Err::<Seq<u8>, StatusView>(status@),
            },
    {
        match response {
            Ok(response) => Ok(response.qr),
            Err(status) => Err(status),
        }
    }
}

} // verus!
