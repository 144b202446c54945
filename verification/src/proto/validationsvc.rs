//! Messages of the service that signs tickets.

use vstd::prelude::*;
use crate::proto::ticketsrvc::Ticket;

verus! {

/// Asks for the signed code of a ticket.
#[derive(Debug, PartialEq)]
pub struct SignTicketRequest {
    pub ticket: Option<Ticket>,
}

/// The signed code, as the bytes of an image.
#[derive(Debug, PartialEq)]
pub struct SignTicketResponse {
    pub qr: Vec<u8>,
}

} // verus!
