//! Messages of the ticket service itself.

use vstd::prelude::*;
use crate::proto::protobuf::{FieldMask, Timestamp};
use crate::text::str_equal;

verus! {

/// The state of a ticket's life.
#[derive(Clone, Copy, Debug, PartialEq, Eq, Structural)]
pub enum TicketStatus {
    /// No state was given; the default.
    Unspecified,
    /// The ticket is in force.
    Valid,
    /// The ticket was deleted and is kept for the record.
    Deleted,
}

/// The name under which a state is stored.
pub open spec fn status_name(status: TicketStatus) -> Seq<char> {
    match status {
        TicketStatus::Unspecified => "UNSPECIFIED"@,
        TicketStatus::Valid => "VALID"@,
        TicketStatus::Deleted => "DELETED"@,
    }
}

/// The number that stands for a state on the wire.
pub open spec fn status_number(status: TicketStatus) -> int {
    match status {
        TicketStatus::Unspecified => 0,
        TicketStatus::Valid => 1,
        TicketStatus::Deleted => 2,
    }
}

/// The state that a stored name stands for, if it is the name of one.
pub open spec fn status_of_name(name: Seq<char>) -> Option<TicketStatus> {
    if name == "UNSPECIFIED"@ {
        Some(TicketStatus::Unspecified)
    } else if name == "VALID"@ {
        Some(TicketStatus::Valid)
    } else if name == "DELETED"@ {
        Some(TicketStatus::Deleted)
    } else {
        None
    }
}

/// The state that a number on the wire stands for, if it stands for one.
pub open spec fn status_of_number(number: int) -> Option<TicketStatus> {
    if number == 0 {
        Some(TicketStatus::Unspecified)
    } else if number == 1 {
        Some(TicketStatus::Valid)
    } else if number == 2 {
        Some(TicketStatus::Deleted)
    } else {
        None
    }
}

impl TicketStatus {
    pub fn as_str_name(&self) -> (name: &'static str)
        ensures
            name@ == status_name(*self),
    {
        match self {
            TicketStatus::Unspecified => "UNSPECIFIED",
            TicketStatus::Valid => "VALID",
            TicketStatus::Deleted => "DELETED",
        }
    }

    pub fn from_str_name(name: &str) -> (status: Option<TicketStatus>)
        ensures
            status == status_of_name(name@),
    {
        if str_equal(name, "UNSPECIFIED") {
            Some(TicketStatus::Unspecified)
        } else if str_equal(name, "VALID") {
            Some(TicketStatus::Valid)
        } else if str_equal(name, "DELETED") {
            Some(TicketStatus::Deleted)
        } else {
            None
        }
    }

    /// The number of this state on the wire.
    pub fn number(&self) -> (number: i32)
        ensures
            number == status_number(*self),
    {
        match self {
            TicketStatus::Unspecified => 0,
            TicketStatus::Valid => 1,
            TicketStatus::Deleted => 2,
        }
    }

    /// The state that a number on the wire stands for; a number that stands
    /// for none is refused.
    pub fn try_from(number: i32) -> (status: Option<TicketStatus>)
        ensures
            status == status_of_number(number as int),
    {
        if number == 0 {
            Some(TicketStatus::Unspecified)
        } else if number == 1 {
            Some(TicketStatus::Valid)
        } else if number == 2 {
            Some(TicketStatus::Deleted)
        } else {
            None
        }
    }
}

impl Default for TicketStatus {
    fn default() -> (status: TicketStatus)
        ensures
            status == TicketStatus::Unspecified,
    {
        TicketStatus::Unspecified
    }
}

/// The details of the passenger a ticket is issued to.
#[derive(Debug, PartialEq)]
pub struct PassengerDetails {
    pub ssn: String,
    pub name: String,
    pub surname: String,
    pub birth_date: Option<Timestamp>,
    pub email: String,
}

/// What a [`PassengerDetails`] message says.
pub struct PassengerDetailsView {
    pub ssn: Seq<char>,
    pub name: Seq<char>,
    pub surname: Seq<char>,
    pub birth_date: Option<Timestamp>,
    pub email: Seq<char>,
}

impl View for PassengerDetails {
    type V = PassengerDetailsView;

    open spec fn view(&self) -> PassengerDetailsView {
        PassengerDetailsView {
            ssn: self.ssn@,
            name: self.name@,
            surname: self.surname@,
            birth_date: self.birth_date,
            email: self.email@,
        }
    }
}

impl Clone for PassengerDetails {
    fn clone(&self) -> (copy: Self)
        ensures
            copy@ == self@,
    {
        PassengerDetails {
            ssn: self.ssn.clone(),
            name: self.name.clone(),
            surname: self.surname.clone(),
            birth_date: self.birth_date,
            email: self.email.clone(),
        }
    }
}

/// A ticket as callers see it.
#[derive(Debug, PartialEq)]
pub struct Ticket {
    pub id: String,
    pub flight_id: String,
    pub url: String,
    pub passenger: Option<PassengerDetails>,
    pub reservation_datetime: Option<Timestamp>,
    pub estimated_cargo_weight: u32,
    pub ticket_status: i32,
}

/// What a [`Ticket`] message says.
pub struct TicketView {
    pub id: Seq<char>,
    pub flight_id: Seq<char>,
    pub url: Seq<char>,
    pub passenger: Option<PassengerDetailsView>,
    pub reservation_datetime: Option<Timestamp>,
    pub estimated_cargo_weight: u32,
    pub ticket_status: i32,
}

/// What an optional passenger message says.
pub open spec fn passenger_view(passenger: Option<PassengerDetails>) -> Option<
    PassengerDetailsView,
> {
    match passenger {
        Some(p) => Some(p@),
        None => None,
    }
}

impl View for Ticket {
    type V = TicketView;

    open spec fn view(&self) -> TicketView {
        TicketView {
            id: self.id@,
            flight_id: self.flight_id@,
            url: self.url@,
            passenger: passenger_view(self.passenger),
            reservation_datetime: self.reservation_datetime,
            estimated_cargo_weight: self.estimated_cargo_weight,
            ticket_status: self.ticket_status,
        }
    }
}

/// The message in which nothing is set.
pub open spec fn empty_ticket() -> TicketView {
    TicketView {
        id: Seq::empty(),
        flight_id: Seq::empty(),
        url: Seq::empty(),
        passenger: None,
        reservation_datetime: None,
        estimated_cargo_weight: 0,
        ticket_status: 0,
    }
}

impl Clone for Ticket {
    fn clone(&self) -> (copy: Self)
        ensures
            copy@ == self@,
    {
        let passenger = match &self.passenger {
            Some(p) => Some(p.clone()),
            None => None,
        };
        Ticket {
            id: self.id.clone(),
            flight_id: self.flight_id.clone(),
            url: self.url.clone(),
            passenger,
            reservation_datetime: self.reservation_datetime,
            estimated_cargo_weight: self.estimated_cargo_weight,
            ticket_status: self.ticket_status,
        }
    }
}

impl Default for Ticket {
    fn default() -> (ticket: Ticket)
        ensures
            ticket@ == empty_ticket(),
    {
        Ticket {
            id: String::new(),
            flight_id: String::new(),
            url: String::new(),
            passenger: None,
            reservation_datetime: None,
            estimated_cargo_weight: 0,
            ticket_status: 0,
        }
    }
}

/// What a list of ticket messages says, in order.
pub open spec fn ticket_views(tickets: Seq<Ticket>) -> Seq<TicketView> {
    tickets.map_values(|t: Ticket| t@)
}

/// Asks for the tickets, of one flight or of all.
#[derive(Debug, PartialEq)]
pub struct ListTicketsRequest {
    pub include_nonvalid: bool,
    pub flight_id: Option<String>,
}

/// The tickets that were asked for.
#[derive(Debug, PartialEq)]
pub struct TicketList {
    pub tickets: Vec<Ticket>,
}

/// The key by which one ticket is asked for.
#[derive(Debug, PartialEq)]
pub enum Query {
    /// The identifier, as hexadecimal digits.
    Id(String),
    /// The lookup token.
    Url(String),
}

/// Asks for one ticket.
#[derive(Debug, PartialEq)]
pub struct GetTicketRequest {
    pub query: Option<Query>,
    pub allow_nonvalid: bool,
}

/// A ticket with its signed code.
#[derive(Debug, PartialEq)]
pub struct GetTicketWithQrCodeResponse {
    pub qr_code: Vec<u8>,
    pub ticket: Option<Ticket>,
}

/// Asks for a new ticket.
#[derive(Debug, PartialEq)]
pub struct CreateTicketRequest {
    pub ticket: Option<Ticket>,
}

/// Asks for a ticket to be deleted.
#[derive(Debug, PartialEq)]
pub struct DeleteTicketRequest {
    pub id: String,
}

/// Asks for the passenger details of a ticket to be changed: the new values
/// and the mask that says which of them count.
#[derive(Debug, PartialEq)]
pub struct UpdateTicketRequest {
    pub id: String,
    pub update: Option<Ticket>,
    pub update_mask: Option<FieldMask>,
}

/// Asks how full a flight is.
#[derive(Debug, PartialEq)]
pub struct GetFlightStatisticsRequest {
    pub flight_id: String,
}

/// How full a flight is.
#[derive(Clone, Copy, Debug, PartialEq, Eq, Structural)]
pub struct FlightStatistics {
    pub total_seats: u32,
    pub reserved_seats: u32,
}

} // verus!
