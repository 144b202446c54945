//! The mapping between ticket records and ticket messages.

use vstd::prelude::*;
use vstd::std_specs::convert::{FromSpecImpl, TryFromSpecImpl};
use crate::bson::{hex_of_bytes, ObjectId};
use crate::datautils::{
    convert_datetime_to_timestamp, convert_timestamp_to_datetime, datetime_of_timestamp,
    timestamp_of_millis, timestamp_round_trip,
};
use crate::proto::ticketsrvc;
use crate::proto::ticketsrvc::{
    status_name, status_number, status_of_name, status_of_number, TicketStatus,
};
use crate::status::{Code, Status, StatusView};
use crate::tickets::data;

verus! {

/// The state that a stored name stands for; a name of no state stands for the
/// default.
pub open spec fn stored_status(name: Seq<char>) -> TicketStatus {
    match status_of_name(name) {
        Some(status) => status,
        None => TicketStatus::Unspecified,
    }
}

/// The message that shows a record: the identifier in hexadecimal digits, the
/// times as wire timestamps, the state by its number.
pub open spec fn to_wire(t: data::TicketView) -> ticketsrvc::TicketView {
    ticketsrvc::TicketView {
        id: hex_of_bytes(t.id),
        flight_id: t.flight_id,
        url: t.url,
        passenger: Some(
            ticketsrvc::PassengerDetailsView {
                ssn: t.passenger.ssn,
                name: t.passenger.name,
                surname: t.passenger.surname,
                birth_date: Some(timestamp_of_millis(t.passenger.birth_date)),
                email: t.passenger.email,
            },
        ),
        reservation_datetime: Some(timestamp_of_millis(t.reservation_datetime)),
        estimated_cargo_weight: t.estimated_cargo_weight,
        ticket_status: status_number(stored_status(t.ticket_status)) as i32,
    }
}

/// Why a message cannot become a record, if it cannot: the passenger is
/// missing, the state is none that exists, or a time is missing or beyond
/// the stored range, looked for in this order.
pub open spec fn wire_fault(t: ticketsrvc::TicketView) -> Option<StatusView> {
    match t.passenger {
        None => Some(
            StatusView { code: Code::InvalidArgument, message: "missing passenger details"@ },
        ),
        Some(p) => if status_of_number(t.ticket_status as int) is None {
            Some(StatusView { code: Code::InvalidArgument, message: "invalid ticket status"@ })
        } else {
            match datetime_of_timestamp(p.birth_date) {
                Err(status) => Some(status),
                Ok(_) => match datetime_of_timestamp(t.reservation_datetime) {
                    Err(status) => Some(status),
                    Ok(_) => None,
                },
            }
        },
    }
}

/// The passenger of the record that a faultless message becomes.
pub open spec fn passenger_of(t: ticketsrvc::TicketView) -> data::PassengerView {
    data::PassengerView {
        ssn: t.passenger->0.ssn,
        name: t.passenger->0.name,
        surname: t.passenger->0.surname,
        birth_date: datetime_of_timestamp(t.passenger->0.birth_date)->Ok_0,
        email: t.passenger->0.email,
    }
}

/// The record that a faultless message becomes under a given identifier. The
/// identifier in the message itself is not read; the lookup token is taken
/// over as it stands.
pub open spec fn record_of(t: ticketsrvc::TicketView, id: Seq<u8>) -> data::TicketView {
    data::TicketView {
        id,
        url: t.url,
        flight_id: t.flight_id,
        passenger: passenger_of(t),
        reservation_datetime: datetime_of_timestamp(t.reservation_datetime)->Ok_0,
        estimated_cargo_weight: t.estimated_cargo_weight,
        ticket_status: status_name(status_of_number(t.ticket_status as int)->0),
    }
}

/// What reading a message under a given identifier gives.
pub open spec fn from_wire(t: ticketsrvc::TicketView, id: Seq<u8>) -> Result<
    data::TicketView,
    StatusView,
> {
    match wire_fault(t) {
        Some(status) => Err(status),
        None => Ok(record_of(t, id)),
    }
}

/// What a result says, its values taken by their views.
pub open spec fn record_result_view(r: Result<data::Ticket, Status>) -> Result<
    data::TicketView,
    StatusView,
> {
    match r {
        Ok(ticket) => Ok(ticket@),
        Err(status) => Err(status@),
    }
}

/// What an optional status says.
pub open spec fn optional_status(status: Option<Status>) -> Option<StatusView> {
    match status {
        Some(status) => Some(status@),
        None => None,
    }
}

/// Why a message cannot become a record, if it cannot.
pub fn fault_of(t: &ticketsrvc::Ticket) -> (fault: Option<Status>)
    ensures
        optional_status(fault) == wire_fault(t@),
{
    let p = match &t.passenger {
        Some(p) => p,
        None => {
            return Some(Status::invalid_argument("missing passenger details"));
        },
    };
    if TicketStatus::try_from(t.ticket_status).is_none() {
        return Some(Status::invalid_argument("invalid ticket status"));
    }
    match convert_timestamp_to_datetime(p.birth_date) {
        Ok(_) => {},
        Err(status) => {
            return Some(status);
        },
    }
    match convert_timestamp_to_datetime(t.reservation_datetime) {
        Ok(_) => None,
        Err(status) => Some(status),
    }
}

impl From<data::Ticket> for ticketsrvc::Ticket {
    fn from(t: data::Ticket) -> (message: Self)
        ensures
            message@ == to_wire(t@),
    {
        let p = t.passenger;
        let ticket_status = match TicketStatus::from_str_name(t.ticket_status.as_str()) {
            Some(status) => status,
            None => TicketStatus::default(),
        }.number();

        ticketsrvc::Ticket {
            id: t._id.to_hex(),
            flight_id: t.flight_id,
            url: t.url,
            passenger: Some(
                ticketsrvc::PassengerDetails {
                    ssn: p.ssn,
                    name: p.name,
                    surname: p.surname,
                    birth_date: convert_datetime_to_timestamp(p.birth_date),
                    email: p.email,
                },
            ),
            reservation_datetime: convert_datetime_to_timestamp(t.reservation_datetime),
            estimated_cargo_weight: t.estimated_cargo_weight,
            ticket_status,
        }
    }
}

/// The conversion is stated with `from` itself, over what the values say; no
/// message is named as the one that a record becomes.
impl FromSpecImpl<data::Ticket> for ticketsrvc::Ticket {
    open spec fn obeys_from_spec() -> bool {
        false
    }

    open spec fn from_spec(t: data::Ticket) -> ticketsrvc::Ticket {
        arbitrary()
    }
}

impl data::Ticket {
    /// Reads a message as a record with the given identifier.
    pub fn from_wire(t: ticketsrvc::Ticket, id: ObjectId) -> (read: Result<data::Ticket, Status>)
        ensures
            record_result_view(read) == from_wire(t@, id@),
    {
        let p = match t.passenger {
            Some(p) => p,
            None => {
                return Err(Status::invalid_argument("missing passenger details"));
            },
        };
        let ticket_status = match TicketStatus::try_from(t.ticket_status) {
            Some(status) => status.as_str_name().to_owned(),
            None => {
                return Err(Status::invalid_argument("invalid ticket status"));
            },
        };
        let birth_date = match convert_timestamp_to_datetime(p.birth_date) {
            Ok(date) => date,
            Err(status) => {
                return Err(status);
            },
        };
        let reservation_datetime = match convert_timestamp_to_datetime(t.reservation_datetime) {
            Ok(date) => date,
            Err(status) => {
                return Err(status);
            },
        };
        Ok(
            data::Ticket {
                _id: id,
                url: t.url,
                flight_id: t.flight_id,
                passenger: data::Passenger {
                    ssn: p.ssn,
                    name: p.name,
                    surname: p.surname,
                    birth_date,
                    email: p.email,
                },
                reservation_datetime,
                estimated_cargo_weight: t.estimated_cargo_weight,
                ticket_status,
            },
        )
    }
}

impl TryFrom<ticketsrvc::Ticket> for data::Ticket {
    type Error = Status;

    /// Reads a message as a record with an identifier of its own, made for
    /// it.
    fn try_from(t: ticketsrvc::Ticket) -> (read: Result<Self, Status>)
        ensures
            match read {
                Ok(ticket) => ticket@.id.len() == 12 && from_wire(t@, ticket@.id) == Ok::<
                    data::TicketView,
                    StatusView,
                >(ticket@),
                Err(status) => wire_fault(t@) == Some(status@),
            },
    {
        data::Ticket::from_wire(t, ObjectId::new())
    }
}

/// The conversion is stated with `try_from` itself: the record has an
/// identifier that no argument decides, so no record is named as the one
/// that a message becomes.
impl TryFromSpecImpl<ticketsrvc::Ticket> for data::Ticket {
    open spec fn obeys_try_from_spec() -> bool {
        false
    }

    open spec fn try_from_spec(t: ticketsrvc::Ticket) -> Result<data::Ticket, Status> {
        arbitrary()
    }
}

/// The names of the three states differ from each other, so each stands for
/// its own state.
pub proof fn stored_status_of_names()
    ensures
        stored_status("UNSPECIFIED"@) == TicketStatus::Unspecified,
        stored_status("VALID"@) == TicketStatus::Valid,
        stored_status("DELETED"@) == TicketStatus::Deleted,
{
    reveal_strlit("UNSPECIFIED");
    reveal_strlit("VALID");
    reveal_strlit("DELETED");
    assert("UNSPECIFIED"@.len() == 11);
    assert("VALID"@.len() == 5);
    assert("DELETED"@.len() == 7);
}

/// Reading a message does not look at the identifier that the message
/// holds: whatever stands there, the fault is the same and so is the record.
pub proof fn reading_ignores_the_identifier_of_the_message(
    t: ticketsrvc::TicketView,
    written: Seq<char>,
    id: Seq<u8>,
)
    ensures
        wire_fault(ticketsrvc::TicketView { id: written, ..t }) == wire_fault(t),
        from_wire(ticketsrvc::TicketView { id: written, ..t }, id) == from_wire(t, id),
{
}

/// Whether a record is one that the service writes: twelve identifier bytes,
/// times within the stored range, and the name of a state.
pub open spec fn valid_record(t: data::TicketView) -> bool {
    &&& t.id.len() == 12
    &&& i64::MIN <= t.passenger.birth_date <= i64::MAX
    &&& i64::MIN <= t.reservation_datetime <= i64::MAX
    &&& status_of_name(t.ticket_status) is Some
}

/// A record that is written as a message and read back under its own
/// identifier is the same record.
pub proof fn wire_round_trip(t: data::TicketView)
    requires
        valid_record(t),
    ensures
        from_wire(to_wire(t), t.id) == Ok::<data::TicketView, StatusView>(t),
{
    timestamp_round_trip(t.passenger.birth_date);
    timestamp_round_trip(t.reservation_datetime);
}

} // verus!
