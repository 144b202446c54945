//! The ticket operations of the service: what each does with the store, what
//! it asks of the services it consults, and the event it has published.
//!
//! The service makes no call of its own to another service. Where an
//! operation needs an answer from outside, it ends with the request to be
//! made, and the operation that takes the answer goes on from there.

pub mod data;
pub mod map;
pub mod memory;

use rand::distributions::{Alphanumeric, DistString};
use vstd::prelude::*;
use crate::bson::{bytes_of_hex, is_object_id_hex, ObjectId};
use crate::datautils::convert_str_to_object_id;
use crate::dependencies::{qr_code_of, FlightManager, ValidationService};
use crate::parse::{empty_mask_status, parse_update_paths};
use crate::proto::flightmngr::{GetFlightRequest, Plane};
use crate::proto::protobuf::{texts, FieldMask};
use crate::proto::ticketsrvc::{
    empty_ticket, status_number, CreateTicketRequest, DeleteTicketRequest, FlightStatistics,
    GetFlightStatisticsRequest, GetTicketRequest, GetTicketWithQrCodeResponse, ListTicketsRequest,
    Query, Ticket, TicketList, TicketStatus, TicketView, UpdateTicketRequest,
};
use crate::proto::validationsvc::{SignTicketRequest, SignTicketResponse};
use crate::rabbitmq::{publication_of, Publication, PublicationView, Rabbit, UpdateKind};
use crate::status::{Code, Status, StatusView};
use crate::tickets::data::{
    all_recognized, existing_tickets, first_rejected, first_selected,
    first_selected_after_push, first_selected_after_update, half_deleted, has_id, invalidated,
    listed, looked_up, lookup_after_delete, rejection_of_sorted, seats_after_creation,
    unique_ids, update_of, with_update, without_first, Collection, FilterView, TicketDatabase,
};
use crate::tickets::map::{
    fault_of, passenger_of, record_of, stored_status_of_names, to_wire, wire_fault,
};

verus! {

/// The ticket service: a store of tickets, the clients of the two services
/// it consults, and the publisher of its events.
pub struct TicketsApp<D: TicketDatabase> {
    mongo: D,
    flightmngr: FlightManager,
    validationsvc: ValidationService,
    rabbitmq: Rabbit,
}

/// The status of a failure whose detail stays inside the service.
pub open spec fn internal_error() -> StatusView {
    StatusView { code: Code::Internal, message: "internal error"@ }
}

/// The status of a lookup that finds nothing.
pub open spec fn not_found() -> StatusView {
    StatusView { code: Code::NotFound, message: "ticket not found"@ }
}

/// The status of an identifier that is none.
pub open spec fn invalid_id() -> StatusView {
    StatusView { code: Code::InvalidArgument, message: "invalid id"@ }
}

/// The messages that show a list of records, in order.
pub open spec fn all_to_wire(records: Seq<data::TicketView>) -> Seq<TicketView> {
    records.map_values(|t: data::TicketView| to_wire(t))
}

/// The filter that a list request asks for.
pub open spec fn list_filter(flight_id: Option<String>) -> FilterView {
    match flight_id {
        Some(flight_id) => FilterView::Flight(flight_id@),
        None => FilterView::Any,
    }
}

/// The filter that the key of a lookup asks for. A lookup without a key is
/// refused, and so is an identifier that is none.
pub open spec fn lookup_filter(query: Option<Query>) -> Result<FilterView, StatusView> {
    match query {
        Some(Query::Id(id)) => if is_object_id_hex(id@) {
            Ok(FilterView::Id(bytes_of_hex(id@)))
        } else {
            Err(invalid_id())
        },
        Some(Query::Url(url)) => Ok(FilterView::Url(url@)),
        None => Err(StatusView { code: Code::InvalidArgument, message: "query required"@ }),
    }
}

/// The number of characters of a lookup token.
pub const TOKEN_LENGTH: usize = 64;

/// Whether a character is a letter of the English alphabet or a digit.
pub open spec fn is_alphanumeric(c: char) -> bool {
    ('0' <= c <= '9') || ('a' <= c <= 'z') || ('A' <= c <= 'Z')
}

/// Whether a text has the form of a lookup token: 64 letters and digits.
pub open spec fn is_token(url: Seq<char>) -> bool {
    &&& url.len() == TOKEN_LENGTH
    &&& forall|i: int| 0 <= i < url.len() ==> is_alphanumeric(#[trigger] url[i])
}

/// `Alphanumeric.sample_string` of the random number library, with the
/// generator of the thread: a text of `len` characters, each a letter of the
/// English alphabet or a digit. Which ones is left to chance.
#[verifier::external_body]
fn sample_alphanumeric(len: usize) -> (text: String)
    ensures
        text@.len() == len,
        forall|i: int| 0 <= i < text@.len() ==> is_alphanumeric(#[trigger] text@[i]),
{
    Alphanumeric.sample_string(&mut rand::thread_rng(), len)
}

/// A ticket that was asked for and found faultless, and the number of
/// tickets in force for its flight when it was asked for. What becomes of it
/// is decided when the plane of the flight is known.
#[derive(Debug, PartialEq)]
pub struct Reservation {
    ticket: Ticket,
    existing_tickets: u32,
}

/// What a [`Reservation`] holds.
pub struct ReservationView {
    pub ticket: TicketView,
    pub existing_tickets: u32,
}

impl View for Reservation {
    type V = ReservationView;

    closed spec fn view(&self) -> ReservationView {
        ReservationView { ticket: self.ticket@, existing_tickets: self.existing_tickets }
    }
}

impl Reservation {
    /// The ticket of a reservation has no fault.
    #[verifier::type_invariant]
    spec fn faultless(self) -> bool {
        wire_fault(self.ticket@) is None
    }

    /// The ticket that was asked for, with the state of a ticket in force.
    pub fn ticket(&self) -> (ticket: &Ticket)
        ensures
            ticket@ == self@.ticket,
            wire_fault(ticket@) is None,
    {
        proof {
            use_type_invariant(self);
        }
        &self.ticket
    }

    /// The number of tickets that were in force for the flight.
    pub fn existing_tickets(&self) -> (count: u32)
        ensures
            count == self@.existing_tickets,
    {
        self.existing_tickets
    }
}

/// The ticket of a create request; a request without one asks for the ticket
/// in which nothing is set.
pub open spec fn requested(ticket: Option<Ticket>) -> TicketView {
    match ticket {
        Some(ticket) => ticket@,
        None => empty_ticket(),
    }
}

/// A message with its state set.
pub open spec fn with_status(t: TicketView, status: TicketStatus) -> TicketView {
    TicketView { ticket_status: status_number(status) as i32, ..t }
}

/// A message with its lookup token set.
pub open spec fn with_url(t: TicketView, url: Seq<char>) -> TicketView {
    TicketView { url, ..t }
}

/// The status with which a ticket for a full flight is refused.
pub open spec fn no_seat_available() -> StatusView {
    StatusView { code: Code::FailedPrecondition, message: "no seat available"@ }
}

/// Why a reservation cannot become a ticket, if it cannot: the plane has no
/// more seats than there were tickets in force for the flight.
pub open spec fn reservation_fault(existing_tickets: u32, cabin_capacity: u32) -> Option<
    StatusView,
> {
    if cabin_capacity <= existing_tickets {
        Some(no_seat_available())
    } else {
        None
    }
}

/// What an optional message says.
pub open spec fn optional_ticket(ticket: Option<Ticket>) -> Option<TicketView> {
    match ticket {
        Some(ticket) => Some(ticket@),
        None => None,
    }
}

/// The paths of an optional mask; a missing mask has none.
pub open spec fn mask_paths(mask: Option<FieldMask>) -> Seq<Seq<char>> {
    match mask {
        Some(mask) => mask@,
        None => Seq::empty(),
    }
}

/// Why an update request is refused before its paths are read, if it is: the
/// identifier is none, the mask is missing or empty, the new values are
/// missing, or they have a fault, looked for in this order.
pub open spec fn update_fault(
    id: Seq<char>,
    update: Option<TicketView>,
    paths: Seq<Seq<char>>,
) -> Option<StatusView> {
    if !is_object_id_hex(id) {
        Some(invalid_id())
    } else if paths.len() == 0 {
        Some(empty_mask_status())
    } else {
        match update {
            None => Some(StatusView { code: Code::InvalidArgument, message: "update required"@ }),
            Some(update) => wire_fault(update),
        }
    }
}

/// What a lookup answers on a dependable store: the ticket that the key
/// finds, as a message; a key that finds none, or is none, is refused.
pub open spec fn answer(
    tickets: Seq<data::TicketView>,
    deleted: Seq<data::TicketView>,
    query: Option<Query>,
    allow_nonvalid: bool,
) -> Result<TicketView, StatusView> {
    match lookup_filter(query) {
        Err(fault) => Err(fault),
        Ok(filter) => match looked_up(tickets, deleted, filter, allow_nonvalid) {
            Some(t) => Ok(to_wire(t)),
            None => Err(not_found()),
        },
    }
}

/// What a result says, its values taken by their views.
pub open spec fn ticket_result_view(r: Result<Ticket, Status>) -> Result<TicketView, StatusView> {
    match r {
        Ok(ticket) => Ok(ticket@),
        Err(status) => Err(status@),
    }
}

/// A store after an operation, and what the operation gave.
pub struct Outcome<T> {
    pub tickets: Seq<data::TicketView>,
    pub deleted: Seq<data::TicketView>,
    pub result: Result<T, StatusView>,
}

/// What the deletion of a ticket does on a dependable store. A text that is
/// no identifier is refused. A ticket that is not in force is not found.
/// Where the deleted tickets hold the identifier already, the store refuses
/// the move. Else the ticket moves to the deleted ones with the state of a
/// deleted ticket, and the event shows it as it was.
pub open spec fn deletion(
    tickets: Seq<data::TicketView>,
    deleted: Seq<data::TicketView>,
    id: Seq<char>,
    exchange: Seq<char>,
) -> Outcome<PublicationView> {
    let filter = FilterView::Id(bytes_of_hex(id));
    if !is_object_id_hex(id) {
        Outcome { tickets, deleted, result: Err(invalid_id()) }
    } else {
        match first_selected(tickets, filter) {
            None => Outcome { tickets, deleted, result: Err(not_found()) },
            Some(t) => if has_id(deleted, bytes_of_hex(id)) {
                Outcome { tickets, deleted, result: Err(internal_error()) }
            } else {
                Outcome {
                    tickets: without_first(tickets, filter),
                    deleted: deleted.push(invalidated(t)),
                    result: Ok(publication_of(exchange, to_wire(t), UpdateKind::Delete)),
                }
            },
        }
    }
}

/// What a result says, its values taken by their views.
pub open spec fn publication_result_view(r: Result<Publication, Status>) -> Result<
    PublicationView,
    StatusView,
> {
    match r {
        Ok(publication) => Ok(publication@),
        Err(status) => Err(status@),
    }
}

/// After a ticket was deleted, a lookup by its identifier does not find it
/// among the tickets in force; where deleted tickets are allowed, it finds
/// the ticket with the state of a deleted one.
pub proof fn get_after_delete(
    tickets: Seq<data::TicketView>,
    deleted: Seq<data::TicketView>,
    id: String,
    exchange: Seq<char>,
)
    requires
        unique_ids(tickets),
        deletion(tickets, deleted, id@, exchange).result is Ok,
    ensures
        ({
            let after = deletion(tickets, deleted, id@, exchange);
            let t = first_selected(tickets, FilterView::Id(bytes_of_hex(id@)))->0;
            &&& answer(after.tickets, after.deleted, Some(Query::Id(id)), false) == Err::<
                TicketView,
                StatusView,
            >(not_found())
            &&& answer(after.tickets, after.deleted, Some(Query::Id(id)), true) == Ok::<
                TicketView,
                StatusView,
            >(to_wire(invalidated(t)))
            &&& to_wire(invalidated(t)).ticket_status == status_number(TicketStatus::Deleted)
        }),
{
    lookup_after_delete(tickets, deleted, bytes_of_hex(id@));
    stored_status_of_names();
}

/// A ticket can be deleted once: after it was deleted, deleting it again
/// finds no ticket.
pub proof fn delete_after_delete(
    tickets: Seq<data::TicketView>,
    deleted: Seq<data::TicketView>,
    id: Seq<char>,
    exchange: Seq<char>,
)
    requires
        unique_ids(tickets),
        deletion(tickets, deleted, id, exchange).result is Ok,
    ensures
        ({
            let after = deletion(tickets, deleted, id, exchange);
            deletion(after.tickets, after.deleted, id, exchange) == (Outcome::<PublicationView> {
                tickets: after.tickets,
                deleted: after.deleted,
                result: Err(not_found()),
            })
        }),
{
    lookup_after_delete(tickets, deleted, bytes_of_hex(id));
}

/// A ticket is created only where its flight had fewer tickets in force than
/// the plane has seats; so, where nothing was added between the count and the
/// creation, the flight stays within the seats of its plane.
pub proof fn creation_stays_within_capacity(
    tickets: Seq<data::TicketView>,
    record: data::TicketView,
    cabin_capacity: u32,
)
    requires
        existing_tickets(tickets, record.flight_id) < cabin_capacity,
    ensures
        existing_tickets(tickets.push(record), record.flight_id) == existing_tickets(
            tickets,
            record.flight_id,
        ) + 1,
        existing_tickets(tickets.push(record), record.flight_id) <= cabin_capacity,
{
    seats_after_creation(tickets, record, record.flight_id);
}

impl<D: TicketDatabase> TicketsApp<D> {
    pub fn new(
        mongo_client: D,
        flightmngr: FlightManager,
        validationsvc: ValidationService,
        rabbitmq: Rabbit,
    ) -> (app: Self)
        ensures
            app.database() == mongo_client,
            app.exchange() == rabbitmq@,
    {
        TicketsApp { mongo: mongo_client, flightmngr, validationsvc, rabbitmq }
    }

    /// The store of the service.
    pub closed spec fn database(&self) -> D {
        self.mongo
    }

    /// The name of the exchange that the service's events go to.
    pub closed spec fn exchange(&self) -> Seq<char> {
        self.rabbitmq@
    }

    /// The tickets in force.
    pub open spec fn tickets(&self) -> Seq<data::TicketView> {
        self.database().records(Collection::Tickets)
    }

    /// The deleted tickets.
    pub open spec fn deleted_tickets(&self) -> Seq<data::TicketView> {
        self.database().records(Collection::DeletedTickets)
    }

    /// Whether the store of the service fails only where its data demand it.
    pub open spec fn dependable(&self) -> bool {
        self.database().dependable()
    }

    /// The store of the service.
    pub fn mongo(&self) -> (store: &D)
        ensures
            *store == self.database(),
    {
        &self.mongo
    }

    /// The client of the flight and plane inventory.
    pub fn flightmngr(&self) -> &FlightManager {
        &self.flightmngr
    }

    /// The client of the signing service.
    pub fn validationsvc(&self) -> &ValidationService {
        &self.validationsvc
    }

    /// The publisher of the service's events.
    pub fn rabbitmq(&self) -> (publisher: &Rabbit)
        ensures
            publisher@ == self.exchange(),
    {
        &self.rabbitmq
    }

    /// The tickets in force, of one flight or of all, followed by all the
    /// deleted ones where they are asked for, as messages.
    pub fn list_tickets(&self, request: ListTicketsRequest) -> (list: Result<TicketList, Status>)
        ensures
            match list {
                Ok(list) => crate::proto::ticketsrvc::ticket_views(list.tickets@) == all_to_wire(
                    listed(
                        self.tickets(),
                        self.deleted_tickets(),
                        request.include_nonvalid,
                        list_filter(request.flight_id),
                    ),
                ),
                Err(status) => status@ == internal_error() && !self.dependable(),
            },
    {
        let flight_id = match &request.flight_id {
            Some(flight_id) => Some(flight_id.as_str()),
            None => None,
        };
        let result = match self.mongo.list_tickets(request.include_nonvalid, flight_id) {
            Ok(result) => result,
            Err(error) => {
                return Err(Status::from(error));
            },
        };
        let ghost records = data::ticket_views(result@);
        let mut tickets: Vec<Ticket> = Vec::new();
        let mut i: usize = 0;
        while i < result.len()
            invariant
                i <= result.len(),
                records == data::ticket_views(result@),
                crate::proto::ticketsrvc::ticket_views(tickets@) == all_to_wire(
                    records.take(i as int),
                ),
            decreases result.len() - i,
        {
            let ghost before = crate::proto::ticketsrvc::ticket_views(tickets@);
            let ticket = Ticket::from(result[i].clone());
            tickets.push(ticket);
            proof {
                assert(records.take(i as int + 1) =~= records.take(i as int).push(
                    records[i as int],
                ));
                assert(crate::proto::ticketsrvc::ticket_views(tickets@) =~= before.push(
                    to_wire(records[i as int]),
                ));
                assert(all_to_wire(records.take(i as int + 1)) =~= all_to_wire(
                    records.take(i as int),
                ).push(to_wire(records[i as int])));
            }
            i = i + 1;
        }
        proof {
            assert(records.take(i as int) =~= records);
        }
        Ok(TicketList { tickets })
    }

    /// The record that a lookup asks for.
    fn lookup(&self, query: Option<Query>, allow_nonvalid: bool) -> (found: Result<
        data::Ticket,
        Status,
    >)
        ensures
            match found {
                Ok(ticket) => lookup_filter(query) matches Ok(filter) && looked_up(
                    self.tickets(),
                    self.deleted_tickets(),
                    filter,
                    allow_nonvalid,
                ) == Some(ticket@),
                Err(status) => match lookup_filter(query) {
                    Err(fault) => status@ == fault,
                    Ok(filter) => if status@.code == Code::NotFound {
                        &&& status@ == not_found()
                        &&& looked_up(
                            self.tickets(),
                            self.deleted_tickets(),
                            filter,
                            allow_nonvalid,
                        ) is None
                    } else {
                        status@ == internal_error() && !self.dependable()
                    },
                },
            },
    {
        let found = match query {
            Some(Query::Id(id)) => {
                let id = match convert_str_to_object_id(id.as_str(), "invalid id") {
                    Ok(id) => id,
                    Err(status) => {
                        return Err(status);
                    },
                };
                self.mongo.get_ticket(id, allow_nonvalid)
            },
            Some(Query::Url(url)) => self.mongo.get_ticket_from_url(url, allow_nonvalid),
            None => {
                return Err(Status::invalid_argument("query required"));
            },
        };
        match found {
            Ok(ticket) => Ok(ticket),
            Err(error) => Err(Status::from(error)),
        }
    }

    /// The ticket with an identifier or a lookup token, as a message. A
    /// deleted ticket is found only where the request allows it.
    pub fn get_ticket(&self, request: GetTicketRequest) -> (found: Result<Ticket, Status>)
        ensures
            self.dependable() ==> ticket_result_view(found) == answer(
                self.tickets(),
                self.deleted_tickets(),
                request.query,
                request.allow_nonvalid,
            ),
            match found {
                Ok(ticket) => lookup_filter(request.query) matches Ok(filter) && looked_up(
                    self.tickets(),
                    self.deleted_tickets(),
                    filter,
                    request.allow_nonvalid,
                ) matches Some(t) && ticket@ == to_wire(t),
                Err(status) => match lookup_filter(request.query) {
                    Err(fault) => status@ == fault,
                    Ok(filter) => if status@.code == Code::NotFound {
                        &&& status@ == not_found()
                        &&& looked_up(
                            self.tickets(),
                            self.deleted_tickets(),
                            filter,
                            request.allow_nonvalid,
                        ) is None
                    } else {
                        status@ == internal_error() && !self.dependable()
                    },
                },
            },
    {
        match self.lookup(request.query, request.allow_nonvalid) {
            Ok(ticket) => Ok(Ticket::from(ticket)),
            Err(status) => Err(status),
        }
    }

    /// The first half of a lookup with the signed code: finds the ticket in
    /// force and gives the request for its code.
    pub fn get_ticket_with_qr_code(&self, request: GetTicketRequest) -> (asked: Result<
        SignTicketRequest,
        Status,
    >)
        ensures
            match asked {
                Ok(asked) => lookup_filter(request.query) matches Ok(filter) && looked_up(
                    self.tickets(),
                    self.deleted_tickets(),
                    filter,
                    false,
                ) matches Some(t) && asked.ticket matches Some(ticket) && ticket@ == to_wire(t),
                Err(status) => match lookup_filter(request.query) {
                    Err(fault) => status@ == fault,
                    Ok(filter) => if status@.code == Code::NotFound {
                        &&& status@ == not_found()
                        &&& looked_up(self.tickets(), self.deleted_tickets(), filter, false)
                            is None
                    } else {
                        status@ == internal_error() && !self.dependable()
                    },
                },
            },
    {
        match self.lookup(request.query, false) {
            Ok(ticket) => Ok(self.validationsvc.make_qr_code(Ticket::from(ticket))),
            Err(status) => Err(status),
        }
    }

    /// The second half of a lookup with the signed code: the ticket that was
    /// asked about together with its code, or the failure of the signing
    /// service as it came.
    pub fn ticket_with_qr_code(
        &self,
        asked: SignTicketRequest,
        signed: Result<SignTicketResponse, Status>,
    ) -> (reply: Result<GetTicketWithQrCodeResponse, Status>)
        ensures
            match reply {
                Ok(reply) => {
                    &&& qr_code_of(signed) == Ok::<Seq<u8>, StatusView>(reply.qr_code@)
                    &&& reply.ticket == asked.ticket
                },
                Err(status) => qr_code_of(signed) == Err::<Seq<u8>, StatusView>(status@),
            },
    {
        match self.validationsvc.qr_code(signed) {
            Ok(qr_code) => Ok(GetTicketWithQrCodeResponse { qr_code, ticket: asked.ticket }),
            Err(status) => Err(status),
        }
    }

    /// The first half of the statistics of a flight: counts its tickets in
    /// force and gives the request for the flight, which leads to its plane.
    pub fn get_flight_statistics(&self, request: GetFlightStatisticsRequest) -> (counted: Result<
        (u32, GetFlightRequest),
        Status,
    >)
        ensures
            match counted {
                Ok((reserved_seats, flight)) => {
                    &&& reserved_seats == existing_tickets(self.tickets(), request.flight_id@)
                    &&& flight.id@ == request.flight_id@
                },
                Err(status) => status@ == internal_error() && !self.dependable(),
            },
    {
        let existing_tickets = match self.mongo.get_existing_tickets(request.flight_id.as_str()) {
            Ok(count) => count,
            Err(error) => {
                return Err(Status::from(error));
            },
        };
        Ok((existing_tickets, self.flightmngr.get_plane_details(request.flight_id)))
    }

    /// The second half of the statistics of a flight: the seats of its plane
    /// and the seats that are taken, or the failure of the inventory as it
    /// came.
    pub fn flight_statistics(&self, reserved_seats: u32, plane: Result<Plane, Status>) -> (reply:
        Result<FlightStatistics, Status>)
        ensures
            match reply {
                Ok(statistics) => plane matches Ok(airplane) && statistics == (FlightStatistics {
                    total_seats: airplane.cabin_capacity,
                    reserved_seats,
                }),
                Err(status) => plane matches Err(remote) && status@ == remote@,
            },
    {
        match plane {
            Ok(airplane) => Ok(
                FlightStatistics { total_seats: airplane.cabin_capacity, reserved_seats },
            ),
            Err(status) => Err(status),
        }
    }
    /// The first half of the creation of a ticket: takes the ticket of the
    /// request with the state of a ticket in force, and refuses it if it has
    /// a fault. Only then it counts the tickets in force for the flight, and
    /// gives the request for the flight, which leads to its plane.
    pub fn create_ticket(&self, request: CreateTicketRequest) -> (begun: Result<
        (Reservation, GetFlightRequest),
        Status,
    >)
        ensures
            match begun {
                Ok((reservation, flight)) => {
                    &&& wire_fault(reservation@.ticket) is None
                    &&& reservation@.ticket == with_status(
                        requested(request.ticket),
                        TicketStatus::Valid,
                    )
                    &&& reservation@.existing_tickets == existing_tickets(
                        self.tickets(),
                        requested(request.ticket).flight_id,
                    )
                    &&& flight.id@ == requested(request.ticket).flight_id
                },
                Err(status) => match wire_fault(
                    with_status(requested(request.ticket), TicketStatus::Valid),
                ) {
                    Some(fault) => status@ == fault,
                    None => status@ == internal_error() && !self.dependable(),
                },
            },
            wire_fault(with_status(requested(request.ticket), TicketStatus::Valid)) is Some
                ==> begun is Err,
    {
        let mut new_ticket = match request.ticket {
            Some(ticket) => ticket,
            None => Ticket::default(),
        };
        new_ticket.ticket_status = TicketStatus::Valid.number();
        match fault_of(&new_ticket) {
            Some(status) => {
                return Err(status);
            },
            None => {},
        }
        let existing_tickets = match self.mongo.get_existing_tickets(new_ticket.flight_id.as_str()) {
            Ok(count) => count,
            Err(error) => {
                return Err(Status::from(error));
            },
        };
        let flight = self.flightmngr.get_plane_details(new_ticket.flight_id.clone());
        Ok((Reservation { ticket: new_ticket, existing_tickets }, flight))
    }

    /// The second half of the creation of a ticket, with the lookup token
    /// and the identifier that the new ticket is to have.
    ///
    /// A flight whose plane has no more seats than there were tickets in
    /// force is full, and the ticket is refused. Else the ticket is read as
    /// a record, added to the tickets in force and read back, and what was
    /// read is the reply and the body of the one event that tells of the
    /// creation.
    pub fn reserve_with(
        &mut self,
        reservation: Reservation,
        plane: Plane,
        url: String,
        id: ObjectId,
    ) -> (created: Result<(Ticket, Publication), Status>)
        ensures
            final(self).dependable() == old(self).dependable(),
            final(self).exchange() == old(self).exchange(),
            final(self).deleted_tickets() == old(self).deleted_tickets(),
            wire_fault(reservation@.ticket) is None,
            match created {
                Ok((ticket, publication)) => {
                    let record = record_of(with_url(reservation@.ticket, url@), id@);
                    &&& plane.cabin_capacity > reservation@.existing_tickets
                    &&& !has_id(old(self).tickets(), id@)
                    &&& final(self).tickets() == old(self).tickets().push(record)
                    &&& ticket@ == to_wire(record)
                    &&& publication@ == publication_of(
                        old(self).exchange(),
                        ticket@,
                        UpdateKind::Create,
                    )
                },
                Err(status) => match reservation_fault(
                    reservation@.existing_tickets,
                    plane.cabin_capacity,
                ) {
                    Some(fault) => status@ == fault && final(self).tickets() == old(
                        self,
                    ).tickets(),
                    None => {
                        &&& status@ == internal_error()
                        &&& old(self).dependable() ==> {
                            &&& has_id(old(self).tickets(), id@)
                            &&& final(self).tickets() == old(self).tickets()
                        }
                        &&& final(self).tickets() == old(self).tickets() || {
                            &&& !has_id(old(self).tickets(), id@)
                            &&& final(self).tickets() == old(self).tickets().push(
                                record_of(with_url(reservation@.ticket, url@), id@),
                            )
                        }
                    },
                },
            },
            plane.cabin_capacity <= reservation@.existing_tickets ==> (created matches Err(
                status,
            ) && status@ == no_seat_available()),
            plane.cabin_capacity > reservation@.existing_tickets && old(self).dependable()
                && !has_id(old(self).tickets(), id@) ==> created is Ok,
    {
        proof {
            use_type_invariant(&reservation);
        }
        if plane.cabin_capacity <= reservation.existing_tickets {
            return Err(Status::failed_precondition("no seat available"));
        }
        let mut new_ticket = reservation.ticket;
        new_ticket.url = url;
        let record = match data::Ticket::from_wire(new_ticket, id) {
            Ok(record) => record,
            Err(status) => {
                return Err(status);
            },
        };
        let id = match self.mongo.create_ticket(record) {
            Ok(id) => id,
            Err(error) => {
                return Err(Status::from(error));
            },
        };
        proof {
            first_selected_after_push(old(self).tickets(), record@);
        }
        let ticket = match self.mongo.get_ticket(id, false) {
            Ok(ticket) => Ticket::from(ticket),
            Err(error) => {
                return Err(Status::from(error));
            },
        };
        let publication = self.rabbitmq.notify_ticket_update(ticket.clone(), UpdateKind::Create);
        Ok((ticket, publication))
    }

    /// The second half of the creation of a ticket, which takes the answer
    /// of the inventory: the plane of the flight, or the failure, which is
    /// passed on as it came. The new ticket gets a lookup token drawn at
    /// random and an identifier made for it. On a dependable store with a
    /// seat left the creation fails only where the identifier that was made
    /// is taken by a ticket in force; so it succeeds where none is in force.
    pub fn reserve(&mut self, reservation: Reservation, plane: Result<Plane, Status>) -> (created:
        Result<(Ticket, Publication), Status>)
        ensures
            final(self).dependable() == old(self).dependable(),
            final(self).exchange() == old(self).exchange(),
            final(self).deleted_tickets() == old(self).deleted_tickets(),
            wire_fault(reservation@.ticket) is None,
            match created {
                Ok((ticket, publication)) => {
                    let record = final(self).tickets().last();
                    &&& plane matches Ok(airplane)
                    &&& airplane.cabin_capacity > reservation@.existing_tickets
                    &&& is_token(record.url)
                    &&& record.id.len() == 12
                    &&& record == record_of(with_url(reservation@.ticket, record.url), record.id)
                    &&& !has_id(old(self).tickets(), record.id)
                    &&& final(self).tickets() == old(self).tickets().push(record)
                    &&& ticket@ == to_wire(record)
                    &&& publication@ == publication_of(
                        old(self).exchange(),
                        ticket@,
                        UpdateKind::Create,
                    )
                },
                Err(status) => match plane {
                    Err(remote) => status@ == remote@ && final(self).tickets() == old(
                        self,
                    ).tickets(),
                    Ok(airplane) => match reservation_fault(
                        reservation@.existing_tickets,
                        airplane.cabin_capacity,
                    ) {
                        Some(fault) => status@ == fault && final(self).tickets() == old(
                            self,
                        ).tickets(),
                        None => {
                            &&& status@ == internal_error()
                            &&& old(self).dependable() ==> {
                                &&& final(self).tickets() == old(self).tickets()
                                &&& exists|taken: Seq<u8>|
                                    taken.len() == 12 && #[trigger] has_id(
                                        old(self).tickets(),
                                        taken,
                                    )
                            }
                            &&& final(self).tickets() == old(self).tickets() || {
                                let record = final(self).tickets().last();
                                &&& is_token(record.url)
                                &&& record == record_of(
                                    with_url(reservation@.ticket, record.url),
                                    record.id,
                                )
                                &&& !has_id(old(self).tickets(), record.id)
                                &&& final(self).tickets() == old(self).tickets().push(record)
                            }
                        },
                    },
                },
            },
            (plane matches Ok(airplane) && airplane.cabin_capacity
                <= reservation@.existing_tickets) ==> (created matches Err(status) && status@
                == no_seat_available()),
            (plane matches Ok(airplane) && airplane.cabin_capacity
                > reservation@.existing_tickets && old(self).dependable() && old(
                self,
            ).tickets().len() == 0) ==> created is Ok,
    {
        proof {
            use_type_invariant(&reservation);
        }
        let plane = match plane {
            Ok(plane) => plane,
            Err(status) => {
                return Err(status);
            },
        };
        if plane.cabin_capacity <= reservation.existing_tickets {
            return Err(Status::failed_precondition("no seat available"));
        }
        let url = sample_alphanumeric(TOKEN_LENGTH);
        let id = ObjectId::new();
        self.reserve_with(reservation, plane, url, id)
    }

    /// Deletes a ticket in force: moves it to the deleted tickets, with the
    /// state of a deleted ticket, and gives the one event that tells of it,
    /// whose body is the ticket as it was before. A ticket that is not in
    /// force is not found, whether it was deleted before or never existed.
    pub fn delete_ticket(&mut self, request: DeleteTicketRequest) -> (deleted: Result<
        Publication,
        Status,
    >)
        ensures
            final(self).dependable() == old(self).dependable(),
            final(self).exchange() == old(self).exchange(),
            match deleted {
                Ok(publication) => {
                    let id = bytes_of_hex(request.id@);
                    &&& is_object_id_hex(request.id@)
                    &&& unique_ids(old(self).tickets())
                    &&& first_selected(old(self).tickets(), FilterView::Id(id)) matches Some(t)
                    &&& !has_id(old(self).deleted_tickets(), id)
                    &&& final(self).deleted_tickets() == old(self).deleted_tickets().push(
                        invalidated(t),
                    )
                    &&& final(self).tickets() == without_first(
                        old(self).tickets(),
                        FilterView::Id(id),
                    )
                    &&& publication@ == publication_of(
                        old(self).exchange(),
                        to_wire(t),
                        UpdateKind::Delete,
                    )
                },
                Err(status) => {
                    let id = bytes_of_hex(request.id@);
                    if !is_object_id_hex(request.id@) {
                        &&& status@ == invalid_id()
                        &&& final(self).tickets() == old(self).tickets()
                        &&& final(self).deleted_tickets() == old(self).deleted_tickets()
                    } else if status@.code == Code::NotFound {
                        &&& status@ == not_found()
                        &&& !has_id(old(self).tickets(), id)
                        &&& final(self).tickets() == old(self).tickets()
                        &&& final(self).deleted_tickets() == old(self).deleted_tickets()
                    } else {
                        &&& status@ == internal_error()
                        &&& old(self).dependable() ==> {
                            &&& has_id(old(self).tickets(), id)
                            &&& has_id(old(self).deleted_tickets(), id)
                            &&& final(self).tickets() == old(self).tickets()
                            &&& final(self).deleted_tickets() == old(self).deleted_tickets()
                        }
                        &&& half_deleted(
                            old(self).tickets(),
                            old(self).deleted_tickets(),
                            final(self).tickets(),
                            final(self).deleted_tickets(),
                            id,
                        )
                    }
                },
            },
            old(self).dependable() ==> (Outcome {
                tickets: final(self).tickets(),
                deleted: final(self).deleted_tickets(),
                result: publication_result_view(deleted),
            }) == deletion(
                old(self).tickets(),
                old(self).deleted_tickets(),
                request.id@,
                old(self).exchange(),
            ),
    {
        let id = match convert_str_to_object_id(request.id.as_str(), "invalid id") {
            Ok(id) => id,
            Err(status) => {
                return Err(status);
            },
        };
        let ticket = match self.mongo.get_ticket(id, false) {
            Ok(ticket) => Ticket::from(ticket),
            Err(error) => {
                return Err(Status::from(error));
            },
        };
        match self.mongo.delete_ticket(id) {
            Ok(()) => {},
            Err(error) => {
                return Err(Status::from(error));
            },
        }
        Ok(self.rabbitmq.notify_ticket_update(ticket, UpdateKind::Delete))
    }

    /// Changes passenger details of a ticket in force, and gives the ticket
    /// as it is afterwards, together with the one event that tells of the
    /// update.
    ///
    /// The mask says which details change; the new values are taken from the
    /// ticket in the request. The request is refused, and nothing changed,
    /// if the identifier is none, if the mask is missing or empty, if the
    /// new values are missing or faulty, or if a path of the mask names no
    /// passenger detail; of several such paths the one that sorts first is
    /// named. A ticket that is not in force is not found.
    pub fn update_ticket(&mut self, request: UpdateTicketRequest) -> (updated: Result<
        (Ticket, Publication),
        Status,
    >)
        ensures
            final(self).dependable() == old(self).dependable(),
            final(self).exchange() == old(self).exchange(),
            final(self).deleted_tickets() == old(self).deleted_tickets(),
            match updated {
                Ok((ticket, publication)) => {
                    let id = bytes_of_hex(request.id@);
                    let paths = mask_paths(request.update_mask);
                    &&& update_fault(request.id@, optional_ticket(request.update), paths) is None
                    &&& all_recognized(paths)
                    &&& first_selected(old(self).tickets(), FilterView::Id(id)) matches Some(t)
                    &&& final(self).tickets() == with_update(
                        old(self).tickets(),
                        FilterView::Id(id),
                        update_of(passenger_of(request.update->0@), paths),
                    )
                    &&& first_selected(final(self).tickets(), FilterView::Id(id)) matches Some(t)
                    &&& ticket@ == to_wire(t)
                    &&& publication@ == publication_of(
                        old(self).exchange(),
                        ticket@,
                        UpdateKind::Update,
                    )
                },
                Err(status) => {
                    let id = bytes_of_hex(request.id@);
                    let paths = mask_paths(request.update_mask);
                    match update_fault(request.id@, optional_ticket(request.update), paths) {
                        Some(fault) => status@ == fault && final(self).tickets() == old(
                            self,
                        ).tickets(),
                        None => if !all_recognized(paths) {
                            &&& status@.code == Code::InvalidArgument
                            &&& first_rejected(paths, status@.message)
                            &&& final(self).tickets() == old(self).tickets()
                        } else if status@.code == Code::NotFound {
                            &&& status@ == not_found()
                            &&& !has_id(old(self).tickets(), id)
                            &&& final(self).tickets() == old(self).tickets()
                        } else {
                            &&& status@ == internal_error()
                            &&& !old(self).dependable()
                            &&& final(self).tickets() == old(self).tickets()
                                || final(self).tickets() == with_update(
                                old(self).tickets(),
                                FilterView::Id(id),
                                update_of(passenger_of(request.update->0@), paths),
                            )
                        },
                    }
                },
            },
            mask_paths(request.update_mask).len() == 0 ==> (updated matches Err(status)
                && status@.code == Code::InvalidArgument && final(self).tickets() == old(
                self,
            ).tickets()),
    {
        let id = match convert_str_to_object_id(request.id.as_str(), "invalid id") {
            Ok(id) => id,
            Err(status) => {
                return Err(status);
            },
        };
        let ghost mask = mask_paths(request.update_mask);
        let update_paths = match parse_update_paths(request.update_mask) {
            Ok(update_paths) => update_paths,
            Err(status) => {
                return Err(status);
            },
        };
        let update = match request.update {
            Some(update) => update,
            None => {
                return Err(Status::invalid_argument("update required"));
            },
        };
        let record = match data::Ticket::try_from(update) {
            Ok(record) => record,
            Err(status) => {
                return Err(status);
            },
        };
        proof {
            rejection_of_sorted(texts(update_paths@), mask);
            first_selected_after_update(
                old(self).tickets(),
                id@,
                update_of(record@.passenger, texts(update_paths@)),
            );
            assert(update_of(record@.passenger, texts(update_paths@)) == update_of(
                record@.passenger,
                mask,
            ));
        }
        match self.mongo.update_ticket(id, record, update_paths) {
            Ok(()) => {},
            Err(error) => {
                return Err(Status::from(error));
            },
        }
        let ticket = match self.mongo.get_ticket(id, false) {
            Ok(ticket) => Ticket::from(ticket),
            Err(error) => {
                return Err(Status::from(error));
            },
        };
        let publication = self.rabbitmq.notify_ticket_update(ticket.clone(), UpdateKind::Update);
        Ok((ticket, publication))
    }

    /// What the broker's answer to a publication means for the operation
    /// that gave the event: where the broker took the event, the reply of the
    /// operation stands; where it did not, the operation has failed, though
    /// what it did to the store stays done.
    pub fn published<T>(&self, reply: T, outcome: Result<(), String>) -> (confirmed: Result<
        T,
        Status,
    >)
        ensures
            match confirmed {
                Ok(confirmed) => outcome is Ok && confirmed == reply,
                Err(status) => outcome is Err && status@ == internal_error(),
            },
    {
        match Rabbit::published(outcome) {
            Ok(()) => Ok(reply),
            Err(error) => Err(Status::from(error)),
        }
    }
}

} // verus!
