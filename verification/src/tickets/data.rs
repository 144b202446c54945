//! Ticket records and the store that keeps them in two partitions: the
//! tickets in force, and the deleted ones, which are kept for the record.

use vstd::prelude::*;
use crate::bson::{DateTime, ObjectId};
use crate::errors::{ApplicationError, ApplicationErrorView};
use crate::proto::protobuf::texts;
use crate::proto::ticketsrvc::TicketStatus;
use crate::parse::{same_paths, strictly_ascending};
use crate::text::{precedes, str_equal};

verus! {

/// A ticket as the store keeps it.
#[derive(Debug, PartialEq)]
pub struct Ticket {
    pub _id: ObjectId,
    pub url: String,
    pub flight_id: String,
    pub passenger: Passenger,
    pub reservation_datetime: DateTime,
    pub estimated_cargo_weight: u32,
    pub ticket_status: String,
}

/// The passenger a ticket is issued to.
#[derive(Debug, PartialEq)]
pub struct Passenger {
    pub ssn: String,
    pub name: String,
    pub surname: String,
    pub birth_date: DateTime,
    pub email: String,
}

/// What a [`Passenger`] holds.
pub struct PassengerView {
    pub ssn: Seq<char>,
    pub name: Seq<char>,
    pub surname: Seq<char>,
    pub birth_date: int,
    pub email: Seq<char>,
}

/// What a [`Ticket`] holds.
pub struct TicketView {
    pub id: Seq<u8>,
    pub url: Seq<char>,
    pub flight_id: Seq<char>,
    pub passenger: PassengerView,
    pub reservation_datetime: int,
    pub estimated_cargo_weight: u32,
    pub ticket_status: Seq<char>,
}

impl View for Passenger {
    type V = PassengerView;

    open spec fn view(&self) -> PassengerView {
        PassengerView {
            ssn: self.ssn@,
            name: self.name@,
            surname: self.surname@,
            birth_date: self.birth_date@,
            email: self.email@,
        }
    }
}

impl View for Ticket {
    type V = TicketView;

    open spec fn view(&self) -> TicketView {
        TicketView {
            id: self._id@,
            url: self.url@,
            flight_id: self.flight_id@,
            passenger: self.passenger@,
            reservation_datetime: self.reservation_datetime@,
            estimated_cargo_weight: self.estimated_cargo_weight,
            ticket_status: self.ticket_status@,
        }
    }
}

impl Clone for Passenger {
    fn clone(&self) -> (copy: Self)
        ensures
            copy@ == self@,
    {
        Passenger {
            ssn: self.ssn.clone(),
            name: self.name.clone(),
            surname: self.surname.clone(),
            birth_date: self.birth_date,
            email: self.email.clone(),
        }
    }
}

impl Clone for Ticket {
    fn clone(&self) -> (copy: Self)
        ensures
            copy@ == self@,
    {
        Ticket {
            _id: self._id,
            url: self.url.clone(),
            flight_id: self.flight_id.clone(),
            passenger: self.passenger.clone(),
            reservation_datetime: self.reservation_datetime,
            estimated_cargo_weight: self.estimated_cargo_weight,
            ticket_status: self.ticket_status.clone(),
        }
    }
}

/// What a list of records holds, in order.
pub open spec fn ticket_views(tickets: Seq<Ticket>) -> Seq<TicketView> {
    tickets.map_values(|t: Ticket| t@)
}

/// One of the store's two collections of tickets.
#[derive(Clone, Copy, Debug, PartialEq, Eq, Structural)]
pub enum Collection {
    /// The tickets in force.
    Tickets,
    /// The deleted tickets.
    DeletedTickets,
}

impl Collection {
    /// The name under which the store keeps the collection.
    pub fn name(&self) -> (name: &'static str)
        ensures
            name@ == (match self {
                Collection::Tickets => "tickets"@,
                Collection::DeletedTickets => "tickets-deleted"@,
            }),
    {
        match self {
            Collection::Tickets => "tickets",
            Collection::DeletedTickets => "tickets-deleted",
        }
    }

    /// The other collection.
    pub open spec fn other(self) -> Collection {
        match self {
            Collection::Tickets => Collection::DeletedTickets,
            Collection::DeletedTickets => Collection::Tickets,
        }
    }
}

/// Which records of a collection a store operation is about.
#[derive(Debug, PartialEq)]
pub enum Filter {
    /// Every record.
    Any,
    /// The records of one flight.
    Flight(String),
    /// The record with an identifier.
    Id(ObjectId),
    /// The record with a lookup token.
    Url(String),
}

/// What a [`Filter`] says.
pub enum FilterView {
    Any,
    Flight(Seq<char>),
    Id(Seq<u8>),
    Url(Seq<char>),
}

impl View for Filter {
    type V = FilterView;

    open spec fn view(&self) -> FilterView {
        match self {
            Filter::Any => FilterView::Any,
            Filter::Flight(flight_id) => FilterView::Flight(flight_id@),
            Filter::Id(id) => FilterView::Id(id@),
            Filter::Url(url) => FilterView::Url(url@),
        }
    }
}

impl Filter {
    /// Whether the filter selects a record.
    pub fn selects(&self, t: &Ticket) -> (selected: bool)
        ensures
            selected == selects(self@, t@),
    {
        match self {
            Filter::Any => true,
            Filter::Flight(flight_id) => t.flight_id == *flight_id,
            Filter::Id(id) => t._id.equals(id),
            Filter::Url(url) => t.url == *url,
        }
    }
}

/// Whether a filter selects a record.
pub open spec fn selects(filter: FilterView, t: TicketView) -> bool {
    match filter {
        FilterView::Any => true,
        FilterView::Flight(flight_id) => t.flight_id == flight_id,
        FilterView::Id(id) => t.id == id,
        FilterView::Url(url) => t.url == url,
    }
}

/// A filter as a predicate on records.
pub open spec fn selector(filter: FilterView) -> spec_fn(TicketView) -> bool {
    |t: TicketView| selects(filter, t)
}

/// The records that a filter selects, in the order of the collection.
pub open spec fn selected(records: Seq<TicketView>, filter: FilterView) -> Seq<TicketView> {
    records.filter(selector(filter))
}

/// No record is selected from an empty collection.
pub proof fn selected_of_none(filter: FilterView)
    ensures
        selected(Seq::empty(), filter) == Seq::<TicketView>::empty(),
{
    reveal(Seq::filter);
}

/// A record added at the end of a collection is added at the end of what a
/// filter selects, if the filter selects it.
pub proof fn selected_after_push(records: Seq<TicketView>, t: TicketView, filter: FilterView)
    ensures
        selected(records.push(t), filter) == if selects(filter, t) {
            selected(records, filter).push(t)
        } else {
            selected(records, filter)
        },
{
    records.lemma_filter_push(t, selector(filter));
}

/// The filter for every record selects the whole collection.
pub proof fn selected_by_any(records: Seq<TicketView>)
    ensures
        selected(records, FilterView::Any) == records,
    decreases records.len(),
{
    if records.len() == 0 {
        selected_of_none(FilterView::Any);
        assert(records =~= Seq::empty());
    } else {
        selected_by_any(records.drop_last());
        selected_after_push(records.drop_last(), records.last(), FilterView::Any);
        assert(records.drop_last().push(records.last()) =~= records);
    }
}

/// The index of the first record that a filter selects, or the number of
/// records if it selects none.
pub open spec fn position(records: Seq<TicketView>, filter: FilterView) -> int
    decreases records.len(),
{
    if records.len() == 0 {
        0
    } else if selects(filter, records[0]) {
        0
    } else {
        1 + position(records.drop_first(), filter)
    }
}

/// The first record that a filter selects, if it selects one.
pub open spec fn first_selected(records: Seq<TicketView>, filter: FilterView) -> Option<
    TicketView,
> {
    if position(records, filter) < records.len() {
        Some(records[position(records, filter)])
    } else {
        None
    }
}

/// The collection without the first record that a filter selects.
pub open spec fn without_first(records: Seq<TicketView>, filter: FilterView) -> Seq<TicketView> {
    if position(records, filter) < records.len() {
        records.remove(position(records, filter))
    } else {
        records
    }
}

/// Whether a collection holds a record with an identifier.
pub open spec fn has_id(records: Seq<TicketView>, id: Seq<u8>) -> bool {
    first_selected(records, FilterView::Id(id)) is Some
}

/// Where the first selected record stands: none before it is selected, and
/// it is, if there is one.
pub proof fn position_is_first(records: Seq<TicketView>, filter: FilterView)
    ensures
        0 <= position(records, filter) <= records.len(),
        forall|j: int| 0 <= j < position(records, filter) ==> !selects(filter, #[trigger] records[j]),
        position(records, filter) < records.len() ==> selects(
            filter,
            records[position(records, filter)],
        ),
    decreases records.len(),
{
    if records.len() > 0 && !selects(filter, records[0]) {
        let rest = records.drop_first();
        position_is_first(rest, filter);
        assert forall|j: int| 0 <= j < position(records, filter) implies !selects(
            filter,
            #[trigger] records[j],
        ) by {
            if j > 0 {
                assert(records[j] == rest[j - 1]);
            }
        }
    }
}

/// An index before which no record is selected, and which holds a selected
/// record or is the end, is the position of the first selected record.
pub proof fn first_is_position(records: Seq<TicketView>, filter: FilterView, i: int)
    requires
        0 <= i <= records.len(),
        forall|j: int| 0 <= j < i ==> !selects(filter, #[trigger] records[j]),
        i < records.len() ==> selects(filter, records[i]),
    ensures
        position(records, filter) == i,
{
    position_is_first(records, filter);
    let p = position(records, filter);
    if p < i {
        assert(!selects(filter, records[p]));
    } else if i < p {
        assert(!selects(filter, records[i]));
    }
}

/// A record that is added to a collection which does not hold its
/// identifier is then the one that the identifier selects.
pub proof fn first_selected_after_push(records: Seq<TicketView>, t: TicketView)
    requires
        !has_id(records, t.id),
    ensures
        first_selected(records.push(t), FilterView::Id(t.id)) == Some(t),
{
    let filter = FilterView::Id(t.id);
    position_is_first(records, filter);
    let after = records.push(t);
    assert forall|j: int| 0 <= j < records.len() implies !selects(filter, #[trigger] after[j]) by {
        assert(after[j] == records[j]);
    }
    first_is_position(after, filter, records.len() as int);
}

/// Whether no two records of a collection have one identifier.
pub open spec fn unique_ids(records: Seq<TicketView>) -> bool {
    forall|i: int, j: int|
        0 <= i < j < records.len() ==> (#[trigger] records[i]).id != (#[trigger] records[j]).id
}

/// A collection holds an identifier exactly if one of its records has it.
pub proof fn has_id_means_some_record(records: Seq<TicketView>, id: Seq<u8>)
    ensures
        has_id(records, id) <==> exists|i: int| 0 <= i < records.len() && (#[trigger] records[i]).id == id,
{
    let filter = FilterView::Id(id);
    position_is_first(records, filter);
    if has_id(records, id) {
        assert(records[position(records, filter)].id == id);
    }
    if exists|i: int| 0 <= i < records.len() && (#[trigger] records[i]).id == id {
        let i = choose|i: int| 0 <= i < records.len() && (#[trigger] records[i]).id == id;
        assert(selects(filter, records[i]));
    }
}

/// A collection without two records of one identifier stays so when a
/// record is added whose identifier it does not hold.
pub proof fn unique_after_push(records: Seq<TicketView>, t: TicketView)
    requires
        unique_ids(records),
        !has_id(records, t.id),
    ensures
        unique_ids(records.push(t)),
{
    has_id_means_some_record(records, t.id);
    let after = records.push(t);
    assert forall|i: int, j: int| 0 <= i < j < after.len() implies (#[trigger] after[i]).id != (
    #[trigger] after[j]).id by {
        assert(after[i] == records[i]);
        if j < records.len() {
            assert(after[j] == records[j]);
        }
    }
}

/// A collection without two records of one identifier stays so when a
/// record is removed, and the identifier of a record that a filter by
/// identifier removed is then held no more.
pub proof fn unique_after_removal(records: Seq<TicketView>, filter: FilterView)
    requires
        unique_ids(records),
    ensures
        unique_ids(without_first(records, filter)),
        filter matches FilterView::Id(id) ==> !has_id(without_first(records, filter), id),
        forall|id: Seq<u8>| has_id(without_first(records, filter), id) ==> has_id(records, id),
{
    position_is_first(records, filter);
    let p = position(records, filter);
    let after = without_first(records, filter);
    if p < records.len() {
        assert forall|i: int| 0 <= i < after.len() implies #[trigger] after[i] == records[if i
            < p {
            i
        } else {
            i + 1
        }] by {}
        assert forall|i: int, j: int| 0 <= i < j < after.len() implies (#[trigger] after[i]).id
            != (#[trigger] after[j]).id by {
            let a = if i < p { i } else { i + 1 };
            let b = if j < p { j } else { j + 1 };
            assert(after[i] == records[a] && after[j] == records[b]);
        }
    }
    assert forall|id: Seq<u8>| has_id(after, id) implies has_id(records, id) by {
        has_id_means_some_record(after, id);
        has_id_means_some_record(records, id);
        let i = choose|i: int| 0 <= i < after.len() && (#[trigger] after[i]).id == id;
        if p < records.len() {
            let a = if i < p { i } else { i + 1 };
            assert(records[a].id == id);
        }
    }
    match filter {
        FilterView::Id(id) => {
            has_id_means_some_record(after, id);
            if has_id(after, id) {
                let i = choose|i: int| 0 <= i < after.len() && (#[trigger] after[i]).id == id;
                if p < records.len() {
                    let a = if i < p { i } else { i + 1 };
                    assert(after[i] == records[a]);
                    assert(records[p].id == id);
                    if a < p {
                        assert(records[a].id != records[p].id);
                    } else {
                        assert(records[p].id != records[a].id);
                    }
                } else {
                    assert(!selects(filter, records[i]));
                }
            }
        },
        _ => {},
    }
}

/// The passenger details that an update can touch.
#[derive(Clone, Copy, Debug, PartialEq, Eq, Structural)]
pub enum PassengerField {
    Ssn,
    Name,
    Surname,
    BirthDate,
    Email,
}

/// The field that an update path names, if it names one.
pub open spec fn field_of_path(path: Seq<char>) -> Option<PassengerField> {
    if path == "passenger.ssn"@ {
        Some(PassengerField::Ssn)
    } else if path == "passenger.name"@ {
        Some(PassengerField::Name)
    } else if path == "passenger.surname"@ {
        Some(PassengerField::Surname)
    } else if path == "passenger.birth_date"@ {
        Some(PassengerField::BirthDate)
    } else if path == "passenger.email"@ {
        Some(PassengerField::Email)
    } else {
        None
    }
}

impl PassengerField {
    /// The field that an update path names.
    pub fn from_path(path: &str) -> (field: Option<PassengerField>)
        ensures
            field == field_of_path(path@),
    {
        if str_equal(path, "passenger.ssn") {
            Some(PassengerField::Ssn)
        } else if str_equal(path, "passenger.name") {
            Some(PassengerField::Name)
        } else if str_equal(path, "passenger.surname") {
            Some(PassengerField::Surname)
        } else if str_equal(path, "passenger.birth_date") {
            Some(PassengerField::BirthDate)
        } else if str_equal(path, "passenger.email") {
            Some(PassengerField::Email)
        } else {
            None
        }
    }
}

/// A sparse update of a record: the new value of each passenger detail that
/// changes.
#[derive(Debug, PartialEq)]
pub struct PassengerUpdate {
    pub ssn: Option<String>,
    pub name: Option<String>,
    pub surname: Option<String>,
    pub birth_date: Option<DateTime>,
    pub email: Option<String>,
}

/// What a [`PassengerUpdate`] holds.
pub struct PassengerUpdateView {
    pub ssn: Option<Seq<char>>,
    pub name: Option<Seq<char>>,
    pub surname: Option<Seq<char>>,
    pub birth_date: Option<int>,
    pub email: Option<Seq<char>>,
}

/// What an optional string holds.
pub open spec fn optional_text(text: Option<String>) -> Option<Seq<char>> {
    match text {
        Some(text) => Some(text@),
        None => None,
    }
}

impl View for PassengerUpdate {
    type V = PassengerUpdateView;

    open spec fn view(&self) -> PassengerUpdateView {
        PassengerUpdateView {
            ssn: optional_text(self.ssn),
            name: optional_text(self.name),
            surname: optional_text(self.surname),
            birth_date: match self.birth_date {
                Some(date) => Some(date@),
                None => None,
            },
            email: optional_text(self.email),
        }
    }
}

/// Whether one of the paths names a field.
pub open spec fn names(paths: Seq<Seq<char>>, field: PassengerField) -> bool {
    exists|i: int| 0 <= i < paths.len() && #[trigger] field_of_path(paths[i]) == Some(field)
}

/// The first path that names no field, if there is one.
pub open spec fn rejected_path(paths: Seq<Seq<char>>) -> Option<Seq<char>>
    decreases paths.len(),
{
    if paths.len() == 0 {
        None
    } else if field_of_path(paths[0]) is None {
        Some(paths[0])
    } else {
        rejected_path(paths.drop_first())
    }
}

/// Whether every path names a field.
pub open spec fn all_recognized(paths: Seq<Seq<char>>) -> bool {
    forall|i: int| 0 <= i < paths.len() ==> (#[trigger] field_of_path(paths[i])) is Some
}

/// Whether `path` is, of the paths that name no field, the one that sorts
/// first.
pub open spec fn first_rejected(paths: Seq<Seq<char>>, path: Seq<char>) -> bool {
    &&& paths.contains(path)
    &&& field_of_path(path) is None
    &&& forall|other: Seq<char>|
        paths.contains(other) && field_of_path(other) is None && other != path ==> precedes(
            path,
            other,
        )
}

/// The rejected path of a list is the first in it that names no field; none
/// is rejected where every path names one.
pub proof fn rejected_path_is_first(paths: Seq<Seq<char>>)
    ensures
        match rejected_path(paths) {
            None => all_recognized(paths),
            Some(path) => exists|k: int|
                {
                    &&& 0 <= k < paths.len()
                    &&& #[trigger] paths[k] == path
                    &&& field_of_path(path) is None
                    &&& forall|j: int| 0 <= j < k ==> (#[trigger] field_of_path(paths[j])) is Some
                },
        },
    decreases paths.len(),
{
    if paths.len() > 0 {
        if field_of_path(paths[0]) is None {
            assert(paths[0] == paths[0]);
        } else {
            let rest = paths.drop_first();
            rejected_path_is_first(rest);
            match rejected_path(rest) {
                None => {
                    assert forall|i: int| 0 <= i < paths.len() implies (#[trigger] field_of_path(
                        paths[i],
                    )) is Some by {
                        if i > 0 {
                            assert(paths[i] == rest[i - 1]);
                        }
                    }
                },
                Some(path) => {
                    let k = choose|k: int|
                        {
                            &&& 0 <= k < rest.len()
                            &&& #[trigger] rest[k] == path
                            &&& field_of_path(path) is None
                            &&& forall|j: int|
                                0 <= j < k ==> (#[trigger] field_of_path(rest[j])) is Some
                        };
                    assert(paths[k + 1] == path);
                    assert forall|j: int| 0 <= j < k + 1 implies (#[trigger] field_of_path(
                        paths[j],
                    )) is Some by {
                        if j > 0 {
                            assert(paths[j] == rest[j - 1]);
                        }
                    }
                },
            }
        }
    }
}

/// Of a mask and its paths in sorted order: a path is rejected from the
/// sorted list exactly where the mask holds a path that names no field, and
/// it is the one of them that sorts first; and both lists name the same
/// fields.
pub proof fn rejection_of_sorted(sorted: Seq<Seq<char>>, mask: Seq<Seq<char>>)
    requires
        strictly_ascending(sorted),
        same_paths(sorted, mask),
    ensures
        rejected_path(sorted) is None <==> all_recognized(mask),
        rejected_path(sorted) matches Some(path) ==> first_rejected(mask, path),
        forall|field: PassengerField| names(sorted, field) <==> names(mask, field),
{
    rejected_path_is_first(sorted);
    assert forall|field: PassengerField| names(sorted, field) <==> names(mask, field) by {
        if names(sorted, field) {
            let i = choose|i: int|
                0 <= i < sorted.len() && #[trigger] field_of_path(sorted[i]) == Some(field);
            assert(sorted.contains(sorted[i]));
            let j = choose|j: int| 0 <= j < mask.len() && mask[j] == sorted[i];
            assert(field_of_path(mask[j]) == Some(field));
        }
        if names(mask, field) {
            let i = choose|i: int|
                0 <= i < mask.len() && #[trigger] field_of_path(mask[i]) == Some(field);
            assert(mask.contains(mask[i]));
            let j = choose|j: int| 0 <= j < sorted.len() && sorted[j] == mask[i];
            assert(field_of_path(sorted[j]) == Some(field));
        }
    }
    match rejected_path(sorted) {
        None => {
            assert forall|i: int| 0 <= i < mask.len() implies (#[trigger] field_of_path(
                mask[i],
            )) is Some by {
                assert(mask.contains(mask[i]));
                let j = choose|j: int| 0 <= j < sorted.len() && sorted[j] == mask[i];
                assert(field_of_path(sorted[j]) is Some);
            }
        },
        Some(path) => {
            let k = choose|k: int|
                {
                    &&& 0 <= k < sorted.len()
                    &&& #[trigger] sorted[k] == path
                    &&& field_of_path(path) is None
                    &&& forall|j: int| 0 <= j < k ==> (#[trigger] field_of_path(sorted[j])) is Some
                };
            assert(sorted.contains(path));
            assert forall|other: Seq<char>|
                mask.contains(other) && field_of_path(other) is None && other
                    != path implies precedes(path, other) by {
                assert(sorted.contains(other));
                let j = choose|j: int| 0 <= j < sorted.len() && sorted[j] == other;
                if j < k {
                    assert(field_of_path(sorted[j]) is Some);
                }
            }
            let m = choose|m: int| 0 <= m < mask.len() && mask[m] == path;
            assert(field_of_path(mask[m]) is None);
        },
    }
}

/// The update that takes from a passenger the details that the paths name,
/// and no others.
pub open spec fn update_of(passenger: PassengerView, paths: Seq<Seq<char>>) -> PassengerUpdateView {
    PassengerUpdateView {
        ssn: if names(paths, PassengerField::Ssn) {
            Some(passenger.ssn)
        } else {
            None
        },
        name: if names(paths, PassengerField::Name) {
            Some(passenger.name)
        } else {
            None
        },
        surname: if names(paths, PassengerField::Surname) {
            Some(passenger.surname)
        } else {
            None
        },
        birth_date: if names(paths, PassengerField::BirthDate) {
            Some(passenger.birth_date)
        } else {
            None
        },
        email: if names(paths, PassengerField::Email) {
            Some(passenger.email)
        } else {
            None
        },
    }
}

/// A record after an update: the details that the update holds are replaced,
/// everything else stays.
pub open spec fn updated(t: TicketView, update: PassengerUpdateView) -> TicketView {
    TicketView {
        passenger: PassengerView {
            ssn: match update.ssn {
                Some(ssn) => ssn,
                None => t.passenger.ssn,
            },
            name: match update.name {
                Some(name) => name,
                None => t.passenger.name,
            },
            surname: match update.surname {
                Some(surname) => surname,
                None => t.passenger.surname,
            },
            birth_date: match update.birth_date {
                Some(birth_date) => birth_date,
                None => t.passenger.birth_date,
            },
            email: match update.email {
                Some(email) => email,
                None => t.passenger.email,
            },
        },
        ..t
    }
}

/// The collection after an update of the first record that a filter selects.
pub open spec fn with_update(
    records: Seq<TicketView>,
    filter: FilterView,
    update: PassengerUpdateView,
) -> Seq<TicketView> {
    if position(records, filter) < records.len() {
        records.update(
            position(records, filter),
            updated(records[position(records, filter)], update),
        )
    } else {
        records
    }
}

/// An update changes the record that an identifier selects, and no other:
/// the identifier then selects the changed record; where it selects none,
/// the collection stays as it is.
pub proof fn first_selected_after_update(
    records: Seq<TicketView>,
    id: Seq<u8>,
    update: PassengerUpdateView,
)
    ensures
        first_selected(with_update(records, FilterView::Id(id), update), FilterView::Id(id))
            == match first_selected(records, FilterView::Id(id)) {
            Some(t) => Some(updated(t, update)),
            None => None,
        },
        !has_id(records, id) ==> with_update(records, FilterView::Id(id), update) == records,
{
    let filter = FilterView::Id(id);
    position_is_first(records, filter);
    let p = position(records, filter);
    let after = with_update(records, filter, update);
    if p < records.len() {
        assert forall|j: int| 0 <= j < p implies !selects(filter, #[trigger] after[j]) by {
            assert(after[j] == records[j]);
        }
        first_is_position(after, filter, p);
    }
}

/// A collection without two records of one identifier stays so under an
/// update, which changes no identifier.
pub proof fn unique_after_update(
    records: Seq<TicketView>,
    filter: FilterView,
    update: PassengerUpdateView,
)
    requires
        unique_ids(records),
    ensures
        unique_ids(with_update(records, filter, update)),
{
    position_is_first(records, filter);
    let p = position(records, filter);
    let after = with_update(records, filter, update);
    assert forall|i: int, j: int| 0 <= i < j < after.len() implies (#[trigger] after[i]).id != (
    #[trigger] after[j]).id by {
        assert(after[i].id == records[i].id);
        assert(after[j].id == records[j].id);
    }
}

/// After a ticket in force was moved to the deleted ones, a lookup by its
/// identifier finds it no more among the tickets in force; where deleted
/// tickets are allowed, it finds the ticket with the state of a deleted one.
pub proof fn lookup_after_delete(tickets: Seq<TicketView>, deleted: Seq<TicketView>, id: Seq<u8>)
    requires
        unique_ids(tickets),
        has_id(tickets, id),
        !has_id(deleted, id),
    ensures
        ({
            let t = first_selected(tickets, FilterView::Id(id))->0;
            let tickets_then = without_first(tickets, FilterView::Id(id));
            let deleted_then = deleted.push(invalidated(t));
            &&& !has_id(tickets_then, id)
            &&& looked_up(tickets_then, deleted_then, FilterView::Id(id), false) is None
            &&& looked_up(tickets_then, deleted_then, FilterView::Id(id), true) == Some(
                invalidated(t),
            )
            &&& invalidated(t).ticket_status == "DELETED"@
        }),
{
    let t = first_selected(tickets, FilterView::Id(id))->0;
    position_is_first(tickets, FilterView::Id(id));
    unique_after_removal(tickets, FilterView::Id(id));
    first_selected_after_push(deleted, invalidated(t));
}

/// What building an update from a passenger's details and a list of paths
/// gives: the update, or the first path that names no field.
pub open spec fn update_document_of(passenger: PassengerView, paths: Seq<Seq<char>>) -> Result<
    PassengerUpdateView,
    ApplicationErrorView,
> {
    match rejected_path(paths) {
        Some(path) => Err(ApplicationErrorView::InvalidUpdatePath { path }),
        None => Ok(update_of(passenger, paths)),
    }
}

/// What a result says, its values taken by their views.
pub open spec fn update_result_view(r: Result<PassengerUpdate, ApplicationError>) -> Result<
    PassengerUpdateView,
    ApplicationErrorView,
> {
    match r {
        Ok(update) => Ok(update@),
        Err(error) => Err(error@),
    }
}

/// Builds the sparse update that a list of paths asks for, with the values
/// of the given passenger. The paths are read in order; the first that names
/// no passenger detail ends the reading and is reported.
pub fn update_document(passenger: &Passenger, update_paths: &Vec<String>) -> (built: Result<
    PassengerUpdate,
    ApplicationError,
>)
    ensures
        update_result_view(built) == update_document_of(passenger@, texts(update_paths@)),
{
    let ghost paths = texts(update_paths@);
    let mut update = PassengerUpdate {
        ssn: None,
        name: None,
        surname: None,
        birth_date: None,
        email: None,
    };
    let mut i: usize = 0;
    proof {
        assert(paths.skip(0) =~= paths);
    }
    while i < update_paths.len()
        invariant
            i <= update_paths.len(),
            paths == texts(update_paths@),
            rejected_path(paths) == rejected_path(paths.skip(i as int)),
            update@ == update_of(passenger@, paths.take(i as int)),
        decreases update_paths.len() - i,
    {
        let field = &update_paths[i];
        let ghost seen = paths.take(i as int);
        let ghost next = paths.take(i as int + 1);
        proof {
            assert(paths.skip(i as int)[0] == field@);
            assert(paths.skip(i as int).drop_first() =~= paths.skip(i as int + 1));
            assert(next =~= seen.push(field@));
            assert forall|f: PassengerField| names(next, f) <==> names(seen, f) || field_of_path(
                field@,
            ) == Some(f) by {
                if names(seen, f) {
                    let k = choose|k: int|
                        0 <= k < seen.len() && #[trigger] field_of_path(seen[k]) == Some(f);
                    assert(field_of_path(next[k]) == Some(f));
                }
                if field_of_path(field@) == Some(f) {
                    assert(field_of_path(next[i as int]) == Some(f));
                }
                if names(next, f) {
                    let k = choose|k: int|
                        0 <= k < next.len() && #[trigger] field_of_path(next[k]) == Some(f);
                    if k < i {
                        assert(field_of_path(seen[k]) == Some(f));
                    }
                }
            }
        }
        match PassengerField::from_path(field.as_str()) {
            Some(PassengerField::Ssn) => {
                update.ssn = Some(passenger.ssn.clone());
            },
            Some(PassengerField::Name) => {
                update.name = Some(passenger.name.clone());
            },
            Some(PassengerField::Surname) => {
                update.surname = Some(passenger.surname.clone());
            },
            Some(PassengerField::BirthDate) => {
                update.birth_date = Some(passenger.birth_date);
            },
            Some(PassengerField::Email) => {
                update.email = Some(passenger.email.clone());
            },
            None => {
                return Err(ApplicationError::invalid_update_path(field.clone()));
            },
        }
        i = i + 1;
    }
    proof {
        assert(paths.take(i as int) =~= paths);
        assert(paths.skip(i as int).len() == 0);
    }
    Ok(update)
}

/// What a store operation gives: its result or the failure.
pub type DbResult<T> = Result<T, ApplicationError>;

/// The record with the state of a deleted ticket.
pub open spec fn invalidated(t: TicketView) -> TicketView {
    TicketView { ticket_status: "DELETED"@, ..t }
}

/// The status with which a lookup that finds nothing fails.
pub open spec fn ticket_not_found() -> ApplicationErrorView {
    ApplicationErrorView::NotFound { details: "ticket not found"@ }
}

/// The filter for a flight, or for every record where no flight is named.
pub open spec fn flight_filter(flight_id: Option<&str>) -> FilterView {
    match flight_id {
        Some(flight_id) => FilterView::Flight(flight_id@),
        None => FilterView::Any,
    }
}

/// What listing gives: the tickets in force that the flight filter selects,
/// followed, where they are asked for, by all the deleted ones.
pub open spec fn listed(
    tickets: Seq<TicketView>,
    deleted: Seq<TicketView>,
    include_nonvalid: bool,
    filter: FilterView,
) -> Seq<TicketView> {
    if include_nonvalid {
        selected(tickets, filter) + deleted
    } else {
        selected(tickets, filter)
    }
}

/// What a lookup gives: the first ticket in force that the filter selects;
/// if there is none and deleted tickets are allowed, the first deleted one.
pub open spec fn looked_up(
    tickets: Seq<TicketView>,
    deleted: Seq<TicketView>,
    filter: FilterView,
    allow_nonvalid: bool,
) -> Option<TicketView> {
    match first_selected(tickets, filter) {
        Some(t) => Some(t),
        None => if allow_nonvalid {
            first_selected(deleted, filter)
        } else {
            None
        },
    }
}

/// The number of tickets in force for a flight, as far as 32 bits can tell
/// it.
pub open spec fn existing_tickets(tickets: Seq<TicketView>, flight_id: Seq<char>) -> int {
    let count = selected(tickets, FilterView::Flight(flight_id)).len() as int;
    if count <= u32::MAX {
        count
    } else {
        u32::MAX as int
    }
}

/// How a deletion that the store failed can leave the two collections: each
/// as it was or as the deletion would have it, and the ticket gone from the
/// tickets in force only if it is kept among the deleted ones. So a failed
/// deletion may leave a ticket in both collections, and never in neither.
pub open spec fn half_deleted(
    tickets: Seq<TicketView>,
    deleted: Seq<TicketView>,
    tickets_then: Seq<TicketView>,
    deleted_then: Seq<TicketView>,
    id: Seq<u8>,
) -> bool {
    let kept = first_selected(tickets, FilterView::Id(id)) matches Some(t) && deleted_then
        == deleted.push(invalidated(t));
    &&& deleted_then == deleted || kept
    &&& tickets_then == tickets || (kept && tickets_then == without_first(
        tickets,
        FilterView::Id(id),
    ))
}

/// The number of records that a filter selects, as it is after a record
/// was removed: one less if the filter selects the record, else the same.
pub proof fn selected_after_removal(records: Seq<TicketView>, index: int, filter: FilterView)
    requires
        0 <= index < records.len(),
    ensures
        selected(records.remove(index), filter).len() == if selects(filter, records[index]) {
            selected(records, filter).len() - 1
        } else {
            selected(records, filter).len() as int
        },
{
    let before = records.subrange(0, index);
    let after = records.subrange(index + 1, records.len() as int);
    let one = seq![records[index]];
    assert(records =~= before + one + after);
    assert(records.remove(index) =~= before + after);
    Seq::filter_distributes_over_add(before + one, after, selector(filter));
    Seq::filter_distributes_over_add(before, one, selector(filter));
    Seq::filter_distributes_over_add(before, after, selector(filter));
    assert(one =~= Seq::<TicketView>::empty().push(records[index]));
    selected_of_none(filter);
    selected_after_push(Seq::empty(), records[index], filter);
}

/// A ticket that is added to those in force takes one seat of its flight,
/// and none of another flight.
pub proof fn seats_after_creation(tickets: Seq<TicketView>, t: TicketView, flight_id: Seq<char>)
    requires
        existing_tickets(tickets, flight_id) < u32::MAX,
    ensures
        existing_tickets(tickets.push(t), flight_id) == if t.flight_id == flight_id {
            existing_tickets(tickets, flight_id) + 1
        } else {
            existing_tickets(tickets, flight_id)
        },
{
    selected_after_push(tickets, t, FilterView::Flight(flight_id));
}

/// A ticket that is taken from those in force frees one seat of its flight,
/// and none of another flight.
pub proof fn seats_after_deletion(tickets: Seq<TicketView>, id: Seq<u8>, flight_id: Seq<char>)
    requires
        has_id(tickets, id),
        selected(tickets, FilterView::Flight(flight_id)).len() <= u32::MAX,
    ensures
        existing_tickets(without_first(tickets, FilterView::Id(id)), flight_id) == if first_selected(
            tickets,
            FilterView::Id(id),
        )->0.flight_id == flight_id {
            existing_tickets(tickets, flight_id) - 1
        } else {
            existing_tickets(tickets, flight_id)
        },
{
    position_is_first(tickets, FilterView::Id(id));
    selected_after_removal(
        tickets,
        position(tickets, FilterView::Id(id)),
        FilterView::Flight(flight_id),
    );
}

/// A store of tickets in two collections, with the operations of a document
/// store on each, and the operations of the ticket service built on them.
///
/// Each collection is a sequence of records in the order in which the store
/// keeps them. The store admits no two records with one identifier in a
/// collection. An operation may fail for reasons of the store's own, with the
/// store's report; a dependable store never does.
pub trait TicketDatabase {
    /// The records of a collection. A store that is verified says here what
    /// it holds; for one that does not say, what it holds is left open.
    open spec fn records(&self, collection: Collection) -> Seq<TicketView> {
        arbitrary()
    }

    /// Whether the store fails only where its data demand it. A store that
    /// does not say so is not taken to be dependable.
    open spec fn dependable(&self) -> bool {
        false
    }

    /// The records of a collection that a filter selects, in order.
    fn find(&self, collection: Collection, filter: &Filter) -> (found: DbResult<Vec<Ticket>>)
        ensures
            unique_ids(self.records(collection)),
            match found {
                Ok(tickets) => ticket_views(tickets@) == selected(
                    self.records(collection),
                    filter@,
                ),
                Err(error) => error is MongoError && !self.dependable(),
            },
    ;

    /// The first record of a collection that a filter selects.
    fn find_one(&self, collection: Collection, filter: &Filter) -> (found: DbResult<
        Option<Ticket>,
    >)
        ensures
            unique_ids(self.records(collection)),
            match found {
                Ok(Some(ticket)) => first_selected(self.records(collection), filter@) == Some(
                    ticket@,
                ),
                Ok(None) => first_selected(self.records(collection), filter@) is None,
                Err(error) => error is MongoError && !self.dependable(),
            },
    ;

    /// Adds a record at the end of a collection and gives its identifier. A
    /// record whose identifier the collection holds already is refused.
    fn insert_one(&mut self, collection: Collection, ticket: Ticket) -> (inserted: DbResult<
        ObjectId,
    >)
        ensures
            unique_ids(final(self).records(collection)),
            final(self).dependable() == old(self).dependable(),
            final(self).records(collection.other()) == old(self).records(collection.other()),
            match inserted {
                Ok(id) => {
                    &&& id@ == ticket@.id
                    &&& !has_id(old(self).records(collection), ticket@.id)
                    &&& final(self).records(collection) == old(self).records(collection).push(
                        ticket@,
                    )
                },
                Err(error) => {
                    &&& error is MongoError
                    &&& old(self).dependable() ==> {
                        &&& has_id(old(self).records(collection), ticket@.id)
                        &&& final(self).records(collection) == old(self).records(collection)
                    }
                    &&& final(self).records(collection) == old(self).records(collection) || {
                        &&& !has_id(old(self).records(collection), ticket@.id)
                        &&& final(self).records(collection) == old(self).records(
                            collection,
                        ).push(ticket@)
                    }
                },
            },
    ;

    /// Removes the first record of a collection that a filter selects, if it
    /// selects one.
    fn delete_one(&mut self, collection: Collection, filter: &Filter) -> (deleted: DbResult<()>)
        ensures
            unique_ids(final(self).records(collection)),
            final(self).dependable() == old(self).dependable(),
            final(self).records(collection.other()) == old(self).records(collection.other()),
            match deleted {
                Ok(()) => final(self).records(collection) == without_first(
                    old(self).records(collection),
                    filter@,
                ),
                Err(error) => {
                    &&& error is MongoError
                    &&& !old(self).dependable()
                    &&& final(self).records(collection) == old(self).records(collection)
                        || final(self).records(collection) == without_first(
                        old(self).records(collection),
                        filter@,
                    )
                },
            },
    ;

    /// Applies a sparse update to the first record of a collection that a
    /// filter selects, if it selects one.
    fn update_one(
        &mut self,
        collection: Collection,
        filter: &Filter,
        update: &PassengerUpdate,
    ) -> (updated: DbResult<()>)
        ensures
            unique_ids(final(self).records(collection)),
            final(self).dependable() == old(self).dependable(),
            final(self).records(collection.other()) == old(self).records(collection.other()),
            match updated {
                Ok(()) => final(self).records(collection) == with_update(
                    old(self).records(collection),
                    filter@,
                    update@,
                ),
                Err(error) => {
                    &&& error is MongoError
                    &&& !old(self).dependable()
                    &&& final(self).records(collection) == old(self).records(collection)
                        || final(self).records(collection) == with_update(
                        old(self).records(collection),
                        filter@,
                        update@,
                    )
                },
            },
    ;

    /// The number of records of a collection that a filter selects.
    fn count_documents(&self, collection: Collection, filter: &Filter) -> (counted: DbResult<u64>)
        ensures
            unique_ids(self.records(collection)),
            match counted {
                Ok(count) => count == selected(self.records(collection), filter@).len(),
                Err(error) => error is MongoError && !self.dependable(),
            },
    ;

    /// The tickets in force, of one flight or of all, followed by the deleted
    /// tickets of all flights where those are asked for.
    fn list_tickets(&self, include_nonvalid: bool, flight_id: Option<&str>) -> (list: DbResult<
        Vec<Ticket>,
    >)
        ensures
            unique_ids(self.records(Collection::Tickets)),
            match list {
                Ok(tickets) => ticket_views(tickets@) == listed(
                    self.records(Collection::Tickets),
                    self.records(Collection::DeletedTickets),
                    include_nonvalid,
                    flight_filter(flight_id),
                ),
                Err(error) => error is MongoError && !self.dependable(),
            },
    {
        let query = match flight_id {
            Some(flight_id) => Filter::Flight(flight_id.to_owned()),
            None => Filter::Any,
        };
        let mut tickets = match self.find(Collection::Tickets, &query) {
            Ok(tickets) => tickets,
            Err(error) => {
                return Err(error);
            },
        };
        if include_nonvalid {
            let mut deleted_tickets = match self.find(Collection::DeletedTickets, &Filter::Any) {
                Ok(tickets) => tickets,
                Err(error) => {
                    return Err(error);
                },
            };
            proof {
                let deleted = self.records(Collection::DeletedTickets);
                selected_by_any(deleted);
                assert(ticket_views(tickets@ + deleted_tickets@) =~= ticket_views(tickets@)
                    + ticket_views(deleted_tickets@));
            }
            tickets.append(&mut deleted_tickets);
        }
        Ok(tickets)
    }

    /// The ticket with an identifier: the one in force, or, where deleted
    /// tickets are allowed and none is in force, the deleted one.
    fn get_ticket(&self, id: ObjectId, allow_nonvalid: bool) -> (found: DbResult<Ticket>)
        ensures
            unique_ids(self.records(Collection::Tickets)),
            match found {
                Ok(ticket) => looked_up(
                    self.records(Collection::Tickets),
                    self.records(Collection::DeletedTickets),
                    FilterView::Id(id@),
                    allow_nonvalid,
                ) == Some(ticket@),
                Err(error) => if error is MongoError {
                    !self.dependable()
                } else {
                    &&& error@ == ticket_not_found()
                    &&& looked_up(
                        self.records(Collection::Tickets),
                        self.records(Collection::DeletedTickets),
                        FilterView::Id(id@),
                        allow_nonvalid,
                    ) is None
                },
            },
    {
        let filter = Filter::Id(id);
        let ticket = match self.find_one(Collection::Tickets, &filter) {
            Ok(ticket) => ticket,
            Err(error) => {
                return Err(error);
            },
        };
        match ticket {
            Some(t) => Ok(t),
            None => {
                if allow_nonvalid {
                    let ticket = match self.find_one(Collection::DeletedTickets, &filter) {
                        Ok(ticket) => ticket,
                        Err(error) => {
                            return Err(error);
                        },
                    };
                    match ticket {
                        Some(t) => Ok(t),
                        None => Err(ApplicationError::not_found("ticket not found")),
                    }
                } else {
                    Err(ApplicationError::not_found("ticket not found"))
                }
            },
        }
    }

    /// The ticket with a lookup token: the one in force, or, where deleted
    /// tickets are allowed and none is in force, the deleted one.
    fn get_ticket_from_url(&self, url: String, allow_nonvalid: bool) -> (found: DbResult<Ticket>)
        ensures
            unique_ids(self.records(Collection::Tickets)),
            match found {
                Ok(ticket) => looked_up(
                    self.records(Collection::Tickets),
                    self.records(Collection::DeletedTickets),
                    FilterView::Url(url@),
                    allow_nonvalid,
                ) == Some(ticket@),
                Err(error) => if error is MongoError {
                    !self.dependable()
                } else {
                    &&& error@ == ticket_not_found()
                    &&& looked_up(
                        self.records(Collection::Tickets),
                        self.records(Collection::DeletedTickets),
                        FilterView::Url(url@),
                        allow_nonvalid,
                    ) is None
                },
            },
    {
        let filter = Filter::Url(url);
        let ticket = match self.find_one(Collection::Tickets, &filter) {
            Ok(ticket) => ticket,
            Err(error) => {
                return Err(error);
            },
        };
        match ticket {
            Some(t) => Ok(t),
            None => {
                if allow_nonvalid {
                    let ticket = match self.find_one(Collection::DeletedTickets, &filter) {
                        Ok(ticket) => ticket,
                        Err(error) => {
                            return Err(error);
                        },
                    };
                    match ticket {
                        Some(t) => Ok(t),
                        None => Err(ApplicationError::not_found("ticket not found")),
                    }
                } else {
                    Err(ApplicationError::not_found("ticket not found"))
                }
            },
        }
    }

    /// Adds a ticket to those in force. Its identifier, token and state are
    /// the caller's to set.
    fn create_ticket(&mut self, ticket: Ticket) -> (created: DbResult<ObjectId>)
        ensures
            final(self).dependable() == old(self).dependable(),
            final(self).records(Collection::DeletedTickets) == old(self).records(
                Collection::DeletedTickets,
            ),
            match created {
                Ok(id) => {
                    &&& id@ == ticket@.id
                    &&& !has_id(old(self).records(Collection::Tickets), ticket@.id)
                    &&& final(self).records(Collection::Tickets) == old(self).records(
                        Collection::Tickets,
                    ).push(ticket@)
                },
                Err(error) => {
                    &&& error is MongoError
                    &&& old(self).dependable() ==> {
                        &&& has_id(old(self).records(Collection::Tickets), ticket@.id)
                        &&& final(self).records(Collection::Tickets) == old(self).records(
                            Collection::Tickets,
                        )
                    }
                    &&& final(self).records(Collection::Tickets) == old(self).records(
                        Collection::Tickets,
                    ) || {
                        &&& !has_id(old(self).records(Collection::Tickets), ticket@.id)
                        &&& final(self).records(Collection::Tickets) == old(self).records(
                            Collection::Tickets,
                        ).push(ticket@)
                    }
                },
            },
    {
        self.insert_one(Collection::Tickets, ticket)
    }

    /// Moves a ticket in force to the deleted ones, with the state of a
    /// deleted ticket: it is added there first and removed here afterwards.
    /// A ticket that is not in force is not found.
    fn delete_ticket(&mut self, id: ObjectId) -> (deleted: DbResult<()>)
        ensures
            final(self).dependable() == old(self).dependable(),
            match deleted {
                Ok(()) => {
                    &&& first_selected(old(self).records(Collection::Tickets), FilterView::Id(id@))
                        matches Some(t)
                    &&& !has_id(old(self).records(Collection::DeletedTickets), id@)
                    &&& final(self).records(Collection::DeletedTickets) == old(self).records(
                        Collection::DeletedTickets,
                    ).push(invalidated(t))
                    &&& final(self).records(Collection::Tickets) == without_first(
                        old(self).records(Collection::Tickets),
                        FilterView::Id(id@),
                    )
                    &&& looked_up(
                        final(self).records(Collection::Tickets),
                        final(self).records(Collection::DeletedTickets),
                        FilterView::Id(id@),
                        false,
                    ) is None
                    &&& looked_up(
                        final(self).records(Collection::Tickets),
                        final(self).records(Collection::DeletedTickets),
                        FilterView::Id(id@),
                        true,
                    ) == Some(invalidated(t))
                },
                Err(error) => if error is MongoError {
                    &&& old(self).dependable() ==> {
                        &&& has_id(old(self).records(Collection::Tickets), id@)
                        &&& has_id(old(self).records(Collection::DeletedTickets), id@)
                        &&& final(self).records(Collection::Tickets) == old(self).records(
                            Collection::Tickets,
                        )
                        &&& final(self).records(Collection::DeletedTickets) == old(self).records(
                            Collection::DeletedTickets,
                        )
                    }
                    &&& half_deleted(
                        old(self).records(Collection::Tickets),
                        old(self).records(Collection::DeletedTickets),
                        final(self).records(Collection::Tickets),
                        final(self).records(Collection::DeletedTickets),
                        id@,
                    )
                } else {
                    &&& error@ == ticket_not_found()
                    &&& !has_id(old(self).records(Collection::Tickets), id@)
                    &&& final(self).records(Collection::Tickets) == old(self).records(
                        Collection::Tickets,
                    )
                    &&& final(self).records(Collection::DeletedTickets) == old(self).records(
                        Collection::DeletedTickets,
                    )
                },
            },
    {
        let mut ticket = match self.get_ticket(id, false) {
            Ok(ticket) => ticket,
            Err(error) => {
                return Err(error);
            },
        };
        proof {
            position_is_first(self.records(Collection::Tickets), FilterView::Id(id@));
            if !has_id(self.records(Collection::DeletedTickets), id@) {
                lookup_after_delete(
                    self.records(Collection::Tickets),
                    self.records(Collection::DeletedTickets),
                    id@,
                );
            }
        }
        ticket.ticket_status = TicketStatus::Deleted.as_str_name().to_owned();
        match self.insert_one(Collection::DeletedTickets, ticket) {
            Ok(_) => {},
            Err(error) => {
                return Err(error);
            },
        }
        self.delete_one(Collection::Tickets, &Filter::Id(id))
    }

    /// Changes passenger details of a ticket in force: those that the paths
    /// name, to the values that `update` holds for them. A path that names no
    /// passenger detail is reported, and nothing is changed. Where no ticket
    /// in force has the identifier, nothing is changed and nothing reported.
    fn update_ticket(&mut self, id: ObjectId, update: Ticket, update_paths: Vec<String>) -> (updated:
        DbResult<()>)
        ensures
            final(self).dependable() == old(self).dependable(),
            final(self).records(Collection::DeletedTickets) == old(self).records(
                Collection::DeletedTickets,
            ),
            match updated {
                Ok(()) => {
                    &&& rejected_path(texts(update_paths@)) is None
                    &&& final(self).records(Collection::Tickets) == with_update(
                        old(self).records(Collection::Tickets),
                        FilterView::Id(id@),
                        update_of(update@.passenger, texts(update_paths@)),
                    )
                },
                Err(error) => if error is MongoError {
                    &&& !old(self).dependable()
                    &&& rejected_path(texts(update_paths@)) is None
                    &&& final(self).records(Collection::Tickets) == old(self).records(
                        Collection::Tickets,
                    ) || final(self).records(Collection::Tickets) == with_update(
                        old(self).records(Collection::Tickets),
                        FilterView::Id(id@),
                        update_of(update@.passenger, texts(update_paths@)),
                    )
                } else {
                    &&& rejected_path(texts(update_paths@)) matches Some(path)
                    &&& error@ == (ApplicationErrorView::InvalidUpdatePath { path })
                    &&& final(self).records(Collection::Tickets) == old(self).records(
                        Collection::Tickets,
                    )
                },
            },
    {
        let updated_doc = match update_document(&update.passenger, &update_paths) {
            Ok(updated_doc) => updated_doc,
            Err(error) => {
                return Err(error);
            },
        };
        self.update_one(Collection::Tickets, &Filter::Id(id), &updated_doc)
    }

    /// The number of tickets in force for a flight; a number beyond 32 bits
    /// is given as the largest that fits.
    fn get_existing_tickets(&self, flight_id: &str) -> (counted: DbResult<u32>)
        ensures
            unique_ids(self.records(Collection::Tickets)),
            match counted {
                Ok(count) => count == existing_tickets(
                    self.records(Collection::Tickets),
                    flight_id@,
                ),
                Err(error) => error is MongoError && !self.dependable(),
            },
    {
        let count = match self.count_documents(
            Collection::Tickets,
            &Filter::Flight(flight_id.to_owned()),
        ) {
            Ok(count) => count,
            Err(error) => {
                return Err(error);
            },
        };
        if count > 0xffff_ffff {
            Ok(u32::MAX)
        } else {
            Ok(count as u32)
        }
    }
}

} // verus!
