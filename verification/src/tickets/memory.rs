//! A ticket store that keeps its records in memory.

use vstd::prelude::*;
use vstd::string::StringExecFns;
use crate::bson::ObjectId;
use crate::errors::ApplicationError;
use crate::tickets::data::{
    first_is_position, has_id, position, selected, selected_after_push,
    selected_of_none, selects, ticket_views, unique_after_push, unique_after_removal,
    unique_after_update, unique_ids, updated, with_update, without_first, Collection, DbResult,
    Filter, PassengerUpdate, Ticket, TicketDatabase, TicketView,
};

verus! {

/// The index of the first record that a filter selects, or the number of
/// records if it selects none.
fn position_in(records: &Vec<Ticket>, filter: &Filter) -> (index: usize)
    ensures
        index == position(ticket_views(records@), filter@),
{
    let ghost views = ticket_views(records@);
    let mut i: usize = 0;
    while i < records.len()
        invariant
            i <= records.len(),
            views == ticket_views(records@),
            forall|j: int| 0 <= j < i ==> !selects(filter@, #[trigger] views[j]),
        decreases records.len() - i,
    {
        if filter.selects(&records[i]) {
            proof {
                first_is_position(views, filter@, i as int);
            }
            return i;
        }
        i = i + 1;
    }
    proof {
        first_is_position(views, filter@, i as int);
    }
    i
}

/// Copies of the records that a filter selects, in order.
fn find_in(records: &Vec<Ticket>, filter: &Filter) -> (found: Vec<Ticket>)
    ensures
        ticket_views(found@) == selected(ticket_views(records@), filter@),
{
    let ghost views = ticket_views(records@);
    let mut found: Vec<Ticket> = Vec::new();
    let mut i: usize = 0;
    proof {
        selected_of_none(filter@);
        assert(views.take(0) =~= Seq::empty());
        assert(ticket_views(found@) =~= Seq::empty());
    }
    while i < records.len()
        invariant
            i <= records.len(),
            views == ticket_views(records@),
            ticket_views(found@) == selected(views.take(i as int), filter@),
        decreases records.len() - i,
    {
        proof {
            selected_after_push(views.take(i as int), views[i as int], filter@);
            assert(views.take(i as int).push(views[i as int]) =~= views.take(i as int + 1));
        }
        if filter.selects(&records[i]) {
            let ghost before = ticket_views(found@);
            let copy = records[i].clone();
            found.push(copy);
            assert(ticket_views(found@) =~= before.push(views[i as int]));
        }
        i = i + 1;
    }
    proof {
        assert(views.take(i as int) =~= views);
    }
    found
}

/// The number of records that a filter selects.
fn count_in(records: &Vec<Ticket>, filter: &Filter) -> (count: u64)
    ensures
        count == selected(ticket_views(records@), filter@).len(),
{
    let ghost views = ticket_views(records@);
    let mut count: u64 = 0;
    let mut i: usize = 0;
    proof {
        selected_of_none(filter@);
        assert(views.take(0) =~= Seq::empty());
    }
    while i < records.len()
        invariant
            i <= records.len(),
            views == ticket_views(records@),
            count == selected(views.take(i as int), filter@).len(),
            count <= i,
        decreases records.len() - i,
    {
        proof {
            selected_after_push(views.take(i as int), views[i as int], filter@);
            assert(views.take(i as int).push(views[i as int]) =~= views.take(i as int + 1));
        }
        if filter.selects(&records[i]) {
            count = count + 1;
        }
        i = i + 1;
    }
    proof {
        assert(views.take(i as int) =~= views);
    }
    count
}

/// Adds a record at the end, unless its identifier is taken.
fn insert_into(records: &mut Vec<Ticket>, ticket: Ticket) -> (inserted: DbResult<ObjectId>)
    requires
        unique_ids(ticket_views(old(records)@)),
    ensures
        unique_ids(ticket_views(final(records)@)),
        match inserted {
            Ok(id) => {
                &&& id@ == ticket@.id
                &&& !has_id(ticket_views(old(records)@), ticket@.id)
                &&& ticket_views(final(records)@) == ticket_views(old(records)@).push(ticket@)
            },
            Err(error) => {
                &&& error is MongoError
                &&& has_id(ticket_views(old(records)@), ticket@.id)
                &&& ticket_views(final(records)@) == ticket_views(old(records)@)
            },
        },
{
    let id = ticket._id;
    if position_in(records, &Filter::Id(id)) < records.len() {
        return Err(ApplicationError::MongoError(String::from_str("E11000 duplicate key error")));
    }
    let ghost before = ticket_views(records@);
    records.push(ticket);
    proof {
        assert(ticket_views(records@) =~= before.push(ticket@));
        unique_after_push(before, ticket@);
    }
    Ok(id)
}

/// Removes the first record that a filter selects.
fn delete_from(records: &mut Vec<Ticket>, filter: &Filter)
    requires
        unique_ids(ticket_views(old(records)@)),
    ensures
        unique_ids(ticket_views(final(records)@)),
        ticket_views(final(records)@) == without_first(ticket_views(old(records)@), filter@),
{
    let ghost before = ticket_views(records@);
    proof {
        unique_after_removal(before, filter@);
    }
    let index = position_in(records, filter);
    if index < records.len() {
        let _ = records.remove(index);
        assert(ticket_views(records@) =~= before.remove(index as int));
    }
}

/// Puts the values of an update into a record.
fn apply_update(ticket: &mut Ticket, update: &PassengerUpdate)
    ensures
        final(ticket)@ == updated(old(ticket)@, update@),
{
    match &update.ssn {
        Some(ssn) => {
            ticket.passenger.ssn = ssn.clone();
        },
        None => {},
    }
    match &update.name {
        Some(name) => {
            ticket.passenger.name = name.clone();
        },
        None => {},
    }
    match &update.surname {
        Some(surname) => {
            ticket.passenger.surname = surname.clone();
        },
        None => {},
    }
    match update.birth_date {
        Some(birth_date) => {
            ticket.passenger.birth_date = birth_date;
        },
        None => {},
    }
    match &update.email {
        Some(email) => {
            ticket.passenger.email = email.clone();
        },
        None => {},
    }
}

/// Updates the first record that a filter selects.
fn update_in(records: &mut Vec<Ticket>, filter: &Filter, update: &PassengerUpdate)
    requires
        unique_ids(ticket_views(old(records)@)),
    ensures
        unique_ids(ticket_views(final(records)@)),
        ticket_views(final(records)@) == with_update(
            ticket_views(old(records)@),
            filter@,
            update@,
        ),
{
    let ghost before = ticket_views(records@);
    proof {
        unique_after_update(before, filter@, update@);
    }
    let index = position_in(records, filter);
    if index < records.len() {
        let mut ticket = records.remove(index);
        apply_update(&mut ticket, update);
        records.insert(index, ticket);
        assert(ticket_views(records@) =~= before.update(
            index as int,
            updated(before[index as int], update@),
        ));
    }
}

/// A store that keeps the tickets of both collections in memory, each in the
/// order in which they were added. It never fails but where an identifier is
/// taken.
#[derive(Debug, PartialEq)]
pub struct MemoryDatabase {
    tickets: Vec<Ticket>,
    deleted_tickets: Vec<Ticket>,
}

impl MemoryDatabase {
    /// Neither collection holds two records with one identifier.
    #[verifier::type_invariant]
    spec fn kept(self) -> bool {
        &&& unique_ids(ticket_views(self.tickets@))
        &&& unique_ids(ticket_views(self.deleted_tickets@))
    }

    /// A store without tickets.
    pub fn new() -> (store: MemoryDatabase)
        ensures
            store.records(Collection::Tickets) == Seq::<TicketView>::empty(),
            store.records(Collection::DeletedTickets) == Seq::<TicketView>::empty(),
            store.dependable(),
    {
        let store = MemoryDatabase { tickets: Vec::new(), deleted_tickets: Vec::new() };
        assert(ticket_views(store.tickets@) =~= Seq::empty());
        assert(ticket_views(store.deleted_tickets@) =~= Seq::empty());
        store
    }
}

impl TicketDatabase for MemoryDatabase {
    closed spec fn records(&self, collection: Collection) -> Seq<TicketView> {
        match collection {
            Collection::Tickets => ticket_views(self.tickets@),
            Collection::DeletedTickets => ticket_views(self.deleted_tickets@),
        }
    }

    closed spec fn dependable(&self) -> bool {
        true
    }

    fn find(&self, collection: Collection, filter: &Filter) -> (found: DbResult<Vec<Ticket>>)
        ensures
            found is Ok,
    {
        proof {
            use_type_invariant(&*self);
        }
        match collection {
            Collection::Tickets => Ok(find_in(&self.tickets, filter)),
            Collection::DeletedTickets => Ok(find_in(&self.deleted_tickets, filter)),
        }
    }

    fn find_one(&self, collection: Collection, filter: &Filter) -> (found: DbResult<
        Option<Ticket>,
    >)
        ensures
            found is Ok,
    {
        proof {
            use_type_invariant(&*self);
        }
        let records = match collection {
            Collection::Tickets => &self.tickets,
            Collection::DeletedTickets => &self.deleted_tickets,
        };
        let index = position_in(records, filter);
        if index < records.len() {
            Ok(Some(records[index].clone()))
        } else {
            Ok(None)
        }
    }

    fn insert_one(&mut self, collection: Collection, ticket: Ticket) -> (inserted: DbResult<
        ObjectId,
    >)
    {
        proof {
            use_type_invariant(&*self);
        }
        match collection {
            Collection::Tickets => {
                let mut records: Vec<Ticket> = Vec::new();
                std::mem::swap(&mut self.tickets, &mut records);
                let outcome = insert_into(&mut records, ticket);
                std::mem::swap(&mut self.tickets, &mut records);
                outcome
            },
            Collection::DeletedTickets => {
                let mut records: Vec<Ticket> = Vec::new();
                std::mem::swap(&mut self.deleted_tickets, &mut records);
                let outcome = insert_into(&mut records, ticket);
                std::mem::swap(&mut self.deleted_tickets, &mut records);
                outcome
            },
        }
    }

    fn delete_one(&mut self, collection: Collection, filter: &Filter) -> (deleted: DbResult<()>)
        ensures
            deleted is Ok,
    {
        proof {
            use_type_invariant(&*self);
        }
        match collection {
            Collection::Tickets => {
                let mut records: Vec<Ticket> = Vec::new();
                std::mem::swap(&mut self.tickets, &mut records);
                delete_from(&mut records, filter);
                std::mem::swap(&mut self.tickets, &mut records);
            },
            Collection::DeletedTickets => {
                let mut records: Vec<Ticket> = Vec::new();
                std::mem::swap(&mut self.deleted_tickets, &mut records);
                delete_from(&mut records, filter);
                std::mem::swap(&mut self.deleted_tickets, &mut records);
            },
        }
        Ok(())
    }

    fn update_one(
        &mut self,
        collection: Collection,
        filter: &Filter,
        update: &PassengerUpdate,
    ) -> (updated: DbResult<()>)
        ensures
            updated is Ok,
    {
        proof {
            use_type_invariant(&*self);
        }
        match collection {
            Collection::Tickets => {
                let mut records: Vec<Ticket> = Vec::new();
                std::mem::swap(&mut self.tickets, &mut records);
                update_in(&mut records, filter, update);
                std::mem::swap(&mut self.tickets, &mut records);
            },
            Collection::DeletedTickets => {
                let mut records: Vec<Ticket> = Vec::new();
                std::mem::swap(&mut self.deleted_tickets, &mut records);
                update_in(&mut records, filter, update);
                std::mem::swap(&mut self.deleted_tickets, &mut records);
            },
        }
        Ok(())
    }

    fn count_documents(&self, collection: Collection, filter: &Filter) -> (counted: DbResult<u64>)
        ensures
            counted is Ok,
    {
        proof {
            use_type_invariant(&*self);
        }
        match collection {
            Collection::Tickets => Ok(count_in(&self.tickets, filter)),
            Collection::DeletedTickets => Ok(count_in(&self.deleted_tickets, filter)),
        }
    }
}

} // verus!
