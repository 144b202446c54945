use ticketsrvc::bson::{DateTime, ObjectId};
use ticketsrvc::errors::ApplicationError;
use ticketsrvc::tickets::data::{
    update_document, Collection, Filter, Passenger, PassengerField, PassengerUpdate, Ticket,
    TicketDatabase,
};
use ticketsrvc::tickets::memory::MemoryDatabase;

fn store_id(n: u8) -> ObjectId {
    let mut bytes = [0u8; 12];
    bytes[11] = n;
    ObjectId::from_bytes(bytes)
}

fn name_of(n: u8) -> &'static str {
    match n {
        1 => "one",
        2 => "two",
        3 => "three",
        4 => "four",
        7 => "seven",
        9 => "nine",
        _ => "other",
    }
}

fn store_ticket(n: u8, flight: &str) -> Ticket {
    Ticket {
        _id: store_id(n),
        url: format!("token-{}", n),
        flight_id: flight.to_string(),
        passenger: Passenger {
            ssn: format!("ssn-{}", n),
            name: format!("name-{}", n),
            surname: format!("surname-{}", n),
            birth_date: DateTime::from_millis(1000 * n as i64),
            email: format!("{}@example.org", name_of(n)),
        },
        reservation_datetime: DateTime::from_millis(5000),
        estimated_cargo_weight: 10,
        ticket_status: "VALID".to_string(),
    }
}

fn store_with(tickets: &[(u8, &str)]) -> MemoryDatabase {
    let mut store = MemoryDatabase::new();
    for (n, flight) in tickets {
        store.create_ticket(store_ticket(*n, flight)).unwrap();
    }
    store
}

fn store_paths(paths: &[&str]) -> Vec<String> {
    paths.iter().map(|p| p.to_string()).collect()
}

#[test]
fn collections_have_their_names() {
    assert_eq!(Collection::Tickets.name(), "tickets");
    assert_eq!(Collection::DeletedTickets.name(), "tickets-deleted");
}

#[test]
fn new_store_is_empty() {
    let store = MemoryDatabase::new();
    assert_eq!(store.list_tickets(true, None).unwrap(), vec![]);
    assert_eq!(store.get_existing_tickets("F1").unwrap(), 0);
}

#[test]
fn created_ticket_is_found_by_id_and_by_token() {
    let mut store = MemoryDatabase::new();
    let id = store.create_ticket(store_ticket(1, "F1")).unwrap();
    assert_eq!(id, store_id(1));
    assert_eq!(store.get_ticket(store_id(1), false).unwrap(), store_ticket(1, "F1"));
    assert_eq!(
        store.get_ticket_from_url("token-1".to_string(), false).unwrap(),
        store_ticket(1, "F1")
    );
}

#[test]
fn missing_ticket_is_not_found() {
    let store = store_with(&[(1, "F1")]);
    assert_eq!(
        store.get_ticket(store_id(2), true).unwrap_err(),
        ApplicationError::NotFound { details: "ticket not found" }
    );
    assert_eq!(
        store.get_ticket_from_url("token-2".to_string(), true).unwrap_err(),
        ApplicationError::NotFound { details: "ticket not found" }
    );
}

#[test]
fn taken_identifier_is_refused() {
    let mut store = store_with(&[(1, "F1")]);
    let refused = store.create_ticket(store_ticket(1, "F2")).unwrap_err();
    assert!(matches!(refused, ApplicationError::MongoError(_)));
    assert_eq!(store.list_tickets(true, None).unwrap(), vec![store_ticket(1, "F1")]);
}

#[test]
fn list_filters_tickets_in_force_by_flight() {
    let store = store_with(&[(1, "F1"), (2, "F2"), (3, "F1")]);
    assert_eq!(
        store.list_tickets(false, Some("F1")).unwrap(),
        vec![store_ticket(1, "F1"), store_ticket(3, "F1")]
    );
    assert_eq!(store.list_tickets(false, Some("F3")).unwrap(), vec![]);
    assert_eq!(
        store.list_tickets(false, None).unwrap(),
        vec![store_ticket(1, "F1"), store_ticket(2, "F2"), store_ticket(3, "F1")]
    );
}

#[test]
fn list_appends_all_deleted_tickets_unfiltered() {
    let mut store = store_with(&[(1, "F1"), (2, "F2"), (3, "F1")]);
    store.delete_ticket(store_id(2)).unwrap();
    store.delete_ticket(store_id(1)).unwrap();
    let mut deleted_two = store_ticket(2, "F2");
    deleted_two.ticket_status = "DELETED".to_string();
    let mut deleted_one = store_ticket(1, "F1");
    deleted_one.ticket_status = "DELETED".to_string();
    assert_eq!(
        store.list_tickets(true, Some("F1")).unwrap(),
        vec![store_ticket(3, "F1"), deleted_two.clone(), deleted_one.clone()]
    );
    assert_eq!(store.list_tickets(false, Some("F1")).unwrap(), vec![store_ticket(3, "F1")]);
    assert_eq!(
        store.list_tickets(true, Some("F9")).unwrap(),
        vec![deleted_two, deleted_one]
    );
}

#[test]
fn count_is_of_the_tickets_in_force_of_the_flight() {
    let mut store = store_with(&[(1, "F1"), (2, "F2"), (3, "F1"), (4, "F1")]);
    assert_eq!(store.get_existing_tickets("F1").unwrap(), 3);
    assert_eq!(store.get_existing_tickets("F2").unwrap(), 1);
    assert_eq!(store.get_existing_tickets("F3").unwrap(), 0);
    store.delete_ticket(store_id(3)).unwrap();
    assert_eq!(store.get_existing_tickets("F1").unwrap(), 2);
}

#[test]
fn deleted_ticket_moves_to_the_other_collection() {
    let mut store = store_with(&[(1, "F1"), (2, "F1")]);
    store.delete_ticket(store_id(1)).unwrap();
    assert_eq!(
        store.get_ticket(store_id(1), false).unwrap_err(),
        ApplicationError::NotFound { details: "ticket not found" }
    );
    let found = store.get_ticket(store_id(1), true).unwrap();
    assert_eq!(found.ticket_status, "DELETED");
    let mut expected = store_ticket(1, "F1");
    expected.ticket_status = "DELETED".to_string();
    assert_eq!(found, expected);
    assert_eq!(store.find(Collection::Tickets, &Filter::Any).unwrap(), vec![store_ticket(2, "F1")]);
    assert_eq!(store.find(Collection::DeletedTickets, &Filter::Any).unwrap(), vec![expected]);
}

#[test]
fn deleted_ticket_is_found_by_token_only_where_allowed() {
    let mut store = store_with(&[(1, "F1")]);
    store.delete_ticket(store_id(1)).unwrap();
    assert!(store.get_ticket_from_url("token-1".to_string(), false).is_err());
    assert_eq!(
        store.get_ticket_from_url("token-1".to_string(), true).unwrap().ticket_status,
        "DELETED"
    );
}

#[test]
fn deleting_twice_is_not_found() {
    let mut store = store_with(&[(1, "F1")]);
    store.delete_ticket(store_id(1)).unwrap();
    assert_eq!(
        store.delete_ticket(store_id(1)).unwrap_err(),
        ApplicationError::NotFound { details: "ticket not found" }
    );
    assert_eq!(store.find(Collection::DeletedTickets, &Filter::Any).unwrap().len(), 1);
}

#[test]
fn deleting_what_never_existed_is_not_found() {
    let mut store = store_with(&[(1, "F1")]);
    assert_eq!(
        store.delete_ticket(store_id(9)).unwrap_err(),
        ApplicationError::NotFound { details: "ticket not found" }
    );
    assert_eq!(store.list_tickets(true, None).unwrap(), vec![store_ticket(1, "F1")]);
}

#[test]
fn ticket_in_force_is_preferred_to_a_deleted_one() {
    let mut store = store_with(&[(1, "F1")]);
    store.delete_ticket(store_id(1)).unwrap();
    store.create_ticket(store_ticket(1, "F7")).unwrap();
    assert_eq!(store.get_ticket(store_id(1), true).unwrap().flight_id, "F7");
    let refused = store.delete_ticket(store_id(1)).unwrap_err();
    assert!(matches!(refused, ApplicationError::MongoError(_)));
    assert_eq!(store.get_ticket(store_id(1), false).unwrap().flight_id, "F7");
}

#[test]
fn update_paths_name_passenger_fields() {
    assert_eq!(PassengerField::from_path("passenger.ssn"), Some(PassengerField::Ssn));
    assert_eq!(PassengerField::from_path("passenger.name"), Some(PassengerField::Name));
    assert_eq!(PassengerField::from_path("passenger.surname"), Some(PassengerField::Surname));
    assert_eq!(PassengerField::from_path("passenger.birth_date"), Some(PassengerField::BirthDate));
    assert_eq!(PassengerField::from_path("passenger.email"), Some(PassengerField::Email));
    assert_eq!(PassengerField::from_path("ssn"), None);
    assert_eq!(PassengerField::from_path("passenger"), None);
    assert_eq!(PassengerField::from_path("passenger.SSN"), None);
    assert_eq!(PassengerField::from_path("flight_id"), None);
    assert_eq!(PassengerField::from_path(""), None);
}

#[test]
fn update_document_holds_the_named_fields() {
    let passenger = store_ticket(9, "F1").passenger;
    let update =
        update_document(&passenger, &store_paths(&["passenger.email", "passenger.name"])).unwrap();
    assert_eq!(
        update,
        PassengerUpdate {
            ssn: None,
            name: Some("name-9".to_string()),
            surname: None,
            birth_date: None,
            email: Some("nine@example.org".to_string()),
        }
    );
    let update = update_document(
        &passenger,
        &store_paths(&[
            "passenger.birth_date",
            "passenger.ssn",
            "passenger.surname",
            "passenger.ssn",
        ]),
    )
    .unwrap();
    assert_eq!(
        update,
        PassengerUpdate {
            ssn: Some("ssn-9".to_string()),
            name: None,
            surname: Some("surname-9".to_string()),
            birth_date: Some(DateTime::from_millis(9000)),
            email: None,
        }
    );
}

#[test]
fn update_document_of_no_paths_is_empty() {
    let passenger = store_ticket(9, "F1").passenger;
    assert_eq!(
        update_document(&passenger, &vec![]).unwrap(),
        PassengerUpdate { ssn: None, name: None, surname: None, birth_date: None, email: None }
    );
}

#[test]
fn update_document_reports_the_first_path_that_names_no_field() {
    let passenger = store_ticket(9, "F1").passenger;
    let refused = update_document(
        &passenger,
        &store_paths(&["passenger.name", "flight_id", "passenger.ssn", "url"]),
    )
    .unwrap_err();
    assert_eq!(refused, ApplicationError::InvalidUpdatePath { path: "flight_id".to_string() });
}

#[test]
fn update_changes_the_named_fields_only() {
    let mut store = store_with(&[(1, "F1"), (2, "F1")]);
    let mut update = store_ticket(7, "F9");
    update.ticket_status = "DELETED".to_string();
    store
        .update_ticket(store_id(2), update, store_paths(&["passenger.name", "passenger.birth_date"]))
        .unwrap();
    let mut expected = store_ticket(2, "F1");
    expected.passenger.name = "name-7".to_string();
    expected.passenger.birth_date = DateTime::from_millis(7000);
    assert_eq!(store.get_ticket(store_id(2), false).unwrap(), expected);
    assert_eq!(store.get_ticket(store_id(1), false).unwrap(), store_ticket(1, "F1"));
}

#[test]
fn update_of_every_field() {
    let mut store = store_with(&[(1, "F1")]);
    store
        .update_ticket(
            store_id(1),
            store_ticket(7, "F9"),
            store_paths(&[
                "passenger.birth_date",
                "passenger.email",
                "passenger.name",
                "passenger.ssn",
                "passenger.surname",
            ]),
        )
        .unwrap();
    let mut expected = store_ticket(1, "F1");
    expected.passenger = store_ticket(7, "F9").passenger;
    assert_eq!(store.get_ticket(store_id(1), false).unwrap(), expected);
}

#[test]
fn update_with_an_unknown_path_changes_nothing() {
    let mut store = store_with(&[(1, "F1")]);
    let refused = store
        .update_ticket(
            store_id(1),
            store_ticket(7, "F9"),
            store_paths(&["passenger.email", "passenger.name", "passenger.zip"]),
        )
        .unwrap_err();
    assert_eq!(refused, ApplicationError::InvalidUpdatePath { path: "passenger.zip".to_string() });
    assert_eq!(store.get_ticket(store_id(1), false).unwrap(), store_ticket(1, "F1"));
}

#[test]
fn update_of_an_unknown_ticket_is_silent() {
    let mut store = store_with(&[(1, "F1")]);
    store.update_ticket(store_id(5), store_ticket(7, "F9"), store_paths(&["passenger.name"])).unwrap();
    assert_eq!(store.list_tickets(true, None).unwrap(), vec![store_ticket(1, "F1")]);
}

#[test]
fn update_does_not_reach_deleted_tickets() {
    let mut store = store_with(&[(1, "F1")]);
    store.delete_ticket(store_id(1)).unwrap();
    store.update_ticket(store_id(1), store_ticket(7, "F9"), store_paths(&["passenger.name"])).unwrap();
    assert_eq!(store.get_ticket(store_id(1), true).unwrap().passenger.name, "name-1");
}

#[test]
fn store_operations_on_one_collection() {
    let mut store = MemoryDatabase::new();
    store.insert_one(Collection::DeletedTickets, store_ticket(1, "F1")).unwrap();
    store.insert_one(Collection::DeletedTickets, store_ticket(2, "F2")).unwrap();
    store.insert_one(Collection::Tickets, store_ticket(1, "F3")).unwrap();
    assert_eq!(store.count_documents(Collection::DeletedTickets, &Filter::Any).unwrap(), 2);
    assert_eq!(
        store.count_documents(Collection::DeletedTickets, &Filter::Flight("F2".to_string())).unwrap(),
        1
    );
    assert_eq!(
        store.find_one(Collection::DeletedTickets, &Filter::Id(store_id(1))).unwrap(),
        Some(store_ticket(1, "F1"))
    );
    assert_eq!(
        store.find_one(Collection::Tickets, &Filter::Url("token-2".to_string())).unwrap(),
        None
    );
    store.delete_one(Collection::DeletedTickets, &Filter::Flight("F1".to_string())).unwrap();
    assert_eq!(
        store.find(Collection::DeletedTickets, &Filter::Any).unwrap(),
        vec![store_ticket(2, "F2")]
    );
    store.delete_one(Collection::DeletedTickets, &Filter::Id(store_id(9))).unwrap();
    assert_eq!(store.count_documents(Collection::DeletedTickets, &Filter::Any).unwrap(), 1);
    assert_eq!(store.count_documents(Collection::Tickets, &Filter::Any).unwrap(), 1);
}

#[test]
fn filters_select_by_their_key() {
    let ticket = store_ticket(1, "F1");
    assert!(Filter::Any.selects(&ticket));
    assert!(Filter::Flight("F1".to_string()).selects(&ticket));
    assert!(!Filter::Flight("F2".to_string()).selects(&ticket));
    assert!(Filter::Id(store_id(1)).selects(&ticket));
    assert!(!Filter::Id(store_id(2)).selects(&ticket));
    assert!(Filter::Url("token-1".to_string()).selects(&ticket));
    assert!(!Filter::Url("token-2".to_string()).selects(&ticket));
}
