use ticketsrvc::bson::{DateTime, ObjectId};
use ticketsrvc::parse::parse_update_paths;
use ticketsrvc::proto::protobuf::{FieldMask, Timestamp};
use ticketsrvc::proto::ticketsrvc::{PassengerDetails, Ticket, TicketStatus};
use ticketsrvc::status::Code;
use ticketsrvc::tickets::data;

fn mapping_record() -> data::Ticket {
    data::Ticket {
        _id: ObjectId::parse_str("0123456789abcdef01234567").unwrap(),
        url: "tokentokentoken".to_string(),
        flight_id: "F1".to_string(),
        passenger: data::Passenger {
            ssn: "SSN-1".to_string(),
            name: "Ada".to_string(),
            surname: "Lovelace".to_string(),
            birth_date: DateTime::from_millis(-4_858_000_000_123),
            email: "ada@example.org".to_string(),
        },
        reservation_datetime: DateTime::from_millis(1_700_000_000_456),
        estimated_cargo_weight: 23,
        ticket_status: "VALID".to_string(),
    }
}

fn mapping_message() -> Ticket {
    Ticket {
        id: "ignored".to_string(),
        flight_id: "F1".to_string(),
        url: "some-token".to_string(),
        passenger: Some(PassengerDetails {
            ssn: "SSN-1".to_string(),
            name: "Ada".to_string(),
            surname: "Lovelace".to_string(),
            birth_date: Some(Timestamp { seconds: 10, nanos: 5_000_000 }),
            email: "ada@example.org".to_string(),
        }),
        reservation_datetime: Some(Timestamp { seconds: 1_700_000_000, nanos: 456_000_000 }),
        estimated_cargo_weight: 23,
        ticket_status: 1,
    }
}

fn mask_of(paths: &[&str]) -> Option<FieldMask> {
    Some(FieldMask { paths: paths.iter().map(|p| p.to_string()).collect() })
}

#[test]
fn record_is_shown_as_message() {
    let message = Ticket::from(mapping_record());
    assert_eq!(message.id, "0123456789abcdef01234567");
    assert_eq!(message.flight_id, "F1");
    assert_eq!(message.url, "tokentokentoken");
    assert_eq!(message.estimated_cargo_weight, 23);
    assert_eq!(message.ticket_status, 1);
    assert_eq!(
        message.reservation_datetime,
        Some(Timestamp { seconds: 1_700_000_000, nanos: 456_000_000 })
    );
    let passenger = message.passenger.unwrap();
    assert_eq!(passenger.ssn, "SSN-1");
    assert_eq!(passenger.name, "Ada");
    assert_eq!(passenger.surname, "Lovelace");
    assert_eq!(passenger.email, "ada@example.org");
    assert_eq!(
        passenger.birth_date,
        Some(Timestamp { seconds: -4_858_000_001, nanos: 877_000_000 })
    );
}

#[test]
fn stored_state_is_shown_by_its_number() {
    let mut record = mapping_record();
    record.ticket_status = "DELETED".to_string();
    assert_eq!(Ticket::from(record).ticket_status, 2);
    let mut record = mapping_record();
    record.ticket_status = "UNSPECIFIED".to_string();
    assert_eq!(Ticket::from(record).ticket_status, 0);
}

#[test]
fn unknown_stored_state_is_shown_as_the_default() {
    let mut record = mapping_record();
    record.ticket_status = "valid".to_string();
    assert_eq!(Ticket::from(record).ticket_status, 0);
    let mut record = mapping_record();
    record.ticket_status = String::new();
    assert_eq!(Ticket::from(record).ticket_status, 0);
}

#[test]
fn message_is_read_as_record() {
    let id = ObjectId::from_bytes([7; 12]);
    let record = data::Ticket::from_wire(mapping_message(), id).unwrap();
    assert_eq!(record._id, id);
    assert_eq!(record.url, "some-token");
    assert_eq!(record.flight_id, "F1");
    assert_eq!(record.passenger.ssn, "SSN-1");
    assert_eq!(record.passenger.name, "Ada");
    assert_eq!(record.passenger.surname, "Lovelace");
    assert_eq!(record.passenger.email, "ada@example.org");
    assert_eq!(record.passenger.birth_date.timestamp_millis(), 10_005);
    assert_eq!(record.reservation_datetime.timestamp_millis(), 1_700_000_000_456);
    assert_eq!(record.estimated_cargo_weight, 23);
    assert_eq!(record.ticket_status, "VALID");
}

#[test]
fn reading_a_message_makes_an_identifier_of_its_own() {
    let mut message = mapping_message();
    message.id = "0123456789abcdef01234567".to_string();
    let first = data::Ticket::try_from(message.clone()).unwrap();
    let second = data::Ticket::try_from(message).unwrap();
    assert_ne!(first._id.to_hex(), "0123456789abcdef01234567");
    assert_ne!(first._id, second._id);
    assert_eq!(first.url, "some-token");
}

#[test]
fn message_without_passenger_is_refused() {
    let mut message = mapping_message();
    message.passenger = None;
    let status = data::Ticket::try_from(message).unwrap_err();
    assert_eq!(status.code(), Code::InvalidArgument);
    assert_eq!(status.message(), "missing passenger details");
}

#[test]
fn message_with_unknown_state_is_refused() {
    for number in [3, -1, 100, i32::MAX, i32::MIN] {
        let mut message = mapping_message();
        message.ticket_status = number;
        let status = data::Ticket::try_from(message).unwrap_err();
        assert_eq!(status.code(), Code::InvalidArgument);
        assert_eq!(status.message(), "invalid ticket status");
    }
}

#[test]
fn message_without_times_is_refused() {
    let mut message = mapping_message();
    message.reservation_datetime = None;
    let status = data::Ticket::try_from(message).unwrap_err();
    assert_eq!(status.code(), Code::InvalidArgument);
    assert_eq!(status.message(), "missing timestamp");

    let mut message = mapping_message();
    message.passenger.as_mut().unwrap().birth_date = None;
    let status = data::Ticket::try_from(message).unwrap_err();
    assert_eq!(status.code(), Code::InvalidArgument);
    assert_eq!(status.message(), "missing timestamp");
}

#[test]
fn faults_of_a_message_are_found_in_order() {
    let mut message = mapping_message();
    message.passenger = None;
    message.ticket_status = 9;
    message.reservation_datetime = None;
    assert_eq!(
        data::Ticket::try_from(message).unwrap_err().message(),
        "missing passenger details"
    );

    let mut message = mapping_message();
    message.ticket_status = 9;
    message.reservation_datetime = None;
    assert_eq!(data::Ticket::try_from(message).unwrap_err().message(), "invalid ticket status");

    let mut message = mapping_message();
    message.passenger.as_mut().unwrap().birth_date =
        Some(Timestamp { seconds: i64::MAX, nanos: 0 });
    message.reservation_datetime = None;
    assert_eq!(data::Ticket::try_from(message).unwrap_err().message(), "timestamp out of range");
}

#[test]
fn every_state_number_is_read() {
    for (number, name) in [(0, "UNSPECIFIED"), (1, "VALID"), (2, "DELETED")] {
        let mut message = mapping_message();
        message.ticket_status = number;
        assert_eq!(
            data::Ticket::from_wire(message, ObjectId::from_bytes([0; 12])).unwrap().ticket_status,
            name
        );
    }
}

#[test]
fn record_round_trips_through_its_message() {
    for status in ["VALID", "DELETED", "UNSPECIFIED"] {
        let mut record = mapping_record();
        record.ticket_status = status.to_string();
        let id = record._id;
        let back = data::Ticket::from_wire(Ticket::from(record.clone()), id).unwrap();
        assert_eq!(back, record);
    }
}

#[test]
fn ticket_status_names_and_numbers() {
    assert_eq!(TicketStatus::Valid.as_str_name(), "VALID");
    assert_eq!(TicketStatus::Deleted.as_str_name(), "DELETED");
    assert_eq!(TicketStatus::Unspecified.as_str_name(), "UNSPECIFIED");
    assert_eq!(TicketStatus::from_str_name("VALID"), Some(TicketStatus::Valid));
    assert_eq!(TicketStatus::from_str_name("DELETED"), Some(TicketStatus::Deleted));
    assert_eq!(TicketStatus::from_str_name("UNSPECIFIED"), Some(TicketStatus::Unspecified));
    assert_eq!(TicketStatus::from_str_name("Deleted"), None);
    assert_eq!(TicketStatus::try_from(1), Some(TicketStatus::Valid));
    assert_eq!(TicketStatus::try_from(2), Some(TicketStatus::Deleted));
    assert_eq!(TicketStatus::try_from(0), Some(TicketStatus::Unspecified));
    assert_eq!(TicketStatus::try_from(3), None);
    assert_eq!(TicketStatus::Valid.number(), 1);
    assert_eq!(TicketStatus::Deleted.number(), 2);
    assert_eq!(TicketStatus::default(), TicketStatus::Unspecified);
}

#[test]
fn missing_mask_is_refused() {
    let status = parse_update_paths(None).unwrap_err();
    assert_eq!(status.code(), Code::InvalidArgument);
    assert_eq!(status.message(), "'update_mask' cannot be empty");
}

#[test]
fn empty_mask_is_refused() {
    let status = parse_update_paths(mask_of(&[])).unwrap_err();
    assert_eq!(status.code(), Code::InvalidArgument);
    assert_eq!(status.message(), "'update_mask' cannot be empty");
}

#[test]
fn mask_paths_are_sorted_and_occur_once() {
    let paths = parse_update_paths(mask_of(&[
        "passenger.ssn",
        "passenger.email",
        "passenger.ssn",
        "a",
        "passenger.name",
        "passenger.email",
        "Z",
        "",
    ]))
    .unwrap();
    assert_eq!(paths, vec!["", "Z", "a", "passenger.email", "passenger.name", "passenger.ssn"]);
}

#[test]
fn mask_of_one_path_is_kept() {
    assert_eq!(parse_update_paths(mask_of(&["passenger.name"])).unwrap(), vec!["passenger.name"]);
    assert_eq!(parse_update_paths(mask_of(&["x", "x", "x"])).unwrap(), vec!["x"]);
}

#[test]
fn reading_a_message_does_not_look_at_its_identifier() {
    let id = ObjectId::from_bytes([9; 12]);
    let expected = data::Ticket::from_wire(mapping_message(), id).unwrap();
    for written in ["", "abc", "0123456789abcdef01234567", "not hexadecimal at all"] {
        let mut message = mapping_message();
        message.id = written.to_string();
        assert_eq!(data::Ticket::from_wire(message.clone(), id).unwrap(), expected);
        let read = data::Ticket::try_from(message).unwrap();
        assert_ne!(read._id.to_hex(), written);
        assert_eq!(read.url, expected.url);
        assert_eq!(read.passenger, expected.passenger);
    }
}
