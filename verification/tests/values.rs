use ticketsrvc::bson::{DateTime, ObjectId};
use ticketsrvc::config::{
    default_flightmngr_url, default_port, default_rabbitmq_port, default_validationsvc_url,
};
use ticketsrvc::datautils::{
    convert_datetime_to_timestamp, convert_str_to_object_id, convert_timestamp_to_datetime,
};
use ticketsrvc::errors::ApplicationError;
use ticketsrvc::proto::protobuf::Timestamp;
use ticketsrvc::status::{Code, Status};
use ticketsrvc::text::{place_of, str_equal, Place};

#[test]
fn defaults_of_the_configuration() {
    assert_eq!(default_port(), 50051);
    assert_eq!(default_rabbitmq_port(), 5672);
    assert_eq!(default_flightmngr_url(), "grpc://flightmngr");
    assert_eq!(default_validationsvc_url(), "grpc://validationsvc");
}

#[test]
fn object_id_is_read_from_hex() {
    let id = ObjectId::parse_str("53e37d08776f724e42000000").unwrap();
    assert_eq!(
        id.bytes(),
        [0x53, 0xe3, 0x7d, 0x08, 0x77, 0x6f, 0x72, 0x4e, 0x42, 0x00, 0x00, 0x00]
    );
}

#[test]
fn object_id_is_read_from_upper_case_hex() {
    let id = ObjectId::parse_str("53E37D08776F724E420000AB").unwrap();
    assert_eq!(
        id.bytes(),
        [0x53, 0xe3, 0x7d, 0x08, 0x77, 0x6f, 0x72, 0x4e, 0x42, 0x00, 0x00, 0xab]
    );
}

#[test]
fn object_id_is_written_as_lower_case_hex() {
    let id = ObjectId::from_bytes([
        0x00, 0x01, 0x0a, 0x0f, 0x10, 0x9a, 0xab, 0xcd, 0xef, 0xff, 0x7f, 0x80,
    ]);
    assert_eq!(id.to_hex(), "00010a0f109aabcdefff7f80");
}

#[test]
fn object_id_round_trip_through_hex() {
    let id = ObjectId::from_bytes([1, 2, 3, 4, 5, 6, 7, 8, 9, 10, 11, 255]);
    let back = ObjectId::parse_str(&id.to_hex()).unwrap();
    assert!(back.equals(&id));
    assert_eq!(back, id);
}

#[test]
fn object_id_refuses_what_is_no_hex_of_24_digits() {
    assert!(ObjectId::parse_str("").is_none());
    assert!(ObjectId::parse_str("53e37d08776f724e4200000").is_none());
    assert!(ObjectId::parse_str("53e37d08776f724e420000000").is_none());
    assert!(ObjectId::parse_str("53e37d08776f724e4200000g").is_none());
    assert!(ObjectId::parse_str("53e37d08776f724e42000000 ").is_none());
    assert!(ObjectId::parse_str("é3e37d08776f724e4200000").is_none());
    assert!(ObjectId::parse_str("éééééééééééééééééééééééé").is_none());
}

#[test]
fn object_id_equality_tells_identifiers_apart() {
    let a = ObjectId::from_bytes([0; 12]);
    let mut bytes = [0u8; 12];
    bytes[11] = 1;
    let b = ObjectId::from_bytes(bytes);
    assert!(a.equals(&a));
    assert!(!a.equals(&b));
}

#[test]
fn new_object_ids_differ() {
    let a = ObjectId::new();
    let b = ObjectId::new();
    assert!(!a.equals(&b));
    assert_eq!(a.to_hex().len(), 24);
}

#[test]
fn convert_str_to_object_id_uses_the_message() {
    let ok = convert_str_to_object_id("000000000000000000000001", "invalid id").unwrap();
    assert_eq!(ok.bytes()[11], 1);
    let err = convert_str_to_object_id("nope", "invalid id").unwrap_err();
    assert_eq!(err.code(), Code::InvalidArgument);
    assert_eq!(err.message(), "invalid id");
}

#[test]
fn datetime_to_timestamp_splits_seconds_and_nanos() {
    let t = convert_datetime_to_timestamp(DateTime::from_millis(1500)).unwrap();
    assert_eq!(t, Timestamp { seconds: 1, nanos: 500_000_000 });
    let t = convert_datetime_to_timestamp(DateTime::from_millis(0)).unwrap();
    assert_eq!(t, Timestamp { seconds: 0, nanos: 0 });
    let t = convert_datetime_to_timestamp(DateTime::from_millis(1_700_000_000_123)).unwrap();
    assert_eq!(t, Timestamp { seconds: 1_700_000_000, nanos: 123_000_000 });
}

#[test]
fn datetime_to_timestamp_counts_nanos_forward_before_the_epoch() {
    let t = convert_datetime_to_timestamp(DateTime::from_millis(-1500)).unwrap();
    assert_eq!(t, Timestamp { seconds: -2, nanos: 500_000_000 });
    let t = convert_datetime_to_timestamp(DateTime::from_millis(-1)).unwrap();
    assert_eq!(t, Timestamp { seconds: -1, nanos: 999_000_000 });
    let t = convert_datetime_to_timestamp(DateTime::from_millis(-1000)).unwrap();
    assert_eq!(t, Timestamp { seconds: -1, nanos: 0 });
    let t = convert_datetime_to_timestamp(DateTime::from_millis(-1001)).unwrap();
    assert_eq!(t, Timestamp { seconds: -2, nanos: 999_000_000 });
    let t = convert_datetime_to_timestamp(DateTime::from_millis(-999)).unwrap();
    assert_eq!(t, Timestamp { seconds: -1, nanos: 1_000_000 });
}

#[test]
fn datetime_to_timestamp_at_the_limits() {
    let t = convert_datetime_to_timestamp(DateTime::from_millis(i64::MAX)).unwrap();
    assert_eq!(t, Timestamp { seconds: 9_223_372_036_854_775, nanos: 807_000_000 });
    let t = convert_datetime_to_timestamp(DateTime::from_millis(i64::MIN)).unwrap();
    assert_eq!(t, Timestamp { seconds: -9_223_372_036_854_776, nanos: 192_000_000 });
}

#[test]
fn datetime_to_timestamp_gives_nanos_of_the_wire_format() {
    for millis in [i64::MIN, -86_400_001, -1500, -1, 0, 1, 999, 1500, i64::MAX] {
        let t = convert_datetime_to_timestamp(DateTime::from_millis(millis)).unwrap();
        assert!(0 <= t.nanos && t.nanos <= 999_999_999);
        assert_eq!(t.nanos % 1_000_000, 0);
        assert_eq!(
            t.seconds as i128 * 1000 + (t.nanos / 1_000_000) as i128,
            millis as i128
        );
    }
}

#[test]
fn timestamp_to_datetime_drops_what_is_below_a_millisecond() {
    let d = convert_timestamp_to_datetime(Some(Timestamp { seconds: 2, nanos: 345_678_901 }))
        .unwrap();
    assert_eq!(d.timestamp_millis(), 2345);
    let d = convert_timestamp_to_datetime(Some(Timestamp { seconds: -2, nanos: -345_678_901 }))
        .unwrap();
    assert_eq!(d.timestamp_millis(), -2345);
    let d = convert_timestamp_to_datetime(Some(Timestamp { seconds: 1, nanos: -999_999 }))
        .unwrap();
    assert_eq!(d.timestamp_millis(), 1000);
}

#[test]
fn timestamp_to_datetime_needs_a_timestamp() {
    let err = convert_timestamp_to_datetime(None).unwrap_err();
    assert_eq!(err.code(), Code::InvalidArgument);
    assert_eq!(err.message(), "missing timestamp");
}

#[test]
fn timestamp_to_datetime_refuses_what_does_not_fit() {
    let err = convert_timestamp_to_datetime(Some(Timestamp { seconds: i64::MAX, nanos: 0 }))
        .unwrap_err();
    assert_eq!(err.code(), Code::InvalidArgument);
    assert_eq!(err.message(), "timestamp out of range");
    let err = convert_timestamp_to_datetime(Some(Timestamp { seconds: i64::MIN, nanos: 0 }))
        .unwrap_err();
    assert_eq!(err.message(), "timestamp out of range");
}

#[test]
fn timestamp_to_datetime_takes_the_sum_where_only_the_seconds_overflow() {
    let d = convert_timestamp_to_datetime(Some(Timestamp {
        seconds: 9_223_372_036_854_776,
        nanos: -999_000_000,
    }))
    .unwrap();
    assert_eq!(d.timestamp_millis(), 9_223_372_036_854_775_001);
}

#[test]
fn timestamps_round_trip() {
    for millis in [0i64, 1, -1, 999, -999, 1000, -1000, 86_400_123, i64::MAX, i64::MIN] {
        let t = convert_datetime_to_timestamp(DateTime::from_millis(millis));
        let back = convert_timestamp_to_datetime(t).unwrap();
        assert_eq!(back.timestamp_millis(), millis);
    }
}

#[test]
fn status_constructors_set_code_and_message() {
    let s = Status::invalid_argument("a");
    assert_eq!((s.code(), s.message()), (Code::InvalidArgument, "a"));
    let s = Status::not_found("b");
    assert_eq!((s.code(), s.message()), (Code::NotFound, "b"));
    let s = Status::failed_precondition("c");
    assert_eq!((s.code(), s.message()), (Code::FailedPrecondition, "c"));
    let s = Status::internal("d");
    assert_eq!((s.code(), s.message()), (Code::Internal, "d"));
    let s = Status::new(Code::Unavailable, "e");
    assert_eq!((s.code(), s.message()), (Code::Unavailable, "e"));
    assert_eq!(s.clone(), s);
}

#[test]
fn not_found_is_shown_to_the_caller() {
    let s = Status::from(ApplicationError::not_found("ticket not found"));
    assert_eq!(s.code(), Code::NotFound);
    assert_eq!(s.message(), "ticket not found");
}

#[test]
fn invalid_update_path_is_shown_to_the_caller() {
    let s = Status::from(ApplicationError::invalid_update_path("flight_id".to_string()));
    assert_eq!(s.code(), Code::InvalidArgument);
    assert_eq!(s.message(), "flight_id");
}

#[test]
fn store_and_broker_failures_are_internal_errors_without_detail() {
    let s = Status::from(ApplicationError::MongoError("connection reset".to_string()));
    assert_eq!(s.code(), Code::Internal);
    assert_eq!(s.message(), "internal error");
    let s = Status::from(ApplicationError::RabbitError("channel closed".to_string()));
    assert_eq!(s.code(), Code::Internal);
    assert_eq!(s.message(), "internal error");
}

#[test]
fn errors_describe_themselves() {
    assert_eq!(
        ApplicationError::MongoError("boom".to_string()).to_string(),
        "mongodb error: boom"
    );
    assert_eq!(
        ApplicationError::RabbitError("boom".to_string()).to_string(),
        "rabbitmq error: boom"
    );
    assert_eq!(ApplicationError::not_found("ticket not found").to_string(), "not found: ticket not found");
    assert_eq!(
        ApplicationError::invalid_update_path("x.y".to_string()).to_string(),
        "invalid update path: x.y"
    );
}

#[test]
fn texts_are_compared_as_strings_sort() {
    assert_eq!(place_of("a", "b"), Place::Before);
    assert_eq!(place_of("b", "a"), Place::After);
    assert_eq!(place_of("a", "a"), Place::Same);
    assert_eq!(place_of("", ""), Place::Same);
    assert_eq!(place_of("", "a"), Place::Before);
    assert_eq!(place_of("ab", "a"), Place::After);
    assert_eq!(place_of("passenger.name", "passenger.ssn"), Place::Before);
    assert_eq!(place_of("Z", "a"), Place::Before);
    assert_eq!(place_of("z", "é"), Place::Before);
    assert_eq!(place_of("é", "日"), Place::Before);
    for (a, b) in [("abc", "abd"), ("x", "é"), ("", "x"), ("same", "same"), ("10", "9")] {
        let expected = if a < b {
            Place::Before
        } else if a == b {
            Place::Same
        } else {
            Place::After
        };
        assert_eq!(place_of(a, b), expected);
    }
}

#[test]
fn texts_are_equal_when_their_characters_are() {
    assert!(str_equal("VALID", "VALID"));
    assert!(!str_equal("VALID", "valid"));
    assert!(!str_equal("VALID", "VALID "));
    assert!(str_equal("", ""));
}
