//! Conversions between the values of the wire and those of the record store.

use vstd::prelude::*;
use crate::bson::{bytes_of_hex, is_object_id_hex, DateTime, ObjectId};
use crate::proto::protobuf::Timestamp;
use crate::status::{Code, Status, StatusView};

verus! {

/// Division that rounds toward zero, for a positive divisor.
pub open spec fn quotient(a: int, b: int) -> int {
    if a >= 0 {
        a / b
    } else {
        -((-a) / b)
    }
}

/// The wire form of a point in time given in milliseconds: the whole seconds
/// at or before it, and the milliseconds from there on as nanoseconds. The
/// nanoseconds count forward in time, also before the epoch, so they lie
/// between 0 and 999,999,999.
pub open spec fn timestamp_of_millis(millis: int) -> Timestamp {
    Timestamp { seconds: (millis / 1000) as i64, nanos: ((millis % 1000) * 1_000_000) as i32 }
}

/// The milliseconds that a wire timestamp stands for; what its nanoseconds
/// hold below a millisecond is dropped.
pub open spec fn millis_of_timestamp(t: Timestamp) -> int {
    t.seconds * 1000 + quotient(t.nanos as int, 1_000_000)
}

/// Whether the milliseconds of a wire timestamp fit a stored point in time.
pub open spec fn timestamp_in_range(t: Timestamp) -> bool {
    i64::MIN <= millis_of_timestamp(t) <= i64::MAX
}

pub fn convert_datetime_to_timestamp(d: DateTime) -> (t: Option<Timestamp>)
    ensures
        t == Some(timestamp_of_millis(d@)),
        t matches Some(ts) && 0 <= ts.nanos <= 999_999_999,
{
    let millis = d.timestamp_millis();
    let whole = millis / 1000;
    let left = millis % 1000;
    if left < 0 {
        Some(Timestamp { seconds: whole - 1, nanos: ((left + 1000) as i32) * 1_000_000 })
    } else {
        Some(Timestamp { seconds: whole, nanos: (left as i32) * 1_000_000 })
    }
}

/// What `convert_timestamp_to_datetime` gives: a missing timestamp and one
/// beyond the stored range are refused as invalid arguments.
pub open spec fn datetime_of_timestamp(t: Option<Timestamp>) -> Result<int, StatusView> {
    match t {
        None => Err(StatusView { code: Code::InvalidArgument, message: "missing timestamp"@ }),
        Some(t) => if timestamp_in_range(t) {
            Ok(millis_of_timestamp(t))
        } else {
            Err(StatusView { code: Code::InvalidArgument, message: "timestamp out of range"@ })
        },
    }
}

/// What a result says, its values taken by their views.
pub open spec fn datetime_result_view(r: Result<DateTime, Status>) -> Result<int, StatusView> {
    match r {
        Ok(d) => Ok(d@),
        Err(s) => Err(s@),
    }
}

pub fn convert_timestamp_to_datetime(t: Option<Timestamp>) -> (d: Result<DateTime, Status>)
    ensures
        datetime_result_view(d) == datetime_of_timestamp(t),
{
    let t = match t {
        Some(t) => t,
        None => {
            return Err(Status::invalid_argument("missing timestamp"));
        },
    };
    let fraction = (t.nanos as i64) / 1_000_000;
    let millis: i128 = (t.seconds as i128) * 1000 + (fraction as i128);
    if millis < (i64::MIN as i128) || millis > (i64::MAX as i128) {
        Err(Status::invalid_argument("timestamp out of range"))
    } else {
        Ok(DateTime::from_millis(millis as i64))
    }
}

/// What `convert_str_to_object_id` gives: the identifier that 24 hexadecimal
/// digits stand for; any other text is refused with the given message.
pub open spec fn object_id_of_str(id: Seq<char>, message: Seq<char>) -> Result<Seq<u8>, StatusView> {
    if is_object_id_hex(id) {
        Ok(bytes_of_hex(id))
    } else {
        Err(StatusView { code: Code::InvalidArgument, message })
    }
}

/// What a result says, its values taken by their views.
pub open spec fn object_id_result_view(r: Result<ObjectId, Status>) -> Result<Seq<u8>, StatusView> {
    match r {
        Ok(id) => Ok(id@),
        Err(s) => Err(s@),
    }
}

pub fn convert_str_to_object_id(id: &str, message: &'static str) -> (r: Result<ObjectId, Status>)
    ensures
        object_id_result_view(r) == object_id_of_str(id@, message@),
{
    match ObjectId::parse_str(id) {
        Some(found) => Ok(found),
        None => Err(Status::invalid_argument(message)),
    }
}

/// The wire form of a stored point in time is well formed: its nanoseconds
/// lie between 0 and 999,999,999 and are whole milliseconds, and seconds and
/// nanoseconds together are the point in time.
pub proof fn timestamp_is_well_formed(millis: int)
    requires
        i64::MIN <= millis <= i64::MAX,
    ensures
        0 <= timestamp_of_millis(millis).nanos <= 999_999_999,
        timestamp_of_millis(millis).nanos % 1_000_000 == 0,
        timestamp_of_millis(millis).seconds * 1000 + timestamp_of_millis(millis).nanos
            / 1_000_000 == millis,
{
    let r = millis % 1000;
    assert(0 <= r < 1000);
    assert((r * 1_000_000) / 1_000_000 == r);
    assert((r * 1_000_000) % 1_000_000 == 0);
}

/// A stored point in time that is written to the wire and read back is the
/// same point in time.
pub proof fn timestamp_round_trip(millis: int)
    requires
        i64::MIN <= millis <= i64::MAX,
    ensures
        datetime_of_timestamp(Some(timestamp_of_millis(millis))) == Ok::<int, StatusView>(millis),
{
    timestamp_is_well_formed(millis);
}

} // verus!
