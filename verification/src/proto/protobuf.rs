//! The two well-known message types that the ticket messages use.

use vstd::prelude::*;

verus! {

/// A point in time on the wire: whole seconds since the Unix epoch and a
/// fraction in nanoseconds.
#[derive(Clone, Copy, Debug, PartialEq, Eq, Structural)]
pub struct Timestamp {
    pub seconds: i64,
    pub nanos: i32,
}

/// A set of dotted field paths that says which fields an update touches.
#[derive(Debug, PartialEq)]
pub struct FieldMask {
    pub paths: Vec<String>,
}

/// The texts of a list of strings, in order.
pub open spec fn texts(strings: Seq<String>) -> Seq<Seq<char>> {
    strings.map_values(|s: String| s@)
}

impl View for FieldMask {
    type V = Seq<Seq<char>>;

    open spec fn view(&self) -> Seq<Seq<char>> {
        texts(self.paths@)
    }
}

} // verus!
