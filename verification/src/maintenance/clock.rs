//! Points in time as statuses record them.

use vstd::prelude::*;

use crate::text;

verus! {

/// What `Timestamp::new(second, nanosecond)` of `jiff` prints as, where these are
/// the parts of a supported instant.
pub uninterp spec fn timestamp_text(second: i64, nanosecond: i32) -> Option<Seq<char>>;

/// Calls `Timestamp::new` of `jiff` and prints the result with its `Display`. The
/// outcome depends on the two parts alone, and there is none where `new` refuses
/// them.
#[verifier::external_body]
fn instant_text(second: i64, nanosecond: i32) -> (printed: Option<String>)
    ensures
        text::opt_text(printed) == timestamp_text(second, nanosecond),
{
    match k8s_openapi::jiff::Timestamp::new(second, nanosecond) {
        Ok(instant) => Some(instant.to_string()),
        Err(_) => None,
    }
}

/// A point in time, in the form in which statuses record it.
#[derive(Clone, Debug, PartialEq, Eq)]
pub struct Timestamp {
    text: String,
}

impl View for Timestamp {
    type V = Seq<char>;

    closed spec fn view(&self) -> Seq<char> {
        self.text@
    }
}

impl Timestamp {
    /// The instant that lies `second` seconds and `nanosecond` nanoseconds after the
    /// Unix epoch, if it is a supported one.
    pub fn new(second: i64, nanosecond: i32) -> (instant: Option<Timestamp>)
        ensures
            (match instant {
                Some(instant) => Some(instant@),
                None => None,
            }) == timestamp_text(second, nanosecond),
    {
        match instant_text(second, nanosecond) {
            Some(text) => Some(Timestamp { text }),
            None => None,
        }
    }

    /// The recorded form.
    pub fn text(&self) -> (text: String)
        ensures
            text@ == self@,
    {
        self.text.clone()
    }
}

} // verus!
