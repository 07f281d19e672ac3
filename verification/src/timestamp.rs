//! Points in time as the database hands them over: seconds and nanoseconds
//! since the Unix epoch, rendered the way chrono prints a `NaiveDateTime`.

use vstd::prelude::*;

verus! {

/// What chrono's `DateTime::from_timestamp(secs, nanos)` followed by
/// `naive_utc().to_string()` gives: `None` outside chrono's range.
pub uninterp spec fn naive_datetime_text(secs: i64, nanos: u32) -> Option<Seq<char>>;

/// `chrono::DateTime::from_timestamp(secs, nanos)`, rendered through
/// `NaiveDateTime`'s `Display` (`%Y-%m-%d %H:%M:%S%.f`). The text itself is
/// left to the name.
#[verifier::external_body]
fn datetime_text(secs: i64, nanos: u32) -> (r: Option<String>)
    ensures
        r.deep_view() == naive_datetime_text(secs, nanos),
{
    match chrono::DateTime::from_timestamp(secs, nanos) {
        Some(d) => Some(d.naive_utc().to_string()),
        None => None,
    }
}

/// A point in time that chrono can represent.
pub struct Timestamp {
    secs: i64,
    nanos: u32,
}

impl Timestamp {
    #[verifier::type_invariant]
    spec fn representable(self) -> bool {
        naive_datetime_text(self.secs, self.nanos) is Some
    }

    /// Seconds since the Unix epoch.
    pub closed spec fn seconds(self) -> i64 {
        self.secs
    }

    /// Nanoseconds within the second.
    pub closed spec fn nanoseconds(self) -> u32 {
        self.nanos
    }

    /// The text chrono prints for this point in time.
    pub open spec fn text(self) -> Seq<char> {
        naive_datetime_text(self.seconds(), self.nanoseconds())->Some_0
    }

    /// Builds a timestamp; `None` where chrono cannot represent it.
    pub fn from_unix(secs: i64, nanos: u32) -> (r: Option<Timestamp>)
        ensures
            r is Some <==> naive_datetime_text(secs, nanos) is Some,
            r matches Some(t) ==> t.seconds() == secs && t.nanoseconds() == nanos,
    {
        match datetime_text(secs, nanos) {
            Some(_) => Some(Timestamp { secs, nanos }),
            None => None,
        }
    }

    /// Seconds since the Unix epoch.
    pub fn secs(&self) -> (r: i64)
        ensures
            r == self.seconds(),
    {
        self.secs
    }

    /// Nanoseconds within the second.
    pub fn nanos(&self) -> (r: u32)
        ensures
            r == self.nanoseconds(),
    {
        self.nanos
    }

    /// `NaiveDateTime::to_string` of this point in time.
    pub fn to_text(&self) -> (r: String)
        ensures
            r@ == self.text(),
            naive_datetime_text(self.seconds(), self.nanoseconds()) == Some(r@),
    {
        proof {
            use_type_invariant(self);
        }
        match datetime_text(self.secs, self.nanos) {
            Some(s) => s,
            None => String::new(),
        }
    }
}

} // verus!
