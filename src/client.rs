//! What the library knows of the La Poste "Suivi v2" API: where a parcel's
//! events are asked for, and the events that come back.

use vstd::prelude::*;

verus! {

/// The API endpoint; a parcel's tracking number is appended to it.
pub const API_ENDPOINT: &'static str = "https://api.laposte.fr/suivi/v2/idships/";

/// The header that carries the API key.
pub const API_KEY_HEADER: &'static str = "X-Okapi-Key";

/// The first second of year 0, in seconds from the Unix epoch.
pub const FIRST_SECOND_OF_YEAR_0: i64 = -62_167_219_200;

/// The first second of year 10000, in seconds from the Unix epoch.
pub const FIRST_SECOND_OF_YEAR_10000: i64 = 253_402_300_800;

/// The number of seconds in a day.
pub const SECONDS_PER_DAY: i32 = 86_400;

/// Whether a moment, in seconds from the Unix epoch, seen at an offset from
/// UTC in seconds, is a valid offset and falls in years 0 to 9999 there.
pub open spec fn representable(timestamp: int, offset: int) -> bool {
    &&& -SECONDS_PER_DAY < offset < SECONDS_PER_DAY
    &&& FIRST_SECOND_OF_YEAR_0 <= timestamp + offset < FIRST_SECOND_OF_YEAR_10000
}

/// The RFC 2822 text of a moment, in seconds from the Unix epoch, seen at an
/// offset from UTC in seconds.
pub uninterp spec fn rfc2822_of(timestamp: i64, offset: i32) -> Seq<char>;

/// Relies on chrono's `DateTime::to_rfc2822`, on the moment built from the
/// timestamp by `DateTime::from_timestamp` and moved to the offset built by
/// `FixedOffset::east_opt`: its text depends on these two values alone. It
/// panics on a year outside 0 to 9999 there, which `requires` leaves out.
#[verifier::external_body]
fn format_rfc2822(timestamp: i64, offset: i32) -> (r: String)
    requires
        representable(timestamp as int, offset as int),
    ensures
        r@ == rfc2822_of(timestamp, offset),
{
    let zone = chrono::FixedOffset::east_opt(offset).unwrap();
    chrono::DateTime::from_timestamp(timestamp, 0).unwrap().with_timezone(&zone).to_rfc2822()
}

/// When an event happened: a moment and the offset from UTC at which it is
/// shown, both in seconds, limited to what RFC 2822 can write.
pub struct EventDate {
    timestamp: i64,
    offset: i32,
}

impl EventDate {
    #[verifier::type_invariant]
    closed spec fn writable(&self) -> bool {
        representable(self.timestamp as int, self.offset as int)
    }

    /// The moment, in seconds from the Unix epoch.
    pub closed spec fn spec_timestamp(&self) -> i64 {
        self.timestamp
    }

    /// The offset from UTC, in seconds.
    pub closed spec fn spec_offset(&self) -> i32 {
        self.offset
    }

    /// Makes a date from a moment and an offset, both in seconds; `None`
    /// where the offset is a day or more, or the year there is outside 0 to
    /// 9999.
    pub fn new(timestamp: i64, offset: i32) -> (r: Option<EventDate>)
        ensures
            match r {
                Some(d) => representable(timestamp as int, offset as int) && d.spec_timestamp()
                    == timestamp && d.spec_offset() == offset,
                None => !representable(timestamp as int, offset as int),
            },
    {
        if -SECONDS_PER_DAY < offset && offset < SECONDS_PER_DAY {
            let local = timestamp as i128 + offset as i128;
            if FIRST_SECOND_OF_YEAR_0 as i128 <= local && local < FIRST_SECOND_OF_YEAR_10000 as i128 {
                return Some(EventDate { timestamp, offset });
            }
        }
        None
    }

    /// The moment, in seconds from the Unix epoch.
    pub fn timestamp(&self) -> (r: i64)
        ensures
            r == self.spec_timestamp(),
    {
        self.timestamp
    }

    /// The offset from UTC, in seconds.
    pub fn offset(&self) -> (r: i32)
        ensures
            r == self.spec_offset(),
    {
        self.offset
    }

    /// The date in the form of RFC 2822, such as
    /// `Tue, 1 Jul 2003 10:52:37 +0200`.
    pub fn to_rfc2822(&self) -> (r: String)
        ensures
            r@ == rfc2822_of(self.spec_timestamp(), self.spec_offset()),
    {
        proof {
            use_type_invariant(self);
        }
        format_rfc2822(self.timestamp, self.offset)
    }
}

/// An event in the history of a parcel.
pub struct Event {
    /// When the event happened.
    pub date: EventDate,
    /// A description of the event.
    pub label: String,
}

/// Why the events of a parcel could not be had.
pub enum FetchError {
    /// The request did not get an answer: name resolution, connection, TLS,
    /// or a status that is not a success.
    Transport,
    /// The answer was not the expected JSON document.
    Decode,
}

/// The URL at which the events of a parcel are asked for.
pub fn request_url(tracking_number: &str) -> (r: String)
    ensures
        r@ == API_ENDPOINT@ + tracking_number@,
{
    let mut url = String::from_str(API_ENDPOINT);
    url.append(tracking_number);
    url
}

} // verus!
