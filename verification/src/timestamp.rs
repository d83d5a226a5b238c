//! UTC instants, held as the two plain numbers that `chrono` rebuilds a
//! `DateTime<Utc>` from.

use chrono::DateTime;
use chrono::Utc;
use vstd::prelude::*;

verus! {

/// Whether `chrono::DateTime::from_timestamp(secs, nanos)` yields a date-time,
/// i.e. whether the pair lies inside the range of instants that `chrono` can
/// represent.
pub uninterp spec fn representable(secs: int, nanos: int) -> bool;

/// The text that `chrono` writes for the instant `(secs, nanos)` under the
/// pattern `%Y-%m-%d_%H-%M`: the UTC calendar date and the time of day, cut
/// off at the minute.
pub uninterp spec fn minute_label_text(secs: int, nanos: int) -> Seq<char>;

/// A UTC instant: whole non-leap seconds since 1970-01-01T00:00:00Z and the
/// nanoseconds since the last whole second. As in `chrono`, the nanoseconds
/// run past 999,999,999 during a leap second.
///
/// Every value is one that `chrono` can represent, so it converts to a
/// `DateTime<Utc>` and back without loss.
#[derive(Clone, Copy, Debug, PartialEq, Eq)]
pub struct Timestamp {
    pub(crate) secs: i64,
    pub(crate) nanos: u32,
}

/// Reads the clock through `chrono::Utc::now` and takes the reading apart with
/// `DateTime::timestamp` and `DateTime::timestamp_subsec_nanos`.
///
/// Nothing is claimed about which instant comes back, only that it is one
/// `chrono` can represent: `from_timestamp` is documented to round-trip with
/// the two accessors. `chrono` gives up if the system clock stands before
/// 1970.
#[verifier::external_body]
fn clock_reading() -> (parts: (i64, u32))
    ensures
        representable(parts.0 as int, parts.1 as int),
{
    let now: DateTime<Utc> = Utc::now();
    (now.timestamp(), now.timestamp_subsec_nanos())
}

/// Asks `chrono::DateTime::from_timestamp` whether it accepts the pair. The
/// answer is what `representable` stands for.
#[verifier::external_body]
fn chrono_accepts(secs: i64, nanos: u32) -> (accepted: bool)
    ensures
        accepted == representable(secs as int, nanos as int),
{
    DateTime::from_timestamp(secs, nanos).is_some()
}

/// Rebuilds the date-time with `chrono::DateTime::from_timestamp` and formats
/// it with `DateTime::format` under the pattern `%Y-%m-%d_%H-%M`. The text is
/// what `minute_label_text` stands for; it depends on the instant alone, since
/// the date-time is in UTC and the pattern holds no locale-dependent field.
/// The pair must be representable, or there is no date-time to format.
#[verifier::external_body]
fn chrono_minute_label(secs: i64, nanos: u32) -> (label: String)
    requires
        representable(secs as int, nanos as int),
    ensures
        label@ == minute_label_text(secs as int, nanos as int),
{
    DateTime::from_timestamp(secs, nanos).unwrap().format("%Y-%m-%d_%H-%M").to_string()
}

impl Timestamp {
    #[verifier::type_invariant]
    spec fn chrono_can_hold(self) -> bool {
        representable(self.secs as int, self.nanos as int)
    }

    /// Whole seconds since the epoch.
    pub closed spec fn spec_secs(&self) -> i64 {
        self.secs
    }

    /// Nanoseconds since the last whole second.
    pub closed spec fn spec_nanos(&self) -> u32 {
        self.nanos
    }

    /// `self` is no later than `other`: seconds decide, nanoseconds break ties.
    pub open spec fn spec_le(&self, other: &Timestamp) -> bool {
        self.spec_secs() < other.spec_secs() || (self.spec_secs() == other.spec_secs()
            && self.spec_nanos() <= other.spec_nanos())
    }

    /// `self` lies in the closed window from `earliest` to `latest`.
    pub open spec fn spec_within(&self, earliest: &Timestamp, latest: &Timestamp) -> bool {
        earliest.spec_le(self) && self.spec_le(latest)
    }

    /// The current instant, as the system clock gives it. The clock may be
    /// set back between two readings, so a later reading is not promised to
    /// be a later instant.
    pub fn now() -> (at: Timestamp)
        ensures
            representable(at.spec_secs() as int, at.spec_nanos() as int),
    {
        let parts: (i64, u32) = clock_reading();
        Timestamp { secs: parts.0, nanos: parts.1 }
    }

    /// The instant `secs` seconds and `nanos` nanoseconds after the epoch, if
    /// `chrono` can represent it.
    pub fn from_parts(secs: i64, nanos: u32) -> (made: Option<Timestamp>)
        ensures
            made is Some <==> representable(secs as int, nanos as int),
            made matches Some(at) ==> at.spec_secs() == secs && at.spec_nanos() == nanos,
    {
        if chrono_accepts(secs, nanos) {
            Some(Timestamp { secs, nanos })
        } else {
            None
        }
    }

    #[verifier::when_used_as_spec(spec_secs)]
    pub fn secs(&self) -> (secs: i64)
        ensures
            secs == self.spec_secs(),
    {
        self.secs
    }

    #[verifier::when_used_as_spec(spec_nanos)]
    pub fn nanos(&self) -> (nanos: u32)
        ensures
            nanos == self.spec_nanos(),
    {
        self.nanos
    }

    /// Whether `self` is no later than `other`.
    #[verifier::when_used_as_spec(spec_le)]
    pub fn le(&self, other: &Timestamp) -> (no_later: bool)
        ensures
            no_later == self.spec_le(other),
    {
        self.secs < other.secs || (self.secs == other.secs && self.nanos <= other.nanos)
    }

    /// Whether `self` lies in the closed window from `earliest` to `latest`.
    #[verifier::when_used_as_spec(spec_within)]
    pub fn is_within(&self, earliest: &Timestamp, latest: &Timestamp) -> (inside: bool)
        ensures
            inside == self.spec_within(earliest, latest),
    {
        earliest.le(self) && self.le(latest)
    }

    /// The date and the time of day in UTC, to the minute, as
    /// `YYYY-MM-DD_HH-MM`.
    pub fn minute_label(&self) -> (label: String)
        ensures
            label@ == minute_label_text(self.spec_secs() as int, self.spec_nanos() as int),
    {
        proof {
            use_type_invariant(self);
        }
        chrono_minute_label(self.secs, self.nanos)
    }
}

/// "No later than" is a total order on instants: any two compare, each is no
/// later than itself, the relation chains, and two instants that are no later
/// than each other are the same instant.
pub proof fn lemma_le_is_a_total_order(a: Timestamp, b: Timestamp, c: Timestamp)
    ensures
        a.le(&a),
        a.le(&b) || b.le(&a),
        a.le(&b) && b.le(&c) ==> a.le(&c),
        a.le(&b) && b.le(&a) ==> a == b,
{
}

/// A window holds its own ends, and every window inside it lies inside it
/// whole.
pub proof fn lemma_windows_nest(
    at: Timestamp,
    earliest: Timestamp,
    latest: Timestamp,
    wider_earliest: Timestamp,
    wider_latest: Timestamp,
)
    requires
        at.is_within(&earliest, &latest),
        wider_earliest.le(&earliest),
        latest.le(&wider_latest),
    ensures
        earliest.is_within(&earliest, &latest),
        latest.is_within(&earliest, &latest),
        at.is_within(&wider_earliest, &wider_latest),
{
}

} // verus!
