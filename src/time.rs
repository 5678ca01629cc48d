use vstd::prelude::*;

verus! {

/// Seconds since the Unix epoch of 0000-01-01T00:00:00Z.
pub const MIN_SECS: i64 = -62167219200;

/// Seconds since the Unix epoch of 9999-12-31T23:59:59Z.
pub const MAX_SECS: i64 = 253402300799;

/// Nanoseconds in one second.
pub const NANOS_PER_SEC: u32 = 1_000_000_000;

/// A UTC instant without offset, as seconds since the Unix epoch and the
/// nanoseconds within that second. Valid instants fall in the years 0 to 9999,
/// the range that RFC 2822 dates can express.
#[derive(Clone, Copy, Debug, PartialEq, Eq, Structural)]
pub struct Timestamp {
    pub secs: i64,
    pub nanos: u32,
}

/// What `DateTime::<Utc>::to_rfc2822` renders for the instant `secs`, `nanos`.
pub uninterp spec fn rfc2822_of(secs: int, nanos: int) -> Seq<char>;

impl Timestamp {
    pub open spec fn wf(self) -> bool {
        MIN_SECS <= self.secs <= MAX_SECS && self.nanos < NANOS_PER_SEC
    }

    /// Strict order of instants: `self` lies after `other`.
    pub open spec fn is_after(self, other: Timestamp) -> bool {
        self.secs > other.secs || (self.secs == other.secs && self.nanos > other.nanos)
    }

    /// The instant `secs`, `nanos`, where it is a valid one.
    pub fn new(secs: i64, nanos: u32) -> (r: Option<Timestamp>)
        ensures
            r == (if MIN_SECS <= secs <= MAX_SECS && nanos < NANOS_PER_SEC {
                Some(Timestamp { secs, nanos })
            } else {
                None
            }),
    {
        if MIN_SECS <= secs && secs <= MAX_SECS && nanos < NANOS_PER_SEC {
            Some(Timestamp { secs, nanos })
        } else {
            None
        }
    }

    pub fn valid(&self) -> (r: bool)
        ensures
            r == self.wf(),
    {
        MIN_SECS <= self.secs && self.secs <= MAX_SECS && self.nanos < NANOS_PER_SEC
    }

    /// `self` lies after `other`.
    pub fn after(&self, other: &Timestamp) -> (r: bool)
        ensures
            r == self.is_after(*other),
    {
        self.secs > other.secs || (self.secs == other.secs && self.nanos > other.nanos)
    }

    /// The instant in the date format of RFC 2822, as feeds write it.
    pub fn to_rfc2822(&self) -> (r: String)
        requires
            self.wf(),
        ensures
            r@ == rfc2822_of(self.secs as int, self.nanos as int),
    {
        rfc2822_text(self.secs, self.nanos)
    }
}

/// Relies on `chrono::DateTime::<Utc>::from_timestamp`, which is `Some` for a
/// second count inside chrono's range and nanoseconds under one second, and on
/// `DateTime::to_rfc2822`, which panics only for years outside 0 to 9999.
#[verifier::external_body]
fn rfc2822_text(secs: i64, nanos: u32) -> (r: String)
    requires
        MIN_SECS <= secs <= MAX_SECS,
        nanos < NANOS_PER_SEC,
    ensures
        r@ == rfc2822_of(secs as int, nanos as int),
{
    chrono::DateTime::from_timestamp(secs, nanos).expect("instant in range").to_rfc2822()
}

/// Relies on `chrono::Utc::now`: the current time of the system clock, as
/// seconds since the epoch and the nanoseconds within the second.
#[verifier::external_body]
fn system_now() -> (r: (i64, u32)) {
    let now = chrono::Utc::now();
    (now.timestamp(), now.timestamp_subsec_nanos())
}

/// The current UTC time, or `None` where the clock reads an instant that is
/// not a valid `Timestamp`.
pub fn now_utc() -> (r: Option<Timestamp>)
    ensures
        r matches Some(t) ==> t.wf(),
{
    let (secs, nanos) = system_now();
    Timestamp::new(secs, nanos)
}

} // verus!
