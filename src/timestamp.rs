use vstd::prelude::*;

verus! {

/// Seconds since the Unix epoch of `-262143-01-01 00:00:00 UTC`, the earliest
/// instant that a chrono `DateTime<Utc>` holds.
pub const MIN_SECS: i64 = -8334601228800;

/// Seconds since the Unix epoch of `+262142-12-31 23:59:59 UTC`, the latest
/// whole second that a chrono `DateTime<Utc>` holds.
pub const MAX_SECS: i64 = 8210266876799;

/// Sub-second nanoseconds stay below this bound; values from one billion up
/// stand for a leap second.
pub const NANOS_LIMIT: u32 = 2_000_000_000;

/// An instant in UTC: whole seconds since the Unix epoch and the nanoseconds
/// past that second.
#[derive(Clone, Copy, Debug, PartialEq, Eq, Structural)]
pub struct Timestamp {
    secs: i64,
    nanos: u32,
}

/// Whether `secs` and `nanos` name an instant that a chrono `DateTime<Utc>` can
/// hold: the seconds lie in its range, and a nanosecond count of one billion or
/// more (a leap second) only follows the 59th second of a minute.
pub open spec fn in_range(secs: int, nanos: int) -> bool {
    &&& MIN_SECS <= secs <= MAX_SECS
    &&& 0 <= nanos < NANOS_LIMIT
    &&& (nanos >= 1_000_000_000 ==> secs % 60 == 59)
}

/// The text of an instant as `%Y-%m-%d %H:%M:%S` renders it.
pub uninterp spec fn utc_text(secs: int, nanos: int) -> Seq<char>;

impl Timestamp {
    #[verifier::type_invariant]
    spec fn valid(self) -> bool {
        in_range(self.secs as int, self.nanos as int)
    }

    /// Whole seconds since the Unix epoch.
    pub closed spec fn spec_secs(self) -> int {
        self.secs as int
    }

    /// Nanoseconds past the whole second.
    pub closed spec fn spec_nanos(self) -> int {
        self.nanos as int
    }

    /// The rendered text of this instant.
    pub open spec fn text(self) -> Seq<char> {
        utc_text(self.spec_secs(), self.spec_nanos())
    }

    /// The instant `secs` seconds and `nanos` nanoseconds after the Unix epoch,
    /// or `None` where no `DateTime<Utc>` holds it.
    pub fn new(secs: i64, nanos: u32) -> (r: Option<Timestamp>)
        ensures
            r is Some <==> in_range(secs as int, nanos as int),
            r matches Some(t) ==> t.spec_secs() == secs && t.spec_nanos() == nanos,
    {
        // `%` on a negative `i64` keeps the sign: a remainder of -1 is 59 below zero.
        let in_minute: i64 = secs % 60;
        if MIN_SECS <= secs && secs <= MAX_SECS && nanos < NANOS_LIMIT && (nanos < 1_000_000_000
            || in_minute == 59 || in_minute == -1) {
            Some(Timestamp { secs, nanos })
        } else {
            None
        }
    }

    pub fn secs(&self) -> (r: i64)
        ensures
            r == self.spec_secs(),
    {
        self.secs
    }

    pub fn nanos(&self) -> (r: u32)
        ensures
            r == self.spec_nanos(),
    {
        self.nanos
    }

    /// This instant rendered as `YYYY-MM-DD HH:MM:SS`.
    pub fn format(&self) -> (r: String)
        ensures
            r@ == self.text(),
    {
        proof {
            use_type_invariant(self);
        }
        render_utc(self.secs, self.nanos)
    }
}

/// Relies on chrono's `DateTime::from_timestamp`, which gives `Some` for every
/// instant in range, and on its `format("%Y-%m-%d %H:%M:%S")`, whose text
/// depends on the instant alone.
#[verifier::external_body]
fn render_utc(secs: i64, nanos: u32) -> (r: String)
    requires
        in_range(secs as int, nanos as int),
    ensures
        r@ == utc_text(secs as int, nanos as int),
{
    chrono::DateTime::from_timestamp(secs, nanos).unwrap().format("%Y-%m-%d %H:%M:%S").to_string()
}

} // verus!
