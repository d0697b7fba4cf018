//! Instants in UTC as the server stores them, and the elapsed-time rule the
//! background jobs use.

use vstd::prelude::*;

verus! {

/// Seconds since the epoch of the earliest instant `chrono` represents,
/// `DateTime::<Utc>::MIN_UTC` (-262143-01-01T00:00:00Z).
pub const MIN_EPOCH_SECONDS: i64 = -8_334_601_228_800;

/// Seconds since the epoch of the last second `chrono` represents,
/// `DateTime::<Utc>::MAX_UTC` (+262142-12-31T23:59:59Z).
pub const MAX_EPOCH_SECONDS: i64 = 8_210_266_876_799;

pub const NANOS_PER_SECOND: u32 = 1_000_000_000;

/// An instant in UTC: whole seconds since the UNIX epoch and the
/// nanoseconds within that second, as `chrono::DateTime<Utc>` exposes them
/// through `timestamp()` and `timestamp_subsec_nanos()`.
#[derive(Clone, Copy, Debug, PartialEq, Eq, Structural)]
pub struct Timestamp {
    pub secs: i64,
    pub nanos: u32,
}

impl Timestamp {
    /// An instant that `chrono` represents, other than a leap second.
    pub open spec fn wf(self) -> bool {
        &&& self.nanos < NANOS_PER_SECOND
        &&& MIN_EPOCH_SECONDS <= self.secs <= MAX_EPOCH_SECONDS
    }

    /// The instant as a number of nanoseconds since the epoch.
    pub open spec fn total_nanos(self) -> int {
        self.secs * 1_000_000_000 + self.nanos
    }

    pub fn is_wf(&self) -> (b: bool)
        ensures
            b == self.wf(),
    {
        self.nanos < NANOS_PER_SECOND && MIN_EPOCH_SECONDS <= self.secs
            && self.secs <= MAX_EPOCH_SECONDS
    }
}

/// Integer division that rounds toward zero, as Rust's `/` does.
pub open spec fn div_toward_zero(x: int, d: int) -> int
    recommends
        d > 0,
{
    if x >= 0 {
        x / d
    } else {
        -((-x) / d)
    }
}

/// Whole hours from `then` to `now`: the `num_hours()` of
/// `now.signed_duration_since(then)` in chrono, which rounds the elapsed
/// whole seconds, and then the hours, toward zero.
pub open spec fn whole_hours_between(now: Timestamp, then: Timestamp) -> int {
    div_toward_zero(
        div_toward_zero(now.total_nanos() - then.total_nanos(), 1_000_000_000),
        3600,
    )
}

/// Whole hours from `then` to `now`, rounded toward zero.
pub fn hours_between(now: Timestamp, then: Timestamp) -> (h: i64)
    requires
        now.wf(),
        then.wf(),
    ensures
        h == whole_hours_between(now, then),
{
    let ds: i128 = now.secs as i128 - then.secs as i128;
    let dn: i128 = now.nanos as i128 - then.nanos as i128;
    assert(-20_000_000_000_000 <= ds <= 20_000_000_000_000);
    assert(-20_000_000_000_000_000_000_000 <= ds * 1_000_000_000 <= 20_000_000_000_000_000_000_000)
        by (nonlinear_arith)
        requires
            -20_000_000_000_000 <= ds <= 20_000_000_000_000,
    ;
    let total: i128 = ds * 1_000_000_000 + dn;
    assert(total == now.total_nanos() - then.total_nanos()) by (nonlinear_arith)
        requires
            ds == now.secs - then.secs,
            dn == now.nanos - then.nanos,
            total == ds * 1_000_000_000 + dn,
    ;
    if total >= 0 {
        let m: u128 = total as u128;
        let h: u128 = m / 1_000_000_000 / 3600;
        assert(h <= m) by {
            vstd::arithmetic::div_mod::lemma_div_nonincreasing(m as int, 1_000_000_000);
            vstd::arithmetic::div_mod::lemma_div_nonincreasing((m / 1_000_000_000) as int, 3600);
        }
        assert(h < 10_000_000_000_000) by {
            vstd::arithmetic::div_mod::lemma_div_is_ordered(m as int, 30_000_000_000_000_000_000_000, 1_000_000_000);
            vstd::arithmetic::div_mod::lemma_div_is_ordered((m / 1_000_000_000) as int, 30_000_000_000_000, 3600);
        }
        h as i64
    } else {
        let m: u128 = (-total) as u128;
        let h: u128 = m / 1_000_000_000 / 3600;
        assert(h < 10_000_000_000_000) by {
            vstd::arithmetic::div_mod::lemma_div_is_ordered(m as int, 30_000_000_000_000_000_000_000, 1_000_000_000);
            vstd::arithmetic::div_mod::lemma_div_is_ordered((m / 1_000_000_000) as int, 30_000_000_000_000, 3600);
        }
        -(h as i64)
    }
}

/// Whether at least `hours` whole hours have passed from `last` to `now`;
/// an instant that was never recorded always counts as long enough ago.
pub open spec fn elapsed_at_least(last: Option<Timestamp>, now: Timestamp, hours: int) -> bool {
    match last {
        Some(t) => whole_hours_between(now, t) >= hours,
        None => true,
    }
}

pub fn has_elapsed(last: Option<Timestamp>, now: Timestamp, hours: i64) -> (b: bool)
    requires
        now.wf(),
        last matches Some(t) ==> t.wf(),
    ensures
        b == elapsed_at_least(last, now, hours as int),
{
    match last {
        Some(t) => hours_between(now, t) >= hours,
        None => true,
    }
}

/// Once enough time has passed since an instant, it stays so at every later
/// instant.
pub proof fn lemma_elapsed_stays(last: Option<Timestamp>, now: Timestamp, later: Timestamp, hours: int)
    requires
        hours >= 0,
        now.total_nanos() <= later.total_nanos(),
        elapsed_at_least(last, now, hours),
    ensures
        elapsed_at_least(last, later, hours),
{
    if let Some(t) = last {
        let a = now.total_nanos() - t.total_nanos();
        let b = later.total_nanos() - t.total_nanos();
        assert(a <= b);
        if a < 0 {
            // a negative span gives at most zero hours, so `hours` is zero here
            assert(whole_hours_between(now, t) <= 0) by {
                vstd::arithmetic::div_mod::lemma_div_pos_is_pos(-a, 1_000_000_000);
                vstd::arithmetic::div_mod::lemma_div_pos_is_pos((-a) / 1_000_000_000, 3600);
            }
            if b >= 0 {
                vstd::arithmetic::div_mod::lemma_div_pos_is_pos(b, 1_000_000_000);
                vstd::arithmetic::div_mod::lemma_div_pos_is_pos(b / 1_000_000_000, 3600);
            } else {
                vstd::arithmetic::div_mod::lemma_div_is_ordered(-b, -a, 1_000_000_000);
                vstd::arithmetic::div_mod::lemma_div_is_ordered((-b) / 1_000_000_000, (-a) / 1_000_000_000, 3600);
            }
        } else {
            vstd::arithmetic::div_mod::lemma_div_is_ordered(a, b, 1_000_000_000);
            vstd::arithmetic::div_mod::lemma_div_pos_is_pos(a, 1_000_000_000);
            vstd::arithmetic::div_mod::lemma_div_is_ordered(a / 1_000_000_000, b / 1_000_000_000, 3600);
        }
    }
}

/// Name for what `str::parse::<chrono::DateTime<chrono::Utc>>()` gives for a
/// text (chrono's relaxed RFC 3339 grammar), read as seconds and
/// nanoseconds; `None` where chrono refuses the text.
pub uninterp spec fn parsed_utc_datetime(text: Seq<char>) -> Option<Timestamp>;

/// Name for the text that `chrono::DateTime::<Utc>::to_rfc3339` writes for an
/// instant.
pub uninterp spec fn rfc3339_text(t: Timestamp) -> Seq<char>;

/// Calls `str::parse::<chrono::DateTime<chrono::Utc>>` and reads the result
/// through `timestamp()` and `timestamp_subsec_nanos()`. The contract claims
/// only that the outcome is a function of the text.
#[verifier::external_body]
fn parse_utc_datetime(text: &str) -> (r: Option<Timestamp>)
    ensures
        r == parsed_utc_datetime(text@),
{
    match text.parse::<chrono::DateTime<chrono::Utc>>() {
        Ok(dt) => Some(Timestamp { secs: dt.timestamp(), nanos: dt.timestamp_subsec_nanos() }),
        Err(_) => None,
    }
}

/// Calls `chrono::DateTime::from_timestamp` and `to_rfc3339`. The instant is
/// inside chrono's range, so `from_timestamp` gives a value. The text is a
/// function of the instant, and, by chrono's source, parsing it gives the
/// instant back: `to_rfc3339` writes the year (with a sign outside
/// 0000..=9999), month, day, hour, minute, second, every non-zero digit
/// group of the nanoseconds and the offset `+00:00`, and the relaxed RFC 3339
/// parser behind `str::parse::<DateTime<Utc>>` reads each of these fields
/// back, signed years included.
#[verifier::external_body]
fn format_rfc3339(t: Timestamp) -> (r: String)
    requires
        t.wf(),
    ensures
        r@ == rfc3339_text(t),
        parsed_utc_datetime(r@) == Some(t),
{
    chrono::DateTime::from_timestamp(t.secs, t.nanos).unwrap().to_rfc3339()
}

/// A stored instant could not be read back.
#[derive(Clone, Copy, Debug, PartialEq, Eq, Structural)]
pub struct InvalidTimestamp;

/// Reads an instant stored as text: nothing stored gives `Ok(None)`, a
/// text that chrono accepts gives the instant, any other text is an error.
pub fn decode_timestamp(stored: Option<&str>) -> (r: Result<Option<Timestamp>, InvalidTimestamp>)
    ensures
        stored is None ==> r == Ok::<Option<Timestamp>, InvalidTimestamp>(None),
        stored matches Some(s) ==> r == match parsed_utc_datetime(s@) {
            Some(t) => Ok(Some(t)),
            None => Err(InvalidTimestamp),
        },
{
    match stored {
        None => Ok(None),
        Some(s) => match parse_utc_datetime(s) {
            Some(t) => Ok(Some(t)),
            None => Err(InvalidTimestamp),
        },
    }
}

/// The text under which an instant is stored: its RFC 3339 form, which
/// `decode_timestamp` reads back as the same instant.
pub fn encode_timestamp(t: Timestamp) -> (r: String)
    requires
        t.wf(),
    ensures
        r@ == rfc3339_text(t),
        parsed_utc_datetime(r@) == Some(t),
{
    format_rfc3339(t)
}

} // verus!
