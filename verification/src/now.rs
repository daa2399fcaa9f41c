//! Time utility: wall-clock sampling and conversion between date
//! strings, epoch milliseconds and nanoseconds.

use vstd::prelude::*;
use vstd::arithmetic::div_mod::lemma_fundamental_div_mod;
use vstd::arithmetic::mul::lemma_mul_inequality;
use crate::errors::AppErrors;
use crate::types::EpochMillis;
use crate::utils::str_eq;

verus! {

/// A point in time, held as nanoseconds since the Unix epoch.
#[derive(Debug, Clone, Copy, PartialEq, Eq, Structural)]
pub struct Now {
    nanosecs: u64,
}

/// What the date parser computes for a year-month-day string: the epoch
/// milliseconds of that date at 13:00:00 UTC, or nothing when the
/// string does not parse. A function of the characters alone.
pub uninterp spec fn epoch_millis_of_date(s: Seq<char>) -> Option<i64>;

/// Relies on chrono's `NaiveDate::parse_from_str` with the
/// year-month-day format, combined by `and_hms_milli_opt(13, 0, 0, 0)`
/// and read out with `DateTime::<Utc>::timestamp_millis`: the outcome
/// is a function of the input characters alone.
#[verifier::external_body]
fn parse_date_epoch_millis(datetime: &str) -> (r: Option<i64>)
    ensures
        r == epoch_millis_of_date(datetime@),
{
    match chrono::NaiveDate::parse_from_str(datetime, "%Y-%m-%d") {
        Ok(date) => match date.and_hms_milli_opt(13, 0, 0, 0) {
            Some(dt) => Some(dt.and_utc().timestamp_millis()),
            None => None,
        },
        Err(_) => None,
    }
}

/// Relies on `std::time::SystemTime::now`: nothing is promised of the
/// sampled instant. A clock before the epoch reads as zero.
#[verifier::external_body]
fn system_nanos_since_epoch() -> u64 {
    match std::time::SystemTime::now().duration_since(std::time::UNIX_EPOCH) {
        Ok(d) => d.as_nanos() as u64,
        Err(_) => 0,
    }
}

proof fn lemma_millis_fit_in_nanos(v: u64)
    ensures
        v <= u64::MAX / 1_000_000 <==> v * 1_000_000 <= u64::MAX,
{
    let q = u64::MAX as int / 1_000_000;
    lemma_fundamental_div_mod(u64::MAX as int, 1_000_000);
    if v <= q {
        lemma_mul_inequality(v as int, q, 1_000_000);
    }
    if v * 1_000_000 <= u64::MAX {
        if v > q {
            lemma_mul_inequality(q + 1, v as int, 1_000_000);
        }
    }
}

impl Now {
    /// The nanoseconds this instant stands for.
    pub closed spec fn spec_nanos(&self) -> u64 {
        self.nanosecs
    }

    /// Samples the wall clock. Nothing is known of the value sampled.
    pub fn new() -> Now {
        Now { nanosecs: system_nanos_since_epoch() }
    }

    pub fn new_from_epoch_millis(epoch_millis: EpochMillis) -> (r: Now)
        requires
            epoch_millis * 1_000_000 <= u64::MAX,
        ensures
            r.spec_nanos() == epoch_millis * 1_000_000,
    {
        Now { nanosecs: epoch_millis * 1_000_000 }
    }

    /// Converts a date string to the instant at 13:00 UTC of that date
    /// (a fixed convention). Only the year-month-day format is
    /// understood; a date before the epoch or too far in the future to
    /// fit the nanosecond clock is rejected as malformed.
    pub fn new_from_datetime_str(datetime: &str, format: &str) -> (r: Result<Now, AppErrors>)
        ensures
            format@ != "%Y-%m-%d"@ ==> r == Err::<Now, AppErrors>(AppErrors::UnsupportedDateFormat),
            format@ == "%Y-%m-%d"@ ==> match epoch_millis_of_date(datetime@) {
                Some(ms) => {
                    if 0 <= ms && ms * 1_000_000 <= u64::MAX {
                        r matches Ok(now) && now.spec_nanos() == ms * 1_000_000
                    } else {
                        r == Err::<Now, AppErrors>(AppErrors::MalformedDate)
                    }
                },
                None => r == Err::<Now, AppErrors>(AppErrors::MalformedDate),
            },
    {
        if !str_eq(format, "%Y-%m-%d") {
            return Err(AppErrors::UnsupportedDateFormat);
        }
        match parse_date_epoch_millis(datetime) {
            None => Err(AppErrors::MalformedDate),
            Some(ms) => {
                if ms < 0 {
                    return Err(AppErrors::MalformedDate);
                }
                let msu = ms as u64;
                proof {
                    lemma_millis_fit_in_nanos(msu);
                }
                if msu > u64::MAX / 1_000_000 {
                    return Err(AppErrors::MalformedDate);
                }
                Ok(Now::new_from_epoch_millis(msu))
            },
        }
    }

    /// Samples the wall clock and returns how many milliseconds have
    /// passed since the given instant, or nothing when the sampled
    /// clock reads earlier than it. Nothing is known of the sample.
    pub fn get_millis_since(epoch_millis: EpochMillis) -> Option<EpochMillis> {
        let now_millis = Now::new().to_epoch_millis();
        if now_millis >= epoch_millis {
            Some(now_millis - epoch_millis)
        } else {
            None
        }
    }

    /// The milliseconds elapsed from a settlement instant to `now`; a
    /// settlement in the future of `now` is reported, never clamped.
    pub fn millis_between(now_millis: EpochMillis, settled_at: EpochMillis) -> (r: Result<
        EpochMillis,
        AppErrors,
    >)
        ensures
            now_millis >= settled_at ==> r == Ok::<EpochMillis, AppErrors>(
                (now_millis - settled_at) as EpochMillis,
            ),
            now_millis < settled_at ==> r == Err::<EpochMillis, AppErrors>(
                AppErrors::FutureSettlement,
            ),
    {
        if now_millis >= settled_at {
            Ok(now_millis - settled_at)
        } else {
            Err(AppErrors::FutureSettlement)
        }
    }

    pub fn to_epoch_millis(&self) -> (r: EpochMillis)
        ensures
            r == self.spec_nanos() / 1_000_000,
    {
        self.nanosecs / 1_000_000
    }

    pub fn to_nanos(&self) -> (r: u64)
        ensures
            r == self.spec_nanos(),
    {
        self.nanosecs
    }

    pub fn increment_min(&self, min: u64) -> (r: Now)
        requires
            self.spec_nanos() + min * 60_000_000_000 <= u64::MAX,
        ensures
            r.spec_nanos() == self.spec_nanos() + min * 60_000_000_000,
    {
        Now { nanosecs: self.nanosecs + min * 60 * 1_000_000_000 }
    }

    pub fn increment_days(&self, days: u64) -> (r: Now)
        requires
            self.spec_nanos() + days * 86_400_000_000_000 <= u64::MAX,
        ensures
            r.spec_nanos() == self.spec_nanos() + days * 86_400_000_000_000,
    {
        Now { nanosecs: self.nanosecs + days * 24 * 60 * 60 * 1_000_000_000 }
    }

    pub fn reduce_min(&self, min: u64) -> (r: Now)
        requires
            min * 60_000_000_000 <= self.spec_nanos(),
        ensures
            r.spec_nanos() == self.spec_nanos() - min * 60_000_000_000,
    {
        Now { nanosecs: self.nanosecs - min * 60 * 1_000_000_000 }
    }
}

} // verus!
