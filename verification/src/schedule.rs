use vstd::prelude::*;

verus! {

/// How long to wait before the next check: whole seconds and the nanoseconds
/// beyond them.
#[derive(Debug, Clone, Copy, PartialEq, Eq, Structural)]
pub struct Delay {
    pub secs: u64,
    pub nanos: u32,
}

/// Nanoseconds in a second.
pub const NANOS_PER_SEC: u32 = 1_000_000_000;

/// Seconds to wait when no next check time can be worked out.
pub const FALLBACK_DELAY_SECS: u64 = 600;

/// The length of a delay in nanoseconds.
pub open spec fn delay_nanos(d: Delay) -> int {
    d.secs * 1_000_000_000 + d.nanos
}

/// A delay whose nanoseconds stay below one second.
pub open spec fn delay_well_formed(d: Delay) -> bool {
    d.nanos < 1_000_000_000
}

/// The delay used when the schedule gives no usable next time.
pub open spec fn fallback_delay() -> Delay {
    Delay { secs: FALLBACK_DELAY_SECS, nanos: 0 }
}

/// A point in time as seconds since the Unix epoch and nanoseconds past that
/// second, counted in nanoseconds.
pub open spec fn instant_nanos(t: (i64, u32)) -> int {
    t.0 * 1_000_000_000 + t.1
}

/// The time from `now` until `next`, or `None` where `next` lies before `now`
/// (or so far ahead that its seconds overflow a `u64`).
pub open spec fn spec_delay_between(now: (i64, u32), next: (i64, u32)) -> Option<Delay> {
    let diff = instant_nanos(next) - instant_nanos(now);
    if 0 <= diff && diff / 1_000_000_000 <= u64::MAX {
        Some(Delay { secs: (diff / 1_000_000_000) as u64, nanos: (diff % 1_000_000_000) as u32 })
    } else {
        None
    }
}

/// The time from `now` until `next`, as `(next - now).to_std()` gives it.
pub fn delay_between(now: (i64, u32), next: (i64, u32)) -> (r: Option<Delay>)
    ensures
        r == spec_delay_between(now, next),
        r matches Some(d) ==> delay_well_formed(d) && delay_nanos(d) == instant_nanos(next)
            - instant_nanos(now),
{
    let diff: i128 = (next.0 as i128 - now.0 as i128) * 1_000_000_000i128 + (next.1 as i128
        - now.1 as i128);
    assert(diff == instant_nanos(next) - instant_nanos(now));
    if diff < 0 {
        return None;
    }
    let secs: i128 = diff / 1_000_000_000i128;
    let nanos: i128 = diff % 1_000_000_000i128;
    assert(diff == secs * 1_000_000_000 + nanos && 0 <= nanos < 1_000_000_000) by (nonlinear_arith)
        requires
            diff >= 0,
            secs == diff / 1_000_000_000,
            nanos == diff % 1_000_000_000,
    ;
    if secs > u64::MAX as i128 {
        return None;
    }
    Some(Delay { secs: secs as u64, nanos: nanos as u32 })
}

/// The delay that the next scheduled time gives, with the fallback where the
/// schedule has no next time or that time has already passed.
pub open spec fn spec_delay_until(next: Option<(i64, u32)>, now: (i64, u32)) -> Delay {
    match next {
        None => fallback_delay(),
        Some(t) => match spec_delay_between(now, t) {
            Some(d) => d,
            None => fallback_delay(),
        },
    }
}

/// The delay until the next scheduled time `next`, seen at `now`.
pub fn delay_until(next: Option<(i64, u32)>, now: (i64, u32)) -> (r: Delay)
    ensures
        r == spec_delay_until(next, now),
        delay_well_formed(r),
{
    match next {
        None => Delay { secs: FALLBACK_DELAY_SECS, nanos: 0 },
        Some(t) => match delay_between(now, t) {
            Some(d) => d,
            None => Delay { secs: FALLBACK_DELAY_SECS, nanos: 0 },
        },
    }
}

#[verifier::external_type_specification]
#[verifier::external_body]
pub struct ExCronSchedule(cron::Schedule);

#[verifier::external_type_specification]
#[verifier::external_body]
pub struct ExCronError(cron::error::Error);

/// Whether the `cron` crate accepts `expr` as a schedule expression.
pub uninterp spec fn cron_expression_accepted(expr: Seq<char>) -> bool;

/// `<cron::Schedule as FromStr>::from_str`: the contract claims that whether
/// the expression is accepted depends on its text alone.
#[verifier::external_body]
fn parse_schedule(expr: &str) -> (r: Result<cron::Schedule, cron::error::Error>)
    ensures
        r is Ok <==> cron_expression_accepted(expr@),
{
    <cron::Schedule as std::str::FromStr>::from_str(expr)
}

/// `cron::Schedule::upcoming(chrono::Local).next()`: the first time from now on
/// that the schedule names, as Unix seconds and nanoseconds
/// (`DateTime::timestamp`, `DateTime::timestamp_subsec_nanos`). It depends on
/// the clock; the contract states only chrono's documented bound on the
/// nanoseconds, which leave room for a leap second.
#[verifier::external_body]
fn upcoming_fire_time(schedule: &cron::Schedule) -> (r: Option<(i64, u32)>)
    ensures
        r matches Some(t) ==> t.1 < 2_000_000_000,
{
    match schedule.upcoming(chrono::Local).next() {
        Some(t) => Some((t.timestamp(), t.timestamp_subsec_nanos())),
        None => None,
    }
}

/// `chrono::Local::now()` as Unix seconds and nanoseconds. It depends on the
/// clock; the contract states only chrono's documented bound on the nanoseconds.
#[verifier::external_body]
fn current_time() -> (r: (i64, u32))
    ensures
        r.1 < 2_000_000_000,
{
    let t = chrono::Local::now();
    (t.timestamp(), t.timestamp_subsec_nanos())
}

/// How long to sleep before the next check that the cron expression `expr`
/// schedules: the fallback of ten minutes where the expression is refused, the
/// schedule has no next time, or that time has already passed.
pub fn calculate_next_delay(expr: &str) -> (d: Delay)
    ensures
        !cron_expression_accepted(expr@) ==> d == fallback_delay(),
        delay_well_formed(d),
{
    let schedule = match parse_schedule(expr) {
        Ok(s) => s,
        Err(_) => return Delay { secs: FALLBACK_DELAY_SECS, nanos: 0 },
    };
    match upcoming_fire_time(&schedule) {
        Some(next) => {
            let now = current_time();
            delay_until(Some(next), now)
        },
        None => Delay { secs: FALLBACK_DELAY_SECS, nanos: 0 },
    }
}

} // verus!
