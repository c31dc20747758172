//! Departure-time resolution: picks up to two departures from one
//! direction's payload and converts each into whole minutes from now.
//!
//! The first record is load-bearing: its failure fails the whole call. A
//! second record is a bonus: any failure there is suppressed and the slot
//! is simply omitted.

use vstd::prelude::*;

use crate::ptv;
use crate::response::Departure;

verus! {

/// Whole minutes between two instants given as epoch seconds, truncating
/// toward zero: 190 seconds ahead is 3 minutes, 179 is 2, 5 seconds ago is
/// still 0, a full minute ago is -1.
pub open spec fn spec_minutes_between(ts: int, now: int) -> int {
    if ts >= now {
        (ts - now) / 60
    } else {
        -((now - ts) / 60)
    }
}

/// Computes `spec_minutes_between` on machine integers. The difference of
/// two `i64` instants always fits in `i128`, and the quotient by 60 fits
/// back into `i64`.
pub fn minutes_between(ts: i64, now: i64) -> (m: i64)
    ensures
        m == spec_minutes_between(ts as int, now as int),
{
    if ts >= now {
        let diff: i128 = (ts as i128) - (now as i128);
        let q: i128 = (((diff as u128) / 60u128) as i128);
        q as i64
    } else {
        let diff: i128 = (now as i128) - (ts as i128);
        let q: i128 = (((diff as u128) / 60u128) as i128);
        -(q as i64)
    }
}

/// What parsing an RFC 3339 timestamp yields: the instant's epoch seconds,
/// or the parse error's text. Both are determined by the input alone.
pub uninterp spec fn spec_parse_rfc3339(s: Seq<char>) -> Result<int, Seq<char>>;

/// Relies on chrono::DateTime::parse_from_rfc3339 (and DateTime::timestamp
/// to read the result as epoch seconds): parsing neither panics nor depends
/// on anything but the input string.
#[verifier::external_body]
fn parse_rfc3339_epoch(s: &str) -> (r: Result<i64, String>)
    ensures
        match r {
            Ok(ts) => spec_parse_rfc3339(s@) == Ok::<int, Seq<char>>(ts as int),
            Err(e) => spec_parse_rfc3339(s@) == Err::<int, Seq<char>>(e@),
        },
{
    match chrono::DateTime::parse_from_rfc3339(s) {
        Ok(dt) => Ok(dt.timestamp()),
        Err(e) => Err(e.to_string()),
    }
}

/// Why a direction's departures could not be resolved.
#[derive(Debug, Clone, PartialEq)]
pub enum ResolveError {
    /// The payload's departure list was empty.
    NoDeparturesFound,
    /// The load-bearing first record carries no timestamp at all.
    MissingTimestamp,
    /// The first record's chosen timestamp did not parse; the field holds
    /// the parser's account.
    TimestampParse(String),
}

impl ResolveError {
    /// The message surfaced for this failure.
    pub open spec fn spec_message(self) -> Seq<char> {
        match self {
            ResolveError::NoDeparturesFound => "no departures found"@,
            ResolveError::MissingTimestamp => "could not find timestamps from departure"@,
            ResolveError::TimestampParse(detail) => detail@,
        }
    }

    /// Renders the failure as its message text.
    pub fn message(&self) -> (r: String)
        ensures
            r@ == self.spec_message(),
    {
        match self {
            ResolveError::NoDeparturesFound => String::from_str("no departures found"),
            ResolveError::MissingTimestamp => String::from_str(
                "could not find timestamps from departure",
            ),
            ResolveError::TimestampParse(detail) => detail.clone(),
        }
    }
}

/// The timestamp a record is resolved from: the estimated one when present,
/// else the scheduled one, else nothing.
pub open spec fn spec_chosen_timestamp(d: ptv::Departure) -> Option<Seq<char>> {
    match d.estimated_departure_utc {
        Some(t) => Some(t@),
        None => match d.scheduled_departure_utc {
            Some(t) => Some(t@),
            None => None,
        },
    }
}

/// The minutes a single record resolves to, or `None` when it has no
/// timestamp or its timestamp does not parse.
pub open spec fn spec_minutes_of(d: ptv::Departure, now: int) -> Option<int> {
    match spec_chosen_timestamp(d) {
        None => None,
        Some(t) => match spec_parse_rfc3339(t) {
            Err(_) => None,
            Ok(ts) => Some(spec_minutes_between(ts, now)),
        },
    }
}

/// What resolving a direction's departure list comes to, message-level:
/// the minute values, or the failure text that is surfaced.
pub open spec fn spec_resolver_outcome(deps: Seq<ptv::Departure>, now: int) -> Result<
    Seq<int>,
    Seq<char>,
> {
    if deps.len() == 0 {
        Err("no departures found"@)
    } else {
        match spec_chosen_timestamp(deps[0]) {
            None => Err("could not find timestamps from departure"@),
            Some(t) => match spec_parse_rfc3339(t) {
                Err(detail) => Err(detail),
                Ok(ts) => Ok(
                    {
                        let m1 = spec_minutes_between(ts, now);
                        if deps.len() >= 2 && spec_minutes_of(deps[1], now) is Some {
                            seq![m1, spec_minutes_of(deps[1], now)->0]
                        } else {
                            seq![m1]
                        }
                    },
                ),
            },
        }
    }
}

/// A direction that resolves at all carries one or two minute values,
/// never zero and never more than two.
pub proof fn lemma_resolved_length(deps: Seq<ptv::Departure>, now: int)
    ensures
        spec_resolver_outcome(deps, now) matches Ok(ms) ==> 1 <= ms.len() <= 2,
{
}

/// Resolves one record into minutes from `now`, preferring the estimated
/// timestamp over the scheduled one and failing when neither is present or
/// the chosen one does not parse.
pub fn get_minutes_from_departure(departure: &ptv::Departure, now: i64) -> (r: Result<
    i64,
    ResolveError,
>)
    ensures
        match spec_chosen_timestamp(*departure) {
            None => r == Err::<i64, ResolveError>(ResolveError::MissingTimestamp),
            Some(t) => match spec_parse_rfc3339(t) {
                Err(detail) => (r matches Err(e) && (e matches ResolveError::TimestampParse(d)
                    && d@ == detail)),
                Ok(ts) => (r matches Ok(m) && m == spec_minutes_between(ts, now as int)),
            },
        },
{
    let arrival_ts: String = match &departure.estimated_departure_utc {
        Some(t) => t.clone(),
        None => match &departure.scheduled_departure_utc {
            Some(t) => t.clone(),
            None => {
                return Err(ResolveError::MissingTimestamp);
            },
        },
    };
    match parse_rfc3339_epoch(arrival_ts.as_str()) {
        Ok(ts) => Ok(minutes_between(ts, now)),
        Err(e) => Err(ResolveError::TimestampParse(e)),
    }
}

/// Resolves a direction's payload into one or two minute values, soonest
/// first as upstream ordered them: the first record's failure is fatal, a
/// second record's failure only suppresses the second slot.
pub fn get_departure_minutes_from_response(
    response: ptv::ViewDeparturesResponse,
    now: i64,
) -> (r: Result<Vec<Departure>, ResolveError>)
    ensures
        ({
            let deps = response.departures@;
            if deps.len() == 0 {
                r == Err::<Vec<Departure>, ResolveError>(ResolveError::NoDeparturesFound)
            } else {
                match spec_chosen_timestamp(deps[0]) {
                    None => r == Err::<Vec<Departure>, ResolveError>(ResolveError::MissingTimestamp),
                    Some(t) => match spec_parse_rfc3339(t) {
                        Err(detail) => (r matches Err(e) && (e matches ResolveError::TimestampParse(
                            d,
                        ) && d@ == detail)),
                        Ok(ts) => (r matches Ok(v) && ({
                            let m1 = spec_minutes_between(ts, now as int);
                            if deps.len() >= 2 && spec_minutes_of(deps[1], now as int) is Some {
                                v@.len() == 2 && v@[0].minutes == m1 && v@[1].minutes
                                    == spec_minutes_of(deps[1], now as int)->0
                            } else {
                                v@.len() == 1 && v@[0].minutes == m1
                            }
                        })),
                    },
                }
            }
        }),
{
    if response.departures.len() == 0 {
        return Err(ResolveError::NoDeparturesFound);
    }
    let first_time = match get_minutes_from_departure(&response.departures[0], now) {
        Ok(m) => m,
        Err(e) => {
            return Err(e);
        },
    };
    let second_time: Option<i64> = if response.departures.len() >= 2 {
        match get_minutes_from_departure(&response.departures[1], now) {
            Ok(m) => Some(m),
            Err(_) => None,
        }
    } else {
        None
    };
    let mut minutes: Vec<Departure> = Vec::new();
    minutes.push(Departure { minutes: first_time });
    if let Some(m) = second_time {
        minutes.push(Departure { minutes: m });
    }
    Ok(minutes)
}

} // verus!
