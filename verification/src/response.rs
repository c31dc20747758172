//! The final response: success payload or structured, status-coded failure,
//! and the pipeline around it — planning the two signed requests and
//! evaluating the two dispatch outcomes.

use vstd::prelude::*;
use vstd::string::StringExecFns;
use vstd::utf8::encode_utf8;

use crate::numfmt::{spec_dec, u64_to_string};
use crate::ptv;
use crate::ptv::{create_view_departures_request, spec_signed_url};
use crate::resolve::{
    get_departure_minutes_from_response, spec_resolver_outcome,
};
use crate::settings::Settings;
use crate::stations::{get_stop_id_from_name, spec_stop_id};

verus! {

/// One resolved departure: whole minutes from now, negative once departed.
#[derive(Debug, Clone, Copy, PartialEq, Eq, Structural)]
pub struct Departure {
    pub minutes: i64,
}

/// The complete result of one invocation: a status code and a body whose
/// variant agrees with it (2xx exactly for success).
#[derive(Debug, Clone, PartialEq)]
pub struct SuccessResponse {
    pub status_code: u16,
    pub body: Body,
}

/// Either both directions' resolved departures, or one failure's message.
#[derive(Debug, Clone, PartialEq)]
pub enum Body {
    Success(SuccessBody),
    Fail(ErrorBody),
}

/// Resolved departures for both directions, soonest first in each.
#[derive(Debug, Clone, PartialEq)]
pub struct SuccessBody {
    pub to_city_departures: Vec<Departure>,
    pub from_city_departures: Vec<Departure>,
}

/// A human-readable account of the failure.
#[derive(Debug, Clone, PartialEq)]
pub struct ErrorBody {
    pub error_message: String,
}

/// `r` is a failure response with this status code and message.
pub open spec fn spec_failure_response(r: SuccessResponse, status: int, message: Seq<char>) -> bool {
    &&& r.status_code == status
    &&& r.body matches Body::Fail(eb) && eb.error_message@ == message
}

/// The minute values of `v`, in order, are exactly `ms`.
pub open spec fn spec_minutes_list(v: Seq<Departure>, ms: Seq<int>) -> bool {
    &&& v.len() == ms.len()
    &&& forall|i: int| 0 <= i < ms.len() ==> v[i].minutes == ms[i]
}

/// Platform number of the direction toward the city center.
pub const PLATFORM_TO_CITY: u8 = 1;

/// Platform number of the direction away from the city center.
pub const PLATFORM_FROM_CITY: u8 = 2;

/// What one direction's dispatch came to, as the library receives it from
/// the transport: the request never went out or failed in flight, or a
/// response arrived with its status and — attempted regardless of the
/// status — the decoded payload or the decoder's account. The body is only
/// consulted for a 2xx status.
#[derive(Debug, PartialEq)]
pub enum DispatchOutcome {
    TransportError(String),
    Response { status: u16, body: Result<ptv::ViewDeparturesResponse, String> },
}

/// A status in the 2xx range.
pub open spec fn spec_is_success_status(status: int) -> bool {
    200 <= status < 300
}

/// What evaluating one direction's outcome comes to: the resolved minute
/// values, or a status code with the message surfaced for the failure.
pub open spec fn spec_evaluate(o: DispatchOutcome, now: int) -> Result<Seq<int>, (int, Seq<char>)> {
    match o {
        DispatchOutcome::TransportError(detail) => Err(
            (500int, "failed to send request: "@ + detail@),
        ),
        DispatchOutcome::Response { status, body } => {
            if !spec_is_success_status(status as int) {
                Err((424int, "error response received from ptv. code: "@ + spec_dec(status as nat)))
            } else {
                match body {
                    Err(detail) => Err((500int, "failed to read json response: "@ + detail@)),
                    Ok(payload) => match spec_resolver_outcome(payload.departures@, now) {
                        Err(msg) => Err(
                            (500int, "could not get departure minutes from request. "@ + msg),
                        ),
                        Ok(ms) => Ok(ms),
                    },
                }
            }
        },
    }
}

/// Wraps a message as the failure response carrying this status code.
fn fail_response(status: u16, message: String) -> (r: SuccessResponse)
    ensures
        spec_failure_response(r, status as int, message@),
{
    SuccessResponse { status_code: status, body: Body::Fail(ErrorBody { error_message: message }) }
}

/// Evaluates one direction's dispatch outcome: a transport failure maps to
/// 500, a non-2xx status to 424 (the body is then ignored), a decode
/// failure to 500, and a 2xx payload is resolved into minutes, a
/// resolution failure again mapping to 500.
pub fn evaluate_dispatch(outcome: DispatchOutcome, now: i64) -> (r: Result<
    Vec<Departure>,
    SuccessResponse,
>)
    ensures
        match spec_evaluate(outcome, now as int) {
            Ok(ms) => (r matches Ok(v) && spec_minutes_list(v@, ms)),
            Err((status, msg)) => (r matches Err(resp) && spec_failure_response(resp, status, msg)),
        },
{
    match outcome {
        DispatchOutcome::TransportError(detail) => {
            let mut msg = String::from_str("failed to send request: ");
            msg.append(detail.as_str());
            Err(fail_response(500, msg))
        },
        DispatchOutcome::Response { status, body } => {
            if !(200 <= status && status < 300) {
                let mut msg = String::from_str("error response received from ptv. code: ");
                msg.append(u64_to_string(status as u64).as_str());
                Err(fail_response(424, msg))
            } else {
                match body {
                    Err(detail) => {
                        let mut msg = String::from_str("failed to read json response: ");
                        msg.append(detail.as_str());
                        Err(fail_response(500, msg))
                    },
                    Ok(payload) => match get_departure_minutes_from_response(payload, now) {
                        Ok(v) => Ok(v),
                        Err(e) => {
                            let mut msg = String::from_str(
                                "could not get departure minutes from request. ",
                            );
                            msg.append(e.message().as_str());
                            Err(fail_response(500, msg))
                        },
                    },
                }
            }
        },
    }
}

/// `r` is the response assembled from the two directions' outcomes at the
/// instant `now`: the first failure observed wins (the direction toward
/// the city is consulted first), and only when both directions resolve is
/// the response a 200 carrying both minute lists.
pub open spec fn spec_assembled(
    r: SuccessResponse,
    to: DispatchOutcome,
    from: DispatchOutcome,
    now: int,
) -> bool {
    match spec_evaluate(to, now) {
        Err((status, msg)) => spec_failure_response(r, status, msg),
        Ok(a) => match spec_evaluate(from, now) {
            Err((status, msg)) => spec_failure_response(r, status, msg),
            Ok(b) => {
                &&& r.status_code == 200
                &&& r.body matches Body::Success(sb) && spec_minutes_list(sb.to_city_departures@, a)
                    && spec_minutes_list(sb.from_city_departures@, b)
            },
        },
    }
}

/// An assembled response's status code agrees with its body: it is in the
/// 2xx range exactly when the body is the success variant.
pub proof fn lemma_status_agrees_with_body(
    r: SuccessResponse,
    to: DispatchOutcome,
    from: DispatchOutcome,
    now: int,
)
    requires
        spec_assembled(r, to, from, now),
    ensures
        spec_is_success_status(r.status_code as int) <==> r.body is Success,
{
}

/// An upstream reply outside the 2xx range on either direction, while the
/// other direction's outcome evaluates to success, forces the assembled
/// response to status 424 with the message naming the upstream code — the
/// successful direction's departures are discarded, never mixed in, since
/// the body is the failure variant.
pub proof fn lemma_upstream_failure_is_424(
    r: SuccessResponse,
    to: DispatchOutcome,
    from: DispatchOutcome,
    now: int,
    status: u16,
)
    requires
        spec_assembled(r, to, from, now),
        !spec_is_success_status(status as int),
        (to matches DispatchOutcome::Response { status: s, body: _ } && s == status
            && spec_evaluate(from, now) is Ok) || (from matches DispatchOutcome::Response {
            status: s,
            body: _,
        } && s == status && spec_evaluate(to, now) is Ok),
    ensures
        r.status_code == 424,
        r.body matches Body::Fail(eb) && eb.error_message@
            == "error response received from ptv. code: "@ + spec_dec(status as nat),
{
}

/// Combines the two directions' outcomes, evaluated at `now`, into the
/// final response: any failure short-circuits with its status code and
/// message, success carries both minute lists under a 200.
pub fn assemble_response(to: DispatchOutcome, from: DispatchOutcome, now: i64) -> (r:
    SuccessResponse)
    ensures
        spec_assembled(r, to, from, now as int),
{
    let to_city_departures = match evaluate_dispatch(to, now) {
        Ok(v) => v,
        Err(resp) => {
            return resp;
        },
    };
    let from_city_departures = match evaluate_dispatch(from, now) {
        Ok(v) => v,
        Err(resp) => {
            return resp;
        },
    };
    SuccessResponse {
        status_code: 200,
        body: Body::Success(SuccessBody { to_city_departures, from_city_departures }),
    }
}

/// Relies on std::time::SystemTime::now: the current instant, read from
/// the system clock, as epoch seconds — negative when the clock reads
/// before the Unix epoch. The read is total: both arms convert a
/// duration, through i128 so that no cast or negation can abort.
/// Nothing is assumed of the value.
#[verifier::external_body]
fn current_epoch_seconds() -> i64 {
    match std::time::SystemTime::now().duration_since(std::time::UNIX_EPOCH) {
        Ok(since) => ((since.as_secs() as i128) as i64),
        Err(before) => ((-(before.duration().as_secs() as i128)) as i64),
    }
}

/// Combines the two directions' outcomes into the final response,
/// evaluated at the instant the system clock reads now: whatever that
/// instant is, the response is the assembly of the two outcomes at it.
pub fn respond(to: DispatchOutcome, from: DispatchOutcome) -> (r: SuccessResponse)
    ensures
        exists|now: int| spec_assembled(r, to, from, now),
{
    let now = current_epoch_seconds();
    assemble_response(to, from, now)
}

/// The two signed URLs of one invocation, one per direction.
#[derive(Debug, Clone, PartialEq)]
pub struct RequestPlan {
    pub to_city_url: String,
    pub from_city_url: String,
}

/// Plans the two authenticated requests for a station name: no name maps
/// to 400, an unknown name to 404 naming the station, and a known one to
/// one signed URL per platform.
pub fn plan_requests(station: Option<&str>, settings: &Settings) -> (r: Result<
    RequestPlan,
    SuccessResponse,
>)
    ensures
        match station {
            None => (r matches Err(resp) && spec_failure_response(
                resp,
                400,
                "no station provided in request"@,
            )),
            Some(name) => match spec_stop_id(name@) {
                None => (r matches Err(resp) && spec_failure_response(
                    resp,
                    404,
                    "station: "@ + name@ + " is not found"@,
                )),
                Some(stop_id) => (r matches Ok(plan) && plan.to_city_url@ == spec_signed_url(
                    encode_utf8(settings.api_key@),
                    settings.developer_id,
                    PLATFORM_TO_CITY,
                    stop_id,
                    settings.uri@,
                ) && plan.from_city_url@ == spec_signed_url(
                    encode_utf8(settings.api_key@),
                    settings.developer_id,
                    PLATFORM_FROM_CITY,
                    stop_id,
                    settings.uri@,
                )),
            },
        },
{
    let name = match station {
        Some(name) => name,
        None => {
            return Err(fail_response(400, String::from_str("no station provided in request")));
        },
    };
    let stop_id = match get_stop_id_from_name(name) {
        Some(stop_id) => stop_id,
        None => {
            let mut msg = String::from_str("station: ");
            msg.append(name);
            msg.append(" is not found");
            return Err(fail_response(404, msg));
        },
    };
    let to_city_url = create_view_departures_request(
        settings.api_key.as_str().as_bytes(),
        settings.developer_id,
        PLATFORM_TO_CITY,
        stop_id,
        settings.uri.clone(),
    );
    let from_city_url = create_view_departures_request(
        settings.api_key.as_str().as_bytes(),
        settings.developer_id,
        PLATFORM_FROM_CITY,
        stop_id,
        settings.uri.clone(),
    );
    Ok(RequestPlan { to_city_url, from_city_url })
}

/// Maps a failure to build one direction's request into the 500 response
/// the invocation surfaces for it.
pub fn construction_error_response(to_city: bool, detail: &str) -> (r: SuccessResponse)
    ensures
        spec_failure_response(
            r,
            500,
            if to_city {
                "could not construct request to city. "@ + detail@
            } else {
                "could not construct request from city. "@ + detail@
            },
        ),
{
    let mut msg = if to_city {
        String::from_str("could not construct request to city. ")
    } else {
        String::from_str("could not construct request from city. ")
    };
    msg.append(detail);
    fail_response(500, msg)
}

} // verus!
