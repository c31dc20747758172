//! The upstream departures API: response records and signed request URLs.

use vstd::prelude::*;
use vstd::string::StringExecFns;
use vstd::utf8::encode_utf8;

use crate::numfmt::{hex_of_bytes, spec_dec, spec_hex_bytes, u64_to_string};

verus! {

/// Route type the upstream API uses for trains.
pub const ROUTE_TYPE_TRAIN: u8 = 0;

/// Only the next two departures are ever requested.
pub const MAX_RESULTS: u8 = 2;

/// One departure record as upstream reports it. Either timestamp may be
/// absent; a record with both absent is valid but unusable.
#[derive(Debug, Clone, PartialEq)]
pub struct Departure {
    pub at_platform: bool,
    pub scheduled_departure_utc: Option<String>,
    pub estimated_departure_utc: Option<String>,
}

impl Default for Departure {
    /// A record with no timestamps, not at a platform.
    fn default() -> (d: Self)
        ensures
            d.at_platform == false,
            d.scheduled_departure_utc is None,
            d.estimated_departure_utc is None,
    {
        Departure { at_platform: false, scheduled_departure_utc: None, estimated_departure_utc: None }
    }
}

/// One direction's response: departure records, soonest first as upstream
/// orders them.
#[derive(Debug, Clone, PartialEq)]
pub struct ViewDeparturesResponse {
    pub departures: Vec<Departure>,
}

impl Default for ViewDeparturesResponse {
    /// A response with no departures.
    fn default() -> (r: Self)
        ensures
            r.departures@.len() == 0,
    {
        ViewDeparturesResponse { departures: Vec::new() }
    }
}

/// The HMAC-SHA1 digest of `message` under `key`: a 20-byte value determined
/// by the two arguments alone.
pub uninterp spec fn spec_hmac_sha1(key: Seq<u8>, message: Seq<u8>) -> Seq<u8>;

/// Relies on hmac_sha1::hmac_sha1: the HMAC-SHA1 digest of the message under
/// the key, 20 bytes, a pure function of its two arguments; keys of any
/// length are accepted.
#[verifier::external_body]
fn hmac_sha1_digest(key: &[u8], message: &[u8]) -> (r: Vec<u8>)
    ensures
        r@ == spec_hmac_sha1(key@, message@),
        r@.len() == 20,
{
    hmac_sha1::hmac_sha1(key, message).to_vec()
}

/// The canonical query path for one (stop, platform) departures query.
pub open spec fn spec_departures_path(stop_id: u32, platform_id: u8, developer_id: u32) -> Seq<char> {
    "/v3/departures/route_type/"@ + spec_dec(ROUTE_TYPE_TRAIN as nat) + "/stop/"@ + spec_dec(
        stop_id as nat,
    ) + "?platform_numbers="@ + spec_dec(platform_id as nat) + "&max_results="@ + spec_dec(
        MAX_RESULTS as nat,
    ) + "&include_cancelled=false&devid="@ + spec_dec(developer_id as nat)
}

/// The fully signed URL: base URI, canonical path, and the hex-rendered
/// HMAC-SHA1 signature of the path's UTF-8 bytes under `key`.
pub open spec fn spec_signed_url(
    key: Seq<u8>,
    developer_id: u32,
    platform_id: u8,
    stop_id: u32,
    uri: Seq<char>,
) -> Seq<char> {
    let path = spec_departures_path(stop_id, platform_id, developer_id);
    uri + path + "&signature="@ + spec_hex_bytes(spec_hmac_sha1(key, encode_utf8(path)))
}

/// Builds the canonical query path for one (stop, platform) query.
fn departures_path(stop_id: u32, platform_id: u8, developer_id: u32) -> (path: String)
    ensures
        path@ == spec_departures_path(stop_id, platform_id, developer_id),
{
    let mut path = String::from_str("/v3/departures/route_type/");
    path.append(u64_to_string(ROUTE_TYPE_TRAIN as u64).as_str());
    path.append("/stop/");
    path.append(u64_to_string(stop_id as u64).as_str());
    path.append("?platform_numbers=");
    path.append(u64_to_string(platform_id as u64).as_str());
    path.append("&max_results=");
    path.append(u64_to_string(MAX_RESULTS as u64).as_str());
    path.append("&include_cancelled=false&devid=");
    path.append(u64_to_string(developer_id as u64).as_str());
    proof {
        assert(path@ =~= spec_departures_path(stop_id, platform_id, developer_id));
    }
    path
}

/// Builds the authenticated departures URL for one (stop, platform) query:
/// the canonical path under the base URI, signed with HMAC-SHA1 over the
/// path's UTF-8 bytes and the signature appended as a query parameter.
/// Identical inputs always yield the identical URL.
pub fn create_view_departures_request(
    api_key: &[u8],
    developer_id: u32,
    platform_id: u8,
    stop_id: u32,
    uri: String,
) -> (url: String)
    ensures
        url@ == spec_signed_url(api_key@, developer_id, platform_id, stop_id, uri@),
{
    let path = departures_path(stop_id, platform_id, developer_id);
    let signature_bytes = hmac_sha1_digest(api_key, path.as_str().as_bytes());
    let signature = hex_of_bytes(signature_bytes.as_slice());
    let mut url = String::new();
    url.append(uri.as_str());
    url.append(path.as_str());
    url.append("&signature=");
    url.append(signature.as_str());
    proof {
        assert(url@ =~= spec_signed_url(api_key@, developer_id, platform_id, stop_id, uri@));
    }
    url
}

/// Signing is deterministic: the signed URL is a function of the key,
/// developer id, platform, stop and base URI alone, so equal inputs always
/// yield the byte-identical URL.
pub proof fn lemma_signing_deterministic(
    key1: Seq<u8>,
    key2: Seq<u8>,
    developer_id1: u32,
    developer_id2: u32,
    platform_id1: u8,
    platform_id2: u8,
    stop_id1: u32,
    stop_id2: u32,
    uri1: Seq<char>,
    uri2: Seq<char>,
)
    requires
        key1 == key2,
        developer_id1 == developer_id2,
        platform_id1 == platform_id2,
        stop_id1 == stop_id2,
        uri1 == uri2,
    ensures
        spec_signed_url(key1, developer_id1, platform_id1, stop_id1, uri1) == spec_signed_url(
            key2,
            developer_id2,
            platform_id2,
            stop_id2,
            uri2,
        ),
{
}

} // verus!
