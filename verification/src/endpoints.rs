use vstd::prelude::*;
use vstd::string::*;
use crate::codec::{
    auth_header_vec, build_url, bytes_range, decode_failure, lemma_first_match_found,
    spec_auth_headers, spec_failure, valid_base,
};
use crate::error::{Error, ErrorModel};
use crate::operation::Operation;
use crate::parse::{first_match_from, parse_number_at, spec_number_at};
use crate::wire::{Method, ReqModel, RespModel, WireRequest, WireResponse};

verus! {

/// Whether the status code counts as success for response decoding.
pub open spec fn spec_is_success(status: u16) -> bool {
    200 <= status < 300
}

/// The bytes of the signed one-time-key count field's key, quote to colon,
/// in the compact form servers send it.
pub open spec fn otk_count_key() -> Seq<u8> {
    seq![
        34u8,
        115u8,
        105u8,
        103u8,
        110u8,
        101u8,
        100u8,
        95u8,
        99u8,
        117u8,
        114u8,
        118u8,
        101u8,
        50u8,
        53u8,
        53u8,
        49u8,
        57u8,
        34u8,
        58u8,
    ]
}

/// Builds [`otk_count_key`] as a byte vector.
fn otk_count_key_vec() -> (r: Vec<u8>)
    ensures
        r@ == otk_count_key(),
{
    let mut p: Vec<u8> = Vec::new();
    p.push(34);
    p.push(115);
    p.push(105);
    p.push(103);
    p.push(110);
    p.push(101);
    p.push(100);
    p.push(95);
    p.push(99);
    p.push(117);
    p.push(114);
    p.push(118);
    p.push(101);
    p.push(50);
    p.push(53);
    p.push(53);
    p.push(49);
    p.push(57);
    p.push(34);
    p.push(58);
    proof {
        assert(p@ =~= otk_count_key());
    }
    p
}

/// The signed one-time-key count a key-upload success body reports: zero
/// when the field is absent, the decimal number following the field's key
/// when present, and nothing when that number is missing or too long to
/// carry.
pub open spec fn spec_otk_count(body: Seq<u8>) -> Option<nat> {
    match first_match_from(body, otk_count_key(), 0) {
        None => Some(0),
        Some(i) => spec_number_at(body, i + otk_count_key().len()),
    }
}

/// Reads the signed one-time-key count out of a key-upload success body,
/// exactly as [`spec_otk_count`] describes it.
fn extract_otk_count(body: &[u8]) -> (r: Option<u64>)
    ensures
        match r {
            Some(n) => spec_otk_count(body@) == Some(n as nat),
            None => spec_otk_count(body@) is None,
        },
{
    let body_len: usize = body.len();
    let key = otk_count_key_vec();
    match crate::parse::find_pattern(body, key.as_slice()) {
        None => Some(0),
        Some(i) => {
            proof {
                lemma_first_match_found(body@, otk_count_key(), 0, i as int);
                assert(body@.len() == body_len as int);
            }
            let start: usize = i + key.len();
            parse_number_at(body, start)
        },
    }
}

/// A request to publish the device's identity and one-time keys.  The key
/// payload itself is produced by the operation's own wire format, which this
/// layer carries opaquely.
#[derive(Debug, Clone)]
pub struct KeysUploadRequest {
    /// The encoded key payload.
    pub body: Vec<u8>,
}

/// The decoded success response of a key upload: how many signed one-time
/// keys the server now holds.
#[derive(Debug, Clone, Copy, PartialEq, Eq, Structural)]
pub struct KeysUploadResponse {
    /// The server's count of remaining signed one-time keys.
    pub one_time_key_count: u64,
}

impl View for KeysUploadResponse {
    type V = KeysUploadResponse;

    open spec fn view(&self) -> KeysUploadResponse {
        *self
    }
}

/// The path of the key-upload endpoint.
pub open spec fn keys_upload_path() -> Seq<char> {
    "/_matrix/client/r0/keys/upload"@
}

impl Operation for KeysUploadRequest {
    type Response = KeysUploadResponse;

    open spec fn spec_requires_auth() -> bool {
        true
    }

    fn requires_auth() -> bool {
        true
    }

    open spec fn spec_request(self, base: Seq<char>, token: Option<Seq<char>>) -> Option<
        ReqModel,
    > {
        if valid_base(base) {
            Some(
                ReqModel {
                    method: Method::Post,
                    url: base + keys_upload_path(),
                    headers: spec_auth_headers(token),
                    body: self.body@,
                },
            )
        } else {
            None
        }
    }

    fn try_into_http_request(self, base: &str, access_token: Option<&str>) -> Result<
        WireRequest,
        Error,
    > {
        match build_url(base, "/_matrix/client/r0/keys/upload") {
            Some(url) => {
                let headers = auth_header_vec(access_token);
                Ok(WireRequest { method: Method::Post, url, headers, body: self.body })
            },
            None => Err(Error::RequestConstruction),
        }
    }

    open spec fn spec_decode(resp: RespModel) -> Result<KeysUploadResponse, ErrorModel> {
        if spec_is_success(resp.status) {
            match spec_otk_count(resp.body) {
                Some(n) => Ok(KeysUploadResponse { one_time_key_count: n as u64 }),
                None => Err(ErrorModel::ResponseDecode),
            }
        } else {
            Err(spec_failure(resp.status, resp.body))
        }
    }

    fn try_from_http_response(response: &WireResponse) -> Result<KeysUploadResponse, Error> {
        if 200 <= response.status && response.status < 300 {
            match extract_otk_count(response.body.as_slice()) {
                Some(n) => Ok(KeysUploadResponse { one_time_key_count: n }),
                None => Err(Error::ResponseDecode),
            }
        } else {
            Err(decode_failure(response.status, response.body.as_slice()))
        }
    }

    proof fn lemma_decode_error_classified(resp: RespModel) {
    }
}

/// A request for other users' device keys.  The query payload is produced
/// by the operation's own wire format, which this layer carries opaquely.
#[derive(Debug, Clone)]
pub struct KeysQueryRequest {
    /// The encoded query payload.
    pub body: Vec<u8>,
}

/// The decoded success response of a key query: the payload carrying the
/// queried keys, forwarded whole to the key-management subsystem.
#[derive(Debug, Clone)]
pub struct KeysQueryResponse {
    /// The response payload.
    pub raw: Vec<u8>,
}

/// The mathematical model of a [`KeysQueryResponse`].
pub ghost struct KeysQueryRespModel {
    pub raw: Seq<u8>,
}

impl View for KeysQueryResponse {
    type V = KeysQueryRespModel;

    open spec fn view(&self) -> KeysQueryRespModel {
        KeysQueryRespModel { raw: self.raw@ }
    }
}

/// The path of the key-query endpoint.
pub open spec fn keys_query_path() -> Seq<char> {
    "/_matrix/client/r0/keys/query"@
}

impl Operation for KeysQueryRequest {
    type Response = KeysQueryResponse;

    open spec fn spec_requires_auth() -> bool {
        true
    }

    fn requires_auth() -> bool {
        true
    }

    open spec fn spec_request(self, base: Seq<char>, token: Option<Seq<char>>) -> Option<
        ReqModel,
    > {
        if valid_base(base) {
            Some(
                ReqModel {
                    method: Method::Post,
                    url: base + keys_query_path(),
                    headers: spec_auth_headers(token),
                    body: self.body@,
                },
            )
        } else {
            None
        }
    }

    fn try_into_http_request(self, base: &str, access_token: Option<&str>) -> Result<
        WireRequest,
        Error,
    > {
        match build_url(base, "/_matrix/client/r0/keys/query") {
            Some(url) => {
                let headers = auth_header_vec(access_token);
                Ok(WireRequest { method: Method::Post, url, headers, body: self.body })
            },
            None => Err(Error::RequestConstruction),
        }
    }

    open spec fn spec_decode(resp: RespModel) -> Result<KeysQueryRespModel, ErrorModel> {
        if spec_is_success(resp.status) {
            Ok(KeysQueryRespModel { raw: resp.body })
        } else {
            Err(spec_failure(resp.status, resp.body))
        }
    }

    fn try_from_http_response(response: &WireResponse) -> Result<KeysQueryResponse, Error> {
        if 200 <= response.status && response.status < 300 {
            let raw = bytes_range(response.body.as_slice(), 0, response.body.len());
            proof {
                assert(raw@ =~= response.body@);
            }
            Ok(KeysQueryResponse { raw })
        } else {
            Err(decode_failure(response.status, response.body.as_slice()))
        }
    }

    proof fn lemma_decode_error_classified(resp: RespModel) {
    }
}

/// A request to deliver an event directly to devices.  The per-device
/// message payload is produced by the operation's own wire format, which
/// this layer carries opaquely.
#[derive(Debug, Clone)]
pub struct ToDeviceRequest {
    /// The event type the messages carry.
    pub event_type: String,
    /// The client-chosen transaction identifier of this delivery.
    pub txn_id: String,
    /// The encoded message payload.
    pub body: Vec<u8>,
}

/// The decoded success response of a to-device delivery: the server
/// acknowledges with an empty payload.
#[derive(Debug, Clone, Copy, PartialEq, Eq, Structural)]
pub struct ToDeviceResponse {
}

impl View for ToDeviceResponse {
    type V = ToDeviceResponse;

    open spec fn view(&self) -> ToDeviceResponse {
        *self
    }
}

/// The path prefix of the to-device endpoint; the event type and the
/// transaction identifier follow as path segments.
pub open spec fn to_device_path() -> Seq<char> {
    "/_matrix/client/r0/sendToDevice/"@
}

impl Operation for ToDeviceRequest {
    type Response = ToDeviceResponse;

    open spec fn spec_requires_auth() -> bool {
        true
    }

    fn requires_auth() -> bool {
        true
    }

    open spec fn spec_request(self, base: Seq<char>, token: Option<Seq<char>>) -> Option<
        ReqModel,
    > {
        if valid_base(base) {
            Some(
                ReqModel {
                    method: Method::Put,
                    url: base + to_device_path() + self.event_type@ + "/"@ + self.txn_id@,
                    headers: spec_auth_headers(token),
                    body: self.body@,
                },
            )
        } else {
            None
        }
    }

    fn try_into_http_request(self, base: &str, access_token: Option<&str>) -> Result<
        WireRequest,
        Error,
    > {
        match build_url(base, "/_matrix/client/r0/sendToDevice/") {
            Some(url) => {
                let url = url.concat(self.event_type.as_str()).concat("/").concat(
                    self.txn_id.as_str(),
                );
                let headers = auth_header_vec(access_token);
                Ok(WireRequest { method: Method::Put, url, headers, body: self.body })
            },
            None => Err(Error::RequestConstruction),
        }
    }

    open spec fn spec_decode(resp: RespModel) -> Result<ToDeviceResponse, ErrorModel> {
        if spec_is_success(resp.status) {
            Ok(ToDeviceResponse {  })
        } else {
            Err(spec_failure(resp.status, resp.body))
        }
    }

    fn try_from_http_response(response: &WireResponse) -> Result<ToDeviceResponse, Error> {
        if 200 <= response.status && response.status < 300 {
            Ok(ToDeviceResponse {  })
        } else {
            Err(decode_failure(response.status, response.body.as_slice()))
        }
    }

    proof fn lemma_decode_error_classified(resp: RespModel) {
    }
}

/// A request for the protocol versions the server speaks: the one operation
/// of this layer that requires no authentication.
#[derive(Debug, Clone, Copy, PartialEq, Eq, Structural)]
pub struct VersionsRequest {
}

/// The decoded success response of a versions request: the payload listing
/// the supported versions, forwarded whole.
#[derive(Debug, Clone)]
pub struct VersionsResponse {
    /// The response payload.
    pub raw: Vec<u8>,
}

/// The mathematical model of a [`VersionsResponse`].
pub ghost struct VersionsRespModel {
    pub raw: Seq<u8>,
}

impl View for VersionsResponse {
    type V = VersionsRespModel;

    open spec fn view(&self) -> VersionsRespModel {
        VersionsRespModel { raw: self.raw@ }
    }
}

/// The path of the versions endpoint.
pub open spec fn versions_path() -> Seq<char> {
    "/_matrix/client/versions"@
}

impl Operation for VersionsRequest {
    type Response = VersionsResponse;

    open spec fn spec_requires_auth() -> bool {
        false
    }

    fn requires_auth() -> bool {
        false
    }

    open spec fn spec_request(self, base: Seq<char>, token: Option<Seq<char>>) -> Option<
        ReqModel,
    > {
        if valid_base(base) {
            Some(
                ReqModel {
                    method: Method::Get,
                    url: base + versions_path(),
                    headers: Seq::empty(),
                    body: Seq::empty(),
                },
            )
        } else {
            None
        }
    }

    fn try_into_http_request(self, base: &str, access_token: Option<&str>) -> Result<
        WireRequest,
        Error,
    > {
        match build_url(base, "/_matrix/client/versions") {
            Some(url) => {
                let headers: Vec<(String, String)> = Vec::new();
                let body: Vec<u8> = Vec::new();
                proof {
                    assert(crate::wire::headers_model(headers@) =~= Seq::<
                        (Seq<char>, Seq<char>),
                    >::empty());
                }
                Ok(WireRequest { method: Method::Get, url, headers, body })
            },
            None => Err(Error::RequestConstruction),
        }
    }

    open spec fn spec_decode(resp: RespModel) -> Result<VersionsRespModel, ErrorModel> {
        if spec_is_success(resp.status) {
            Ok(VersionsRespModel { raw: resp.body })
        } else {
            Err(spec_failure(resp.status, resp.body))
        }
    }

    fn try_from_http_response(response: &WireResponse) -> Result<VersionsResponse, Error> {
        if 200 <= response.status && response.status < 300 {
            let raw = bytes_range(response.body.as_slice(), 0, response.body.len());
            proof {
                assert(raw@ =~= response.body@);
            }
            Ok(VersionsResponse { raw })
        } else {
            Err(decode_failure(response.status, response.body.as_slice()))
        }
    }

    proof fn lemma_decode_error_classified(resp: RespModel) {
    }
}

/// The decoded success response of a one-time-key claim.  No operation of
/// this layer issues the claim itself; the response shape exists so that a
/// received claim response can be routed like the others.
#[derive(Debug, Clone)]
pub struct KeysClaimResponse {
    /// The response payload.
    pub raw: Vec<u8>,
}

} // verus!
