use vstd::prelude::*;
use crate::endpoints::{
    KeysClaimResponse, KeysQueryRequest, KeysQueryResponse, KeysUploadRequest, KeysUploadResponse,
    ToDeviceRequest, ToDeviceResponse,
};

verus! {

/// The closed set of operation kinds that originate asynchronously in the
/// key-management subsystem and are delivered out of band.  Adding a
/// protocol operation means adding one case here and one to
/// [`IncomingResponse`], plus one conversion each.
#[derive(Debug, Clone)]
pub enum OutgoingRequests {
    /// A device-key and one-time-key upload.
    KeysUpload(KeysUploadRequest),
    /// A query for other users' device keys.
    KeysQuery(KeysQueryRequest),
    /// A direct-to-device message delivery.
    ToDeviceRequest(ToDeviceRequest),
}

impl From<KeysUploadRequest> for OutgoingRequests {
    fn from(request: KeysUploadRequest) -> (r: OutgoingRequests) {
        OutgoingRequests::KeysUpload(request)
    }
}

impl vstd::std_specs::convert::FromSpecImpl<KeysUploadRequest> for OutgoingRequests {
    open spec fn obeys_from_spec() -> bool {
        true
    }

    open spec fn from_spec(v: KeysUploadRequest) -> OutgoingRequests {
        OutgoingRequests::KeysUpload(v)
    }
}

impl From<KeysQueryRequest> for OutgoingRequests {
    fn from(request: KeysQueryRequest) -> (r: OutgoingRequests) {
        OutgoingRequests::KeysQuery(request)
    }
}

impl vstd::std_specs::convert::FromSpecImpl<KeysQueryRequest> for OutgoingRequests {
    open spec fn obeys_from_spec() -> bool {
        true
    }

    open spec fn from_spec(v: KeysQueryRequest) -> OutgoingRequests {
        OutgoingRequests::KeysQuery(v)
    }
}

impl From<ToDeviceRequest> for OutgoingRequests {
    fn from(request: ToDeviceRequest) -> (r: OutgoingRequests) {
        OutgoingRequests::ToDeviceRequest(request)
    }
}

impl vstd::std_specs::convert::FromSpecImpl<ToDeviceRequest> for OutgoingRequests {
    open spec fn obeys_from_spec() -> bool {
        true
    }

    open spec fn from_spec(v: ToDeviceRequest) -> OutgoingRequests {
        OutgoingRequests::ToDeviceRequest(v)
    }
}

/// The closed set of decoded response shapes a caller matches against to
/// route a received response back to its originating envelope.  The case
/// must structurally match the operation kind that produced the request; a
/// mismatch is a programming error, not a recoverable runtime condition.
#[derive(Debug)]
pub enum IncomingResponse<'a> {
    /// The response to a device-key upload.
    KeysUpload(&'a KeysUploadResponse),
    /// The response to a device-key query.
    KeysQuery(&'a KeysQueryResponse),
    /// The response to a direct-to-device delivery.
    ToDevice(&'a ToDeviceResponse),
    /// The response to a one-time-key claim.
    KeysClaim(&'a KeysClaimResponse),
}

impl<'a> From<&'a KeysUploadResponse> for IncomingResponse<'a> {
    fn from(response: &'a KeysUploadResponse) -> (r: IncomingResponse<'a>) {
        IncomingResponse::KeysUpload(response)
    }
}

impl<'a> vstd::std_specs::convert::FromSpecImpl<&'a KeysUploadResponse> for IncomingResponse<'a> {
    open spec fn obeys_from_spec() -> bool {
        true
    }

    open spec fn from_spec(v: &'a KeysUploadResponse) -> IncomingResponse<'a> {
        IncomingResponse::KeysUpload(v)
    }
}

impl<'a> From<&'a KeysQueryResponse> for IncomingResponse<'a> {
    fn from(response: &'a KeysQueryResponse) -> (r: IncomingResponse<'a>) {
        IncomingResponse::KeysQuery(response)
    }
}

impl<'a> vstd::std_specs::convert::FromSpecImpl<&'a KeysQueryResponse> for IncomingResponse<'a> {
    open spec fn obeys_from_spec() -> bool {
        true
    }

    open spec fn from_spec(v: &'a KeysQueryResponse) -> IncomingResponse<'a> {
        IncomingResponse::KeysQuery(v)
    }
}

impl<'a> From<&'a ToDeviceResponse> for IncomingResponse<'a> {
    fn from(response: &'a ToDeviceResponse) -> (r: IncomingResponse<'a>) {
        IncomingResponse::ToDevice(response)
    }
}

impl<'a> vstd::std_specs::convert::FromSpecImpl<&'a ToDeviceResponse> for IncomingResponse<'a> {
    open spec fn obeys_from_spec() -> bool {
        true
    }

    open spec fn from_spec(v: &'a ToDeviceResponse) -> IncomingResponse<'a> {
        IncomingResponse::ToDevice(v)
    }
}

impl<'a> From<&'a KeysClaimResponse> for IncomingResponse<'a> {
    fn from(response: &'a KeysClaimResponse) -> (r: IncomingResponse<'a>) {
        IncomingResponse::KeysClaim(response)
    }
}

impl<'a> vstd::std_specs::convert::FromSpecImpl<&'a KeysClaimResponse> for IncomingResponse<'a> {
    open spec fn obeys_from_spec() -> bool {
        true
    }

    open spec fn from_spec(v: &'a KeysClaimResponse) -> IncomingResponse<'a> {
        IncomingResponse::KeysClaim(v)
    }
}

/// Relies on uuid::Uuid::new_v4, which draws a fresh version-4 identifier
/// from the process's random source; the value is random, so nothing is
/// promised of it.
#[verifier::external_body]
fn fresh_id() -> u128 {
    uuid::Uuid::new_v4().as_u128()
}

/// A dispatch-tracking wrapper pairing one operation with a unique
/// correlation identifier.  The identifier is generated once at creation
/// from a collision-resistant random scheme and never changes: it is the
/// sole key by which an asynchronous caller recognizes which in-flight
/// request a later response satisfies.
#[derive(Debug, Clone)]
pub struct OutgoingRequest {
    /// The unique id of a request, needs to be passed when receiving a
    /// response.
    request_id: u128,
    /// The wrapped operation.
    request: OutgoingRequests,
}

impl OutgoingRequest {
    /// The envelope's correlation identifier.
    pub closed spec fn spec_id(self) -> u128 {
        self.request_id
    }

    /// The envelope's wrapped operation.
    pub closed spec fn spec_payload(self) -> OutgoingRequests {
        self.request
    }

    /// Wraps one operation with a fresh identifier.  Reading the payload
    /// back always yields exactly the operation given here.
    pub fn new(request: OutgoingRequests) -> (r: OutgoingRequest)
        ensures
            r.spec_payload() == request,
    {
        OutgoingRequest { request_id: fresh_id(), request }
    }

    /// Get the unique id of this request.
    pub fn request_id(&self) -> (r: u128)
        ensures
            r == self.spec_id(),
    {
        self.request_id
    }

    /// Get the underlying outgoing request.
    pub fn request(&self) -> (r: &OutgoingRequests)
        ensures
            *r == self.spec_payload(),
    {
        &self.request
    }
}

} // verus!
