use vstd::prelude::*;
use crate::codec::opt_view;
use crate::error::{Error, ErrorModel};
use crate::wire::{ReqModel, RespModel, WireRequest, WireResponse};

verus! {

/// A single strongly-typed protocol operation: it declares whether it
/// requires authentication, materializes itself into a wire request given a
/// base server address and an optional access token, and decodes a wire
/// response into its declared success type or a classified error.
///
/// An operation is consumed exactly once: it is moved into the conversion
/// step and never reused.
pub trait Operation: Sized {
    /// The decoded success type of this operation.
    type Response: View;

    /// The operation's static authentication requirement.
    spec fn spec_requires_auth() -> bool;

    /// Executable twin of [`Operation::spec_requires_auth`].
    fn requires_auth() -> (b: bool)
        ensures
            b == Self::spec_requires_auth(),
    ;

    /// The wire request this operation materializes into, given a base
    /// server address and an optional token; nothing, when the base address
    /// is malformed.
    spec fn spec_request(self, base: Seq<char>, token: Option<Seq<char>>) -> Option<ReqModel>;

    /// Materializes the operation into a wire request, failing exactly when
    /// [`Operation::spec_request`] has no value for these inputs.
    fn try_into_http_request(self, base: &str, access_token: Option<&str>) -> (r: Result<
        WireRequest,
        Error,
    >)
        ensures
            match r {
                Ok(req) => self.spec_request(base@, opt_view(access_token)) == Some(req@),
                Err(e) => {
                    &&& self.spec_request(base@, opt_view(access_token)) is None
                    &&& e@ == ErrorModel::RequestConstruction
                },
            },
    ;

    /// What decoding a canonical wire response yields: the model of the
    /// success value, or the classified error.
    spec fn spec_decode(resp: RespModel) -> Result<<Self::Response as View>::V, ErrorModel>;

    /// Decodes a canonical wire response, exactly as
    /// [`Operation::spec_decode`] describes it.
    fn try_from_http_response(response: &WireResponse) -> (r: Result<Self::Response, Error>)
        ensures
            match r {
                Ok(v) => Self::spec_decode(response@) == Ok::<
                    <Self::Response as View>::V,
                    ErrorModel,
                >(v@),
                Err(e) => Self::spec_decode(response@) == Err::<
                    <Self::Response as View>::V,
                    ErrorModel,
                >(e@),
            },
    ;

    /// Decoding classifies every failure as a protocol error or a decode
    /// failure: it never speaks of authentication, construction or
    /// transport, which are decided before and during the exchange.
    proof fn lemma_decode_error_classified(resp: RespModel)
        ensures
            match Self::spec_decode(resp) {
                Ok(_) => true,
                Err(e) => e matches ErrorModel::Protocol(_) || e == ErrorModel::ResponseDecode,
            },
    ;
}

} // verus!
