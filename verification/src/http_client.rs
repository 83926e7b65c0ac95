use vstd::prelude::*;
use crate::error::{Error, ErrorModel, TransportFault};
use crate::operation::Operation;
use crate::wire::{
    normalize_headers, normalize_model, response_to_http_response, RawResponse, ReqModel,
    RespModel, WireRequest,
};

verus! {

/// The credential record of a logged-in user, read-only from this layer's
/// perspective.
#[derive(Debug, Clone)]
pub struct Session {
    /// The access token attached to authenticated requests.
    pub access_token: String,
    /// The identity the token belongs to.
    pub user_id: String,
    /// The device the token was issued for.
    pub device_id: String,
}

impl Session {
    /// A well-formed session carries a non-empty access token: an operation
    /// that requires authentication demands one before a wire request is
    /// built.
    pub open spec fn wf(self) -> bool {
        self.access_token@.len() > 0
    }
}

/// The pluggable transport capability: send a fully-formed wire request and
/// produce a raw response, or fail with a transport fault.  Implementations
/// know nothing of protocol semantics; production backends and test doubles
/// implement it alike, and the dispatcher depends only on this capability.
pub trait HttpSend {
    /// Performs one network exchange for the given request.
    fn send_request(&self, request: WireRequest) -> Result<RawResponse, TransportFault>;
}

/// The authenticated dispatcher: it enforces each operation's
/// authentication requirement, builds and normalizes the wire request,
/// delegates the exchange to the transport capability, and decodes the
/// response.  Exactly one transport call is made per dispatch; there are no
/// implicit retries, and the session is only ever read.
#[derive(Debug, Clone)]
pub struct HttpClient<T: HttpSend> {
    /// The transport capability performing the actual exchanges.
    pub inner: T,
    /// The base address of the server all requests go to.
    pub homeserver: String,
    /// The current credential record, if a user is logged in.
    pub session: Option<Session>,
}

/// The model of a dispatch result: the decoded value's model or the
/// error's.
pub open spec fn result_model<R: Operation>(r: Result<R::Response, Error>) -> Result<
    <R::Response as View>::V,
    ErrorModel,
> {
    match r {
        Ok(v) => Ok(v@),
        Err(e) => Err(e@),
    }
}

impl<T: HttpSend> HttpClient<T> {
    /// Any session the client holds is well-formed.
    pub open spec fn wf(self) -> bool {
        match self.session {
            Some(s) => s.wf(),
            None => true,
        }
    }

    /// The access token handed to request construction: the session's token
    /// when the operation requires authentication, nothing otherwise.
    pub open spec fn spec_token(self, requires_auth: bool) -> Option<Seq<char>> {
        if requires_auth {
            match self.session {
                Some(s) => Some(s.access_token@),
                None => None,
            }
        } else {
            None
        }
    }

    /// What preparing an operation yields: the authentication-required
    /// error when authentication is mandated but no session is present; the
    /// construction error when the operation cannot materialize; otherwise
    /// the materialized request with its headers normalized.
    pub open spec fn spec_prepare<R: Operation>(self, request: R) -> Result<ReqModel, ErrorModel> {
        if R::spec_requires_auth() && self.session is None {
            Err(ErrorModel::AuthenticationRequired)
        } else {
            match request.spec_request(
                self.homeserver@,
                self.spec_token(R::spec_requires_auth()),
            ) {
                Some(m) => Ok(normalize_model(m)),
                None => Err(ErrorModel::RequestConstruction),
            }
        }
    }

    /// A new dispatcher around the given transport and base address, with
    /// no session.
    pub fn new(inner: T, homeserver: String) -> (r: HttpClient<T>)
        ensures
            r.inner == inner,
            r.homeserver == homeserver,
            r.session is None,
            r.wf(),
    {
        HttpClient { inner, homeserver, session: None }
    }

    /// Installs the credential record a login or refresh produced.  The
    /// dispatcher itself never mutates it.
    pub fn set_session(&mut self, session: Session)
        requires
            session.wf(),
        ensures
            final(self).inner == old(self).inner,
            final(self).homeserver == old(self).homeserver,
            final(self).session == Some(session),
            final(self).wf(),
    {
        self.session = Some(session);
    }

    /// Builds the wire request for one operation: enforces the
    /// authentication requirement, materializes the request, and normalizes
    /// its headers, exactly as [`HttpClient::spec_prepare`] describes.  No
    /// network activity occurs here.
    pub fn prepare_request<R: Operation>(&self, request: R) -> (r: Result<WireRequest, Error>)
        requires
            self.wf(),
        ensures
            match r {
                Ok(req) => self.spec_prepare(request) == Ok::<ReqModel, ErrorModel>(req@),
                Err(e) => self.spec_prepare(request) == Err::<ReqModel, ErrorModel>(e@),
            },
    {
        let access_token: Option<&str> = if R::requires_auth() {
            match &self.session {
                Some(session) => Some(session.access_token.as_str()),
                None => {
                    return Err(Error::AuthenticationRequired);
                },
            }
        } else {
            None
        };
        let mut req = match request.try_into_http_request(self.homeserver.as_str(), access_token) {
            Ok(req) => req,
            Err(e) => {
                return Err(e);
            },
        };
        normalize_headers(&mut req);
        Ok(req)
    }

    /// Dispatches one operation up to the raw transport response: prepare
    /// the request, then perform exactly one exchange.  A preparation
    /// failure is surfaced before any network activity; a transport fault
    /// is surfaced unchanged as a transport error.
    pub fn send_request<R: Operation>(&self, request: R) -> (r: Result<RawResponse, Error>)
        requires
            self.wf(),
        ensures
            match self.spec_prepare(request) {
                Ok(_) => r matches Ok(_) || (r matches Err(e) && e@ matches ErrorModel::Transport(
                    _,
                )),
                Err(em) => r matches Err(e) && e@ == em,
            },
    {
        let req = match self.prepare_request(request) {
            Ok(req) => req,
            Err(e) => {
                return Err(e);
            },
        };
        match self.inner.send_request(req) {
            Ok(raw) => Ok(raw),
            Err(fault) => Err(Error::Transport(fault)),
        }
    }

    /// Dispatches one operation and decodes its response.
    ///
    /// The outcome is exactly one of: the preparation result, when
    /// preparation fails; a transport error carrying the transport's fault
    /// unchanged; or the decode of some wire response, as the operation's
    /// own [`Operation::spec_decode`] describes it.  An operation that does
    /// not require authentication is never answered with the
    /// authentication-required error, whatever the session state.
    pub fn send<R: Operation>(&self, request: R) -> (r: Result<R::Response, Error>)
        requires
            self.wf(),
        ensures
            match self.spec_prepare(request) {
                Err(em) => r matches Err(e) && e@ == em,
                Ok(_) => (r matches Err(e) && e@ matches ErrorModel::Transport(_)) || (exists|
                    w: RespModel,
                |
                    #[trigger] R::spec_decode(w) == result_model::<R>(r)),
            },
            !R::spec_requires_auth() ==> !(r matches Err(e) && e@
                == ErrorModel::AuthenticationRequired),
    {
        let raw = match self.send_request(request) {
            Ok(raw) => raw,
            Err(e) => {
                return Err(e);
            },
        };
        let response = response_to_http_response(raw);
        let r = R::try_from_http_response(&response);
        proof {
            assert(R::spec_decode(response@) == result_model::<R>(r));
            R::lemma_decode_error_classified(response@);
        }
        r
    }
}

/// The authentication gate, stated on its own: an operation that requires
/// authentication, dispatched with no session present, resolves to the
/// authentication-required error before any request is built; an operation
/// that does not require authentication is prepared from the base address
/// alone, with no token attached, whatever the session state.
pub proof fn lemma_auth_gate<T: HttpSend, R: Operation>(client: HttpClient<T>, request: R)
    ensures
        R::spec_requires_auth() && client.session is None ==> client.spec_prepare(request) == Err::<
            ReqModel,
            ErrorModel,
        >(ErrorModel::AuthenticationRequired),
        !R::spec_requires_auth() ==> client.spec_prepare(request) == (match request.spec_request(
            client.homeserver@,
            None,
        ) {
            Some(m) => Ok::<ReqModel, ErrorModel>(normalize_model(m)),
            None => Err::<ReqModel, ErrorModel>(ErrorModel::RequestConstruction),
        }),
{
}

} // verus!
