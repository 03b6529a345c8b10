//! The API client: configuration, request building and response
//! interpretation. The transport that carries a built [`HttpRequest`] to the
//! server and brings back a status code and a body lives outside the library;
//! everything the client decides or computes is here, with contracts.

use vstd::prelude::*;
use vstd::string::StringExecFns;

use crate::json::{push_field_key, push_session_description};
use crate::parse::{
    parse_new_session_response, parse_session_state, parse_tracks_response,
};
use crate::schema::{
    NewSessionRequestV, NewSessionResponse, SessionDescription, SessionDescriptionV, SessionState,
    SdpType, TrackObject, TracksRequest, TracksRequestV, TracksResponse, view_tracks,
};
use crate::wire::{
    json_of_new_session_request, json_of_tracks_request, key_session_description,
    sp_doc_new_session_response, sp_doc_session_state, sp_doc_tracks_response,
};

verus! {

/// How a call can fail before, during or after the exchange.
#[derive(Clone, Debug, PartialEq, Eq)]
pub enum CallsError {
    /// A required configuration value was absent at construction.
    Config,
    /// The request was rejected locally before any exchange.
    Validation,
    /// The server answered with a non-success status; the raw body is kept.
    Api { status: u16, body: String },
    /// The server answered with success but the body was not a well-formed
    /// record.
    Parse,
}

#[derive(Clone, Copy, Debug, PartialEq, Eq, Structural)]
pub enum HttpMethod {
    Get,
    Post,
    Put,
}

/// Everything the transport needs to perform one call.
#[derive(Clone, Debug, PartialEq, Eq)]
pub struct HttpRequest {
    pub method: HttpMethod,
    pub url: String,
    pub body: Option<String>,
}

/// Mathematical value of an [`HttpRequest`].
#[verifier::ext_equal]
pub struct HttpRequestV {
    pub method: HttpMethod,
    pub url: Seq<char>,
    pub body: Option<Seq<char>>,
}

impl View for HttpRequest {
    type V = HttpRequestV;

    open spec fn view(&self) -> HttpRequestV {
        HttpRequestV {
            method: self.method,
            url: self.url@,
            body: match self.body {
                Some(ref b) => Some(b@),
                None => None,
            },
        }
    }
}

/// The fixed root under which every application lives.
pub open spec fn service_root() -> Seq<char> {
    "https://rtc.live.cloudflare.com/v1"@
}

/// The base URL of one application: the service root plus its identifier.
pub open spec fn base_path_of(app_id: Seq<char>) -> Seq<char> {
    service_root() + "/apps/"@ + app_id
}

/// A full request URL: the base path and the endpoint path joined by `/`.
pub open spec fn url_of(base: Seq<char>, path: Seq<char>) -> Seq<char> {
    base + seq!['/'] + path
}

pub open spec fn path_new_session() -> Seq<char> {
    "sessions/new"@
}

pub open spec fn path_tracks_new(id: Seq<char>) -> Seq<char> {
    "sessions/"@ + id + "/tracks/new"@
}

pub open spec fn path_renegotiate(id: Seq<char>) -> Seq<char> {
    "sessions/"@ + id + "/renegotiate"@
}

pub open spec fn path_session(id: Seq<char>) -> Seq<char> {
    "sessions/"@ + id
}

pub open spec fn path_tracks_close(id: Seq<char>) -> Seq<char> {
    "sessions/"@ + id + "/tracks/close"@
}

/// True exactly for the status codes the API treats as success.
pub open spec fn spec_is_success(status: u16) -> bool {
    200 <= status < 300
}

/// The client: immutable configuration, fixed at construction.
#[derive(Clone, Debug, PartialEq, Eq)]
pub struct CallsApp {
    pub app_id: String,
    app_secret: String,
    base_path: String,
}

/// Mathematical value of a [`CallsApp`].
#[verifier::ext_equal]
pub struct CallsAppV {
    pub app_id: Seq<char>,
    pub app_secret: Seq<char>,
    pub base_path: Seq<char>,
}

impl View for CallsApp {
    type V = CallsAppV;

    closed spec fn view(&self) -> CallsAppV {
        CallsAppV {
            app_id: self.app_id@,
            app_secret: self.app_secret@,
            base_path: self.base_path@,
        }
    }
}

impl CallsApp {
    /// Build a client from the two required configuration values, normally
    /// the `APP_ID` and `APP_SECRET` environment variables as read by the
    /// caller. Either one absent is a configuration error.
    pub fn new(app_id: Option<String>, app_secret: Option<String>) -> (r: Result<
        CallsApp,
        CallsError,
    >)
        ensures
            r is Ok <==> (app_id is Some && app_secret is Some),
            r matches Ok(c) ==> app_id matches Some(i) && app_secret matches Some(s) && c@
                == (CallsAppV { app_id: i@, app_secret: s@, base_path: base_path_of(i@) }),
            r is Err ==> r == Err::<CallsApp, CallsError>(CallsError::Config),
    {
        match (app_id, app_secret) {
            (Some(id), Some(secret)) => {
                let mut base = String::from_str("https://rtc.live.cloudflare.com/v1");
                base.append("/apps/");
                base.append(id.as_str());
                proof {
                    assert(base@ =~= base_path_of(id@));
                }
                Ok(CallsApp { app_id: id, app_secret: secret, base_path: base })
            },
            _ => Err(CallsError::Config),
        }
    }

    /// The configured secret, as the transport needs it for the
    /// `Authorization: Bearer` header.
    pub fn app_secret(&self) -> (r: &str)
        ensures
            r@ == self@.app_secret,
    {
        self.app_secret.as_str()
    }

    /// The base URL every endpoint path is joined to.
    pub fn base_path(&self) -> (r: &str)
        ensures
            r@ == self@.base_path,
    {
        self.base_path.as_str()
    }

    /// The request that creates a new session from `description`, which must
    /// be an offer: an answer is rejected locally, before any exchange.
    pub fn new_session_request(&self, description: &SessionDescription) -> (r: Result<
        HttpRequest,
        CallsError,
    >)
        ensures
            r is Ok <==> description@.sdp_type == SdpType::Offer,
            description@.sdp_type == SdpType::Answer ==> r == Err::<HttpRequest, CallsError>(
                CallsError::Validation,
            ),
            r matches Ok(req) ==> req@ == (HttpRequestV {
                method: HttpMethod::Post,
                url: url_of(self@.base_path, path_new_session()),
                body: Some(
                    json_of_new_session_request(
                        NewSessionRequestV { session_description: description@ },
                    ),
                ),
            }),
    {
        match description.sdp_type {
            SdpType::Answer => Err(CallsError::Validation),
            SdpType::Offer => {
                let mut url = self.base_path.clone();
                url.push('/');
                url.append("sessions/new");
                proof {
                    assert(url@ =~= url_of(self@.base_path, path_new_session()));
                }
                let mut body = String::new();
                body.push('{');
                push_field_key(&mut body, true, "sessionDescription");
                proof {
                    assert("sessionDescription"@ == key_session_description());
                }
                push_session_description(&mut body, description);
                body.push('}');
                proof {
                    assert(body@ =~= json_of_new_session_request(
                        NewSessionRequestV { session_description: description@ },
                    ));
                }
                Ok(HttpRequest { method: HttpMethod::Post, url, body: Some(body) })
            },
        }
    }

    /// The request that adds `track_objects` to the session `session_id`.
    /// With `offer_sdp` present the body carries an offer description; with
    /// it absent the body has no description member at all.
    pub fn add_tracks_request(
        &self,
        session_id: &str,
        track_objects: Vec<TrackObject>,
        offer_sdp: Option<String>,
    ) -> (r: HttpRequest)
        ensures
            r@ == (HttpRequestV {
                method: HttpMethod::Post,
                url: url_of(self@.base_path, path_tracks_new(session_id@)),
                body: Some(json_of_tracks_request(tracks_request_of(
                    offer_sdp,
                    track_objects@,
                ))),
            }),
    {
        let mut url = self.base_path.clone();
        url.push('/');
        url.append("sessions/");
        url.append(session_id);
        url.append("/tracks/new");
        proof {
            assert(url@ =~= url_of(self@.base_path, path_tracks_new(session_id@)));
        }
        let req = TracksRequest {
            session_description: match offer_sdp {
                Some(sdp) => Some(SessionDescription { sdp_type: SdpType::Offer, sdp }),
                None => None,
            },
            tracks: track_objects,
        };
        let body = req.to_json();
        HttpRequest { method: HttpMethod::Post, url, body: Some(body) }
    }

    /// The request that hands the server a new description for the session.
    pub fn renegotiate_request(&self, session_id: &str, session_description: SessionDescription)
        -> (r: HttpRequest)
        ensures
            r@ == (HttpRequestV {
                method: HttpMethod::Put,
                url: url_of(self@.base_path, path_renegotiate(session_id@)),
                body: Some(
                    json_of_new_session_request(
                        NewSessionRequestV { session_description: session_description@ },
                    ),
                ),
            }),
    {
        let mut url = self.base_path.clone();
        url.push('/');
        url.append("sessions/");
        url.append(session_id);
        url.append("/renegotiate");
        proof {
            assert(url@ =~= url_of(self@.base_path, path_renegotiate(session_id@)));
        }
        let mut body = String::new();
        body.push('{');
        push_field_key(&mut body, true, "sessionDescription");
        proof {
            assert("sessionDescription"@ == key_session_description());
        }
        push_session_description(&mut body, &session_description);
        body.push('}');
        proof {
            assert(body@ =~= json_of_new_session_request(
                NewSessionRequestV { session_description: session_description@ },
            ));
        }
        HttpRequest { method: HttpMethod::Put, url, body: Some(body) }
    }

    /// The request that reads the current state of the session. It carries
    /// no body.
    pub fn get_session_state_request(&self, session_id: &str) -> (r: HttpRequest)
        ensures
            r@ == (HttpRequestV {
                method: HttpMethod::Get,
                url: url_of(self@.base_path, path_session(session_id@)),
                body: None,
            }),
    {
        let mut url = self.base_path.clone();
        url.push('/');
        url.append("sessions/");
        url.append(session_id);
        proof {
            assert(url@ =~= url_of(self@.base_path, path_session(session_id@)));
        }
        HttpRequest { method: HttpMethod::Get, url, body: None }
    }

    /// The request that closes `track_objects` in the session, with the same
    /// optional description as when adding tracks.
    pub fn close_tracks_request(
        &self,
        session_id: &str,
        track_objects: Vec<TrackObject>,
        sdp: Option<String>,
    ) -> (r: HttpRequest)
        ensures
            r@ == (HttpRequestV {
                method: HttpMethod::Post,
                url: url_of(self@.base_path, path_tracks_close(session_id@)),
                body: Some(json_of_tracks_request(tracks_request_of(sdp, track_objects@))),
            }),
    {
        let mut url = self.base_path.clone();
        url.push('/');
        url.append("sessions/");
        url.append(session_id);
        url.append("/tracks/close");
        proof {
            assert(url@ =~= url_of(self@.base_path, path_tracks_close(session_id@)));
        }
        let req = TracksRequest {
            session_description: match sdp {
                Some(sdp) => Some(SessionDescription { sdp_type: SdpType::Offer, sdp }),
                None => None,
            },
            tracks: track_objects,
        };
        let body = req.to_json();
        HttpRequest { method: HttpMethod::Post, url, body: Some(body) }
    }
}

/// The body an add-tracks or close-tracks request carries: an offer built
/// from the optional SDP, plus the tracks.
pub open spec fn tracks_request_of(sdp: Option<String>, tracks: Seq<TrackObject>)
    -> TracksRequestV {
    TracksRequestV {
        session_description: match sdp {
            Some(s) => Some(SessionDescriptionV { sdp_type: SdpType::Offer, sdp: s@ }),
            None => None,
        },
        tracks: view_tracks(tracks),
    }
}

/// True exactly for the HTTP status codes the API treats as success.
pub fn is_success(status: u16) -> (r: bool)
    ensures
        r == spec_is_success(status),
{
    200 <= status && status < 300
}

/// Interpret the exchange that created a session: any non-success status is
/// an API failure carrying the raw body; a success body must parse as a
/// [`NewSessionResponse`].
pub fn interpret_new_session_response(status: u16, body: &str) -> (r: Result<
    NewSessionResponse,
    CallsError,
>)
    ensures
        !spec_is_success(status) ==> (r matches Err(CallsError::Api { status: st, body: b })
            && st == status && b@ == body@),
        spec_is_success(status) ==> match sp_doc_new_session_response(body@) {
            Some(v) => r matches Ok(resp) && resp@ == v,
            None => r == Err::<NewSessionResponse, CallsError>(CallsError::Parse),
        },
{
    if !is_success(status) {
        return Err(api_error(status, body));
    }
    match parse_new_session_response(body) {
        Some(resp) => Ok(resp),
        None => Err(CallsError::Parse),
    }
}

/// Interpret the exchange that added or closed tracks, in the same way.
pub fn interpret_tracks_response(status: u16, body: &str) -> (r: Result<TracksResponse, CallsError>)
    ensures
        !spec_is_success(status) ==> (r matches Err(CallsError::Api { status: st, body: b })
            && st == status && b@ == body@),
        spec_is_success(status) ==> match sp_doc_tracks_response(body@) {
            Some(v) => r matches Ok(resp) && resp@ == v,
            None => r == Err::<TracksResponse, CallsError>(CallsError::Parse),
        },
{
    if !is_success(status) {
        return Err(api_error(status, body));
    }
    match parse_tracks_response(body) {
        Some(resp) => Ok(resp),
        None => Err(CallsError::Parse),
    }
}

/// Interpret a renegotiation exchange: success has no body to parse.
pub fn interpret_renegotiate_response(status: u16, body: &str) -> (r: Result<(), CallsError>)
    ensures
        !spec_is_success(status) ==> (r matches Err(CallsError::Api { status: st, body: b })
            && st == status && b@ == body@),
        spec_is_success(status) ==> r is Ok,
{
    if !is_success(status) {
        return Err(api_error(status, body));
    }
    Ok(())
}

/// Interpret the exchange that read a session's state, in the same way.
pub fn interpret_session_state_response(status: u16, body: &str) -> (r: Result<
    SessionState,
    CallsError,
>)
    ensures
        !spec_is_success(status) ==> (r matches Err(CallsError::Api { status: st, body: b })
            && st == status && b@ == body@),
        spec_is_success(status) ==> match sp_doc_session_state(body@) {
            Some(v) => r matches Ok(resp) && resp@ == v,
            None => r == Err::<SessionState, CallsError>(CallsError::Parse),
        },
{
    if !is_success(status) {
        return Err(api_error(status, body));
    }
    match parse_session_state(body) {
        Some(resp) => Ok(resp),
        None => Err(CallsError::Parse),
    }
}

fn api_error(status: u16, body: &str) -> (r: CallsError)
    ensures
        r matches CallsError::Api { status: st, body: b } && st == status && b@ == body@,
{
    let owned = String::from_str(body);
    CallsError::Api { status, body: owned }
}

} // verus!
