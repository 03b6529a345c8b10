//! The data records exchanged with the signaling API, together with their
//! mathematical views (`Seq<char>` in place of `String`, `Seq` in place of
//! `Vec`), which the wire-format specifications are stated over.

use vstd::prelude::*;

verus! {

/// Whether a session description is an offer or an answer.
#[derive(Clone, Copy, Debug, PartialEq, Eq, Structural)]
pub enum SdpType {
    Offer,
    Answer,
}

/// Whether a track is sent by this peer or received from the server.
#[derive(Clone, Copy, Debug, PartialEq, Eq, Structural)]
pub enum TrackLocation {
    Local,
    Remote,
}

/// A signaling offer or answer: the negotiation role plus the SDP text,
/// which this client treats as an opaque string.
#[derive(Clone, Debug, PartialEq, Eq)]
pub struct SessionDescription {
    pub sdp_type: SdpType,
    pub sdp: String,
}

/// Mathematical value of a [`SessionDescription`].
#[verifier::ext_equal]
pub struct SessionDescriptionV {
    pub sdp_type: SdpType,
    pub sdp: Seq<char>,
}

impl View for SessionDescription {
    type V = SessionDescriptionV;

    open spec fn view(&self) -> SessionDescriptionV {
        SessionDescriptionV { sdp_type: self.sdp_type, sdp: self.sdp@ }
    }
}

/// A named media stream reference within a session. Every field is optional;
/// absent fields are omitted from the serialized form entirely.
#[derive(Clone, Debug, PartialEq, Eq)]
pub struct TrackObject {
    pub location: Option<TrackLocation>,
    pub mid: Option<String>,
    pub track_name: Option<String>,
    pub session_id: Option<String>,
}

/// Mathematical value of a [`TrackObject`].
#[verifier::ext_equal]
pub struct TrackObjectV {
    pub location: Option<TrackLocation>,
    pub mid: Option<Seq<char>>,
    pub track_name: Option<Seq<char>>,
    pub session_id: Option<Seq<char>>,
}

pub open spec fn view_opt_string(s: Option<String>) -> Option<Seq<char>> {
    match s {
        Some(x) => Some(x@),
        None => None,
    }
}

impl View for TrackObject {
    type V = TrackObjectV;

    open spec fn view(&self) -> TrackObjectV {
        TrackObjectV {
            location: self.location,
            mid: view_opt_string(self.mid),
            track_name: view_opt_string(self.track_name),
            session_id: view_opt_string(self.session_id),
        }
    }
}

pub open spec fn view_opt_desc(d: Option<SessionDescription>) -> Option<SessionDescriptionV> {
    match d {
        Some(x) => Some(x@),
        None => None,
    }
}

pub open spec fn view_tracks(ts: Seq<TrackObject>) -> Seq<TrackObjectV> {
    ts.map_values(|t: TrackObject| t@)
}

/// Body of a request that adds or closes tracks: an optional offer plus the
/// tracks it concerns.
#[derive(Clone, Debug, PartialEq, Eq)]
pub struct TracksRequest {
    pub session_description: Option<SessionDescription>,
    pub tracks: Vec<TrackObject>,
}

/// Mathematical value of a [`TracksRequest`].
#[verifier::ext_equal]
pub struct TracksRequestV {
    pub session_description: Option<SessionDescriptionV>,
    pub tracks: Seq<TrackObjectV>,
}

impl View for TracksRequest {
    type V = TracksRequestV;

    open spec fn view(&self) -> TracksRequestV {
        TracksRequestV {
            session_description: view_opt_desc(self.session_description),
            tracks: view_tracks(self.tracks@),
        }
    }
}

/// Body of a response to adding or closing tracks.
#[derive(Clone, Debug, PartialEq, Eq)]
pub struct TracksResponse {
    pub requires_immediate_renegotiation: bool,
    pub session_description: Option<SessionDescription>,
    pub tracks: Vec<TrackObject>,
}

/// Mathematical value of a [`TracksResponse`].
#[verifier::ext_equal]
pub struct TracksResponseV {
    pub requires_immediate_renegotiation: bool,
    pub session_description: Option<SessionDescriptionV>,
    pub tracks: Seq<TrackObjectV>,
}

impl View for TracksResponse {
    type V = TracksResponseV;

    open spec fn view(&self) -> TracksResponseV {
        TracksResponseV {
            requires_immediate_renegotiation: self.requires_immediate_renegotiation,
            session_description: view_opt_desc(self.session_description),
            tracks: view_tracks(self.tracks@),
        }
    }
}

/// Body of a request that creates a new session.
#[derive(Clone, Debug, PartialEq, Eq)]
pub struct NewSessionRequest {
    pub session_description: SessionDescription,
}

/// Mathematical value of a [`NewSessionRequest`].
#[verifier::ext_equal]
pub struct NewSessionRequestV {
    pub session_description: SessionDescriptionV,
}

impl View for NewSessionRequest {
    type V = NewSessionRequestV;

    open spec fn view(&self) -> NewSessionRequestV {
        NewSessionRequestV { session_description: self.session_description@ }
    }
}

/// Body of a response to creating a new session: the server's answer plus
/// the server-assigned session id.
#[derive(Clone, Debug, PartialEq, Eq)]
pub struct NewSessionResponse {
    pub session_description: SessionDescription,
    pub session_id: String,
}

/// Mathematical value of a [`NewSessionResponse`].
#[verifier::ext_equal]
pub struct NewSessionResponseV {
    pub session_description: SessionDescriptionV,
    pub session_id: Seq<char>,
}

impl View for NewSessionResponse {
    type V = NewSessionResponseV;

    open spec fn view(&self) -> NewSessionResponseV {
        NewSessionResponseV {
            session_description: self.session_description@,
            session_id: self.session_id@,
        }
    }
}

/// Body of a request that closes tracks and forces the server to act at once.
#[derive(Clone, Debug, PartialEq, Eq)]
pub struct CloseTracksRequest {
    pub session_description: SessionDescription,
    pub tracks: Vec<TrackObject>,
    pub force: bool,
}

/// Mathematical value of a [`CloseTracksRequest`].
#[verifier::ext_equal]
pub struct CloseTracksRequestV {
    pub session_description: SessionDescriptionV,
    pub tracks: Seq<TrackObjectV>,
    pub force: bool,
}

impl View for CloseTracksRequest {
    type V = CloseTracksRequestV;

    open spec fn view(&self) -> CloseTracksRequestV {
        CloseTracksRequestV {
            session_description: self.session_description@,
            tracks: view_tracks(self.tracks@),
            force: self.force,
        }
    }
}

/// Body of a response to closing tracks; same shape as [`TracksResponse`].
#[derive(Clone, Debug, PartialEq, Eq)]
pub struct CloseTracksResponse {
    pub requires_immediate_renegotiation: bool,
    pub session_description: Option<SessionDescription>,
    pub tracks: Vec<TrackObject>,
}

/// Mathematical value of a [`CloseTracksResponse`].
#[verifier::ext_equal]
pub struct CloseTracksResponseV {
    pub requires_immediate_renegotiation: bool,
    pub session_description: Option<SessionDescriptionV>,
    pub tracks: Seq<TrackObjectV>,
}

impl View for CloseTracksResponse {
    type V = CloseTracksResponseV;

    open spec fn view(&self) -> CloseTracksResponseV {
        CloseTracksResponseV {
            requires_immediate_renegotiation: self.requires_immediate_renegotiation,
            session_description: view_opt_desc(self.session_description),
            tracks: view_tracks(self.tracks@),
        }
    }
}

/// The current track set of a session, as reported by the server.
#[derive(Clone, Debug, PartialEq, Eq)]
pub struct SessionState {
    pub tracks: Vec<TrackObject>,
}

/// Mathematical value of a [`SessionState`].
#[verifier::ext_equal]
pub struct SessionStateV {
    pub tracks: Seq<TrackObjectV>,
}

impl View for SessionState {
    type V = SessionStateV;

    open spec fn view(&self) -> SessionStateV {
        SessionStateV { tracks: view_tracks(self.tracks@) }
    }
}

} // verus!
