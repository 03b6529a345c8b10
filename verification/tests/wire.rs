use calls_client::parse::{
    parse_new_session_response, parse_session_description, parse_track_object,
    parse_tracks_request, parse_tracks_response, parse_session_state,
};
use calls_client::schema::{
    CloseTracksRequest, NewSessionRequest, NewSessionResponse, SdpType, SessionDescription,
    SessionState, TrackLocation, TrackObject, TracksRequest, TracksResponse,
};

fn full_track() -> TrackObject {
    TrackObject {
        location: Some(TrackLocation::Local),
        mid: Some("7".to_string()),
        track_name: Some("mic".to_string()),
        session_id: Some("peer".to_string()),
    }
}

fn empty_track() -> TrackObject {
    TrackObject { location: None, mid: None, track_name: None, session_id: None }
}

#[test]
fn empty_track_serializes_to_empty_object() {
    assert_eq!(empty_track().to_json(), "{}");
}

#[test]
fn empty_track_round_trips_with_all_fields_absent() {
    let parsed = parse_track_object("{}").unwrap();
    assert!(parsed.location.is_none());
    assert!(parsed.mid.is_none());
    assert!(parsed.track_name.is_none());
    assert!(parsed.session_id.is_none());
}

#[test]
fn full_track_serializes_in_canonical_order() {
    assert_eq!(
        full_track().to_json(),
        "{\"location\":\"local\",\"mid\":\"7\",\"trackName\":\"mic\",\"sessionId\":\"peer\"}"
    );
}

#[test]
fn track_round_trips() {
    let t = full_track();
    assert_eq!(parse_track_object(&t.to_json()), Some(t));

    let partial = TrackObject {
        location: Some(TrackLocation::Remote),
        mid: None,
        track_name: Some("cam".to_string()),
        session_id: None,
    };
    assert_eq!(parse_track_object(&partial.to_json()), Some(partial));
}

#[test]
fn string_escapes_round_trip() {
    let t = TrackObject {
        location: None,
        mid: None,
        track_name: Some("a\"b\\c\nd\re\tf\u{1}g".to_string()),
        session_id: None,
    };
    let json = t.to_json();
    assert_eq!(json, "{\"trackName\":\"a\\\"b\\\\c\\nd\\re\\tf\\u0001g\"}");
    assert_eq!(parse_track_object(&json), Some(t));
}

#[test]
fn session_description_round_trips() {
    let d = SessionDescription { sdp_type: SdpType::Answer, sdp: "v=0\r\no=-".to_string() };
    let json = d.to_json();
    assert_eq!(json, "{\"type\":\"answer\",\"sdp\":\"v=0\\r\\no=-\"}");
    assert_eq!(parse_session_description(&json), Some(d));
}

#[test]
fn tracks_request_without_description_round_trips() {
    let r = TracksRequest { session_description: None, tracks: vec![empty_track(), full_track()] };
    let json = r.to_json();
    assert!(!json.contains("sessionDescription"));
    assert_eq!(parse_tracks_request(&json), Some(r));
}

#[test]
fn tracks_request_with_description_round_trips() {
    let r = TracksRequest {
        session_description: Some(SessionDescription {
            sdp_type: SdpType::Offer,
            sdp: "v=0".to_string(),
        }),
        tracks: vec![full_track()],
    };
    assert_eq!(parse_tracks_request(&r.to_json()), Some(r));
}

#[test]
fn new_session_request_serializes() {
    let r = NewSessionRequest {
        session_description: SessionDescription {
            sdp_type: SdpType::Offer,
            sdp: "v=0".to_string(),
        },
    };
    assert_eq!(r.to_json(), "{\"sessionDescription\":{\"type\":\"offer\",\"sdp\":\"v=0\"}}");
}

#[test]
fn close_tracks_request_serializes_with_force() {
    let r = CloseTracksRequest {
        session_description: SessionDescription {
            sdp_type: SdpType::Offer,
            sdp: "s".to_string(),
        },
        tracks: vec![],
        force: true,
    };
    assert_eq!(
        r.to_json(),
        "{\"sessionDescription\":{\"type\":\"offer\",\"sdp\":\"s\"},\"tracks\":[],\"force\":true}"
    );
}

#[test]
fn new_session_response_round_trips() {
    let v = NewSessionResponse {
        session_description: SessionDescription {
            sdp_type: SdpType::Answer,
            sdp: "x".to_string(),
        },
        session_id: "abc".to_string(),
    };
    assert_eq!(parse_new_session_response(&v.to_json()), Some(v));
}

#[test]
fn tracks_response_round_trips() {
    let with_desc = TracksResponse {
        requires_immediate_renegotiation: false,
        session_description: Some(SessionDescription {
            sdp_type: SdpType::Answer,
            sdp: "x".to_string(),
        }),
        tracks: vec![full_track()],
    };
    assert_eq!(parse_tracks_response(&with_desc.to_json()), Some(with_desc));

    let without_desc = TracksResponse {
        requires_immediate_renegotiation: true,
        session_description: None,
        tracks: vec![],
    };
    assert_eq!(parse_tracks_response(&without_desc.to_json()), Some(without_desc));
}

#[test]
fn session_state_round_trips() {
    let v = SessionState { tracks: vec![empty_track(), full_track()] };
    assert_eq!(parse_session_state(&v.to_json()), Some(v));
}

#[test]
fn parser_accepts_whitespace_between_tokens() {
    let body = "{\"tracks\": [ {\"mid\": \"0\"}, {} ]}";
    let v = parse_session_state(body).unwrap();
    assert_eq!(v.tracks.len(), 2);
    assert_eq!(v.tracks[0].mid.as_deref(), Some("0"));
    assert!(v.tracks[1].mid.is_none());
}

#[test]
fn members_parse_in_any_order() {
    let body = "{\"sessionId\":\"abc\",\"sessionDescription\":{\"sdp\":\"x\",\"type\":\"answer\"}}";
    let v = parse_new_session_response(body).unwrap();
    assert_eq!(v.session_id, "abc");
    assert_eq!(v.session_description.sdp_type, SdpType::Answer);
    assert_eq!(v.session_description.sdp, "x");
}

#[test]
fn unknown_members_are_skipped() {
    let body = "{\"extra\":[{\"deep\":null},-1.5e3,\"s\"],\"mid\":\"0\",\"other\":{\"a\":true}}";
    let t = parse_track_object(body).unwrap();
    assert_eq!(t.mid.as_deref(), Some("0"));
    assert!(t.location.is_none());
}

#[test]
fn null_reads_as_absent() {
    let t = parse_track_object("{\"mid\":null,\"trackName\":\"a\"}").unwrap();
    assert!(t.mid.is_none());
    assert_eq!(t.track_name.as_deref(), Some("a"));
    let r = parse_tracks_request("{\"sessionDescription\":null,\"tracks\":[]}").unwrap();
    assert!(r.session_description.is_none());
}

#[test]
fn standard_escapes_are_accepted() {
    let t = parse_track_object("{\"mid\":\"a\\/b\\b\\f\\u0041\\u00E9\\u0416\"}").unwrap();
    assert_eq!(t.mid.as_deref(), Some("a/b\u{8}\u{c}A\u{e9}\u{416}"));
    assert_eq!(parse_track_object("{\"mid\":\"\\uD800\"}"), None);
}

#[test]
fn parser_rejects_malformed_documents() {
    assert_eq!(parse_track_object(""), None);
    assert_eq!(parse_track_object("{"), None);
    assert_eq!(parse_track_object("{} trailing"), None);
    assert_eq!(parse_track_object("{\"mid\":}"), None);
    assert_eq!(parse_session_description("{\"type\":\"offer\"}"), None);
    assert_eq!(parse_session_description("{\"type\":\"offer\",\"sdp\":\"unterminated}"), None);
    assert_eq!(parse_tracks_request("{\"tracks\":[,]}"), None);
    assert_eq!(parse_new_session_response("{\"sessionId\":\"abc\"}"), None);
}
