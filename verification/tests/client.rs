use calls_client::client::{
    interpret_new_session_response, interpret_renegotiate_response,
    interpret_session_state_response, interpret_tracks_response, is_success, CallsApp, CallsError,
    HttpMethod,
};
use calls_client::schema::{SdpType, SessionDescription, TrackLocation, TrackObject};

fn demo_app() -> CallsApp {
    CallsApp::new(Some("123".to_string()), Some("456".to_string())).unwrap()
}

fn offer(sdp: &str) -> SessionDescription {
    SessionDescription { sdp_type: SdpType::Offer, sdp: sdp.to_string() }
}

#[test]
fn it_works() {
    let app = demo_app();
    assert_eq!(app.app_id, "123");
}

#[test]
fn construction_without_config_fails() {
    assert_eq!(CallsApp::new(None, None), Err(CallsError::Config));
    assert_eq!(CallsApp::new(Some("123".to_string()), None), Err(CallsError::Config));
    assert_eq!(CallsApp::new(None, Some("456".to_string())), Err(CallsError::Config));
}

#[test]
fn construction_sets_identity_and_base_path() {
    let app = demo_app();
    assert_eq!(app.app_id, "123");
    assert_eq!(app.app_secret(), "456");
    assert_eq!(app.base_path(), "https://rtc.live.cloudflare.com/v1/apps/123");
}

#[test]
fn new_session_rejects_answer_locally() {
    let app = demo_app();
    let desc = SessionDescription { sdp_type: SdpType::Answer, sdp: "x".to_string() };
    assert_eq!(app.new_session_request(&desc), Err(CallsError::Validation));
}

#[test]
fn new_session_request_shape() {
    let app = demo_app();
    let req = app.new_session_request(&offer("v=0")).unwrap();
    assert_eq!(req.method, HttpMethod::Post);
    assert_eq!(req.url, "https://rtc.live.cloudflare.com/v1/apps/123/sessions/new");
    assert_eq!(
        req.body.unwrap(),
        "{\"sessionDescription\":{\"type\":\"offer\",\"sdp\":\"v=0\"}}"
    );
}

#[test]
fn add_tracks_request_without_offer_has_no_description_member() {
    let app = demo_app();
    let track = TrackObject {
        location: Some(TrackLocation::Remote),
        mid: None,
        track_name: Some("audio".to_string()),
        session_id: Some("other".to_string()),
    };
    let req = app.add_tracks_request("sess1", vec![track], None);
    assert_eq!(req.method, HttpMethod::Post);
    assert_eq!(
        req.url,
        "https://rtc.live.cloudflare.com/v1/apps/123/sessions/sess1/tracks/new"
    );
    let body = req.body.unwrap();
    assert!(!body.contains("sessionDescription"));
    let round = calls_client::parse::parse_tracks_request(&body).unwrap();
    assert!(round.session_description.is_none());
    assert_eq!(round.tracks.len(), 1);
    assert_eq!(round.tracks[0].track_name.as_deref(), Some("audio"));
}

#[test]
fn add_tracks_request_with_offer_carries_it() {
    let app = demo_app();
    let req = app.add_tracks_request("s", vec![], Some("v=0".to_string()));
    let body = req.body.unwrap();
    assert_eq!(
        body,
        "{\"sessionDescription\":{\"type\":\"offer\",\"sdp\":\"v=0\"},\"tracks\":[]}"
    );
    let round = calls_client::parse::parse_tracks_request(&body).unwrap();
    let desc = round.session_description.unwrap();
    assert_eq!(desc.sdp_type, SdpType::Offer);
    assert_eq!(desc.sdp, "v=0");
}

#[test]
fn renegotiate_request_shape() {
    let app = demo_app();
    let req = app.renegotiate_request("abc", offer("v=1"));
    assert_eq!(req.method, HttpMethod::Put);
    assert_eq!(
        req.url,
        "https://rtc.live.cloudflare.com/v1/apps/123/sessions/abc/renegotiate"
    );
    assert_eq!(
        req.body.unwrap(),
        "{\"sessionDescription\":{\"type\":\"offer\",\"sdp\":\"v=1\"}}"
    );
}

#[test]
fn get_session_state_request_has_no_body() {
    let app = demo_app();
    let req = app.get_session_state_request("abc");
    assert_eq!(req.method, HttpMethod::Get);
    assert_eq!(req.url, "https://rtc.live.cloudflare.com/v1/apps/123/sessions/abc");
    assert!(req.body.is_none());
}

#[test]
fn close_tracks_request_shape() {
    let app = demo_app();
    let req = app.close_tracks_request("abc", vec![], None);
    assert_eq!(req.method, HttpMethod::Post);
    assert_eq!(
        req.url,
        "https://rtc.live.cloudflare.com/v1/apps/123/sessions/abc/tracks/close"
    );
    assert_eq!(req.body.unwrap(), "{\"tracks\":[]}");
}

#[test]
fn status_success_boundaries() {
    assert!(!is_success(199));
    assert!(is_success(200));
    assert!(is_success(201));
    assert!(is_success(299));
    assert!(!is_success(300));
    assert!(!is_success(500));
}

#[test]
fn non_success_new_session_surfaces_failure() {
    let r = interpret_new_session_response(500, "boom");
    assert_eq!(r, Err(CallsError::Api { status: 500, body: "boom".to_string() }));
}

#[test]
fn mocked_new_session_exchange() {
    let body = "{\"sessionDescription\": {\"type\":\"answer\",\"sdp\":\"x\"}, \"sessionId\":\"abc\"}";
    let resp = interpret_new_session_response(201, body).unwrap();
    assert_eq!(resp.session_id, "abc");
    assert_eq!(resp.session_description.sdp_type, SdpType::Answer);
    assert_eq!(resp.session_description.sdp, "x");
}

#[test]
fn success_with_malformed_body_is_a_parse_error() {
    assert_eq!(interpret_new_session_response(200, "garbage"), Err(CallsError::Parse));
    assert_eq!(interpret_tracks_response(200, "{}"), Err(CallsError::Parse));
    assert_eq!(interpret_session_state_response(200, "[1,2]"), Err(CallsError::Parse));
}

#[test]
fn tracks_response_exchange() {
    let body = "{\"requiresImmediateRenegotiation\":true,\"tracks\":[{\"mid\":\"0\"}]}";
    let resp = interpret_tracks_response(200, body).unwrap();
    assert!(resp.requires_immediate_renegotiation);
    assert!(resp.session_description.is_none());
    assert_eq!(resp.tracks.len(), 1);
    assert_eq!(resp.tracks[0].mid.as_deref(), Some("0"));

    let err = interpret_tracks_response(404, "no such session");
    assert_eq!(err, Err(CallsError::Api { status: 404, body: "no such session".to_string() }));
}

#[test]
fn renegotiate_exchange() {
    assert_eq!(interpret_renegotiate_response(200, ""), Ok(()));
    assert_eq!(
        interpret_renegotiate_response(400, "bad sdp"),
        Err(CallsError::Api { status: 400, body: "bad sdp".to_string() })
    );
}

#[test]
fn session_state_exchange() {
    let body = "{\"tracks\":[{\"location\":\"local\",\"trackName\":\"cam\"}]}";
    let state = interpret_session_state_response(200, body).unwrap();
    assert_eq!(state.tracks.len(), 1);
    assert_eq!(state.tracks[0].location, Some(TrackLocation::Local));
    assert_eq!(state.tracks[0].track_name.as_deref(), Some("cam"));
}
