//! Executable JSON serialization of the records, proved to produce exactly
//! the canonical form given by the `wire` specifications.

use vstd::prelude::*;
use vstd::string::{StrSliceExecFns, StringExecFns};

use crate::schema::{
    CloseTracksRequest, NewSessionRequest, NewSessionResponse, SdpType, SessionDescription,
    SessionState, TrackLocation, TrackObject, TrackObjectV, TracksRequest, TracksResponse, view_tracks,
};
use crate::wire::{
    esc_char, esc_str, field_key, hex_digit, json_of_bool, json_of_close_tracks_request,
    json_of_location, json_of_new_session_request, json_of_new_session_response,
    json_of_session_description, json_of_session_state, json_of_sdp_type, json_of_string,
    json_of_track, json_of_tracks, json_of_tracks_request, json_of_tracks_response,
    jt_mid, jt_session_id, jt_track_name, jts_rest, key_force, key_location, key_mid,
    key_renegotiation, key_sdp, key_session_description, key_session_id, key_track_name,
    key_tracks, key_type,
};

verus! {

/// The lower-case hex digit of a value below 16.
fn hex_char(n: u8) -> (c: char)
    requires
        n < 16,
    ensures
        c == hex_digit(n as int),
{
    if n == 0 { '0' } else if n == 1 { '1' } else if n == 2 { '2' } else if n == 3 { '3' }
    else if n == 4 { '4' } else if n == 5 { '5' } else if n == 6 { '6' } else if n == 7 { '7' }
    else if n == 8 { '8' } else if n == 9 { '9' } else if n == 10 { 'a' } else if n == 11 { 'b' }
    else if n == 12 { 'c' } else if n == 13 { 'd' } else if n == 14 { 'e' } else { 'f' }
}

/// Append the escaped form of `s` to `out`.
fn push_escaped(out: &mut String, s: &str)
    ensures
        final(out)@ == old(out)@ + esc_str(s@),
{
    let n = s.unicode_len();
    let mut i: usize = 0;
    proof {
        assert(s@.skip(0) =~= s@);
    }
    while i < n
        invariant
            n == s@.len(),
            i <= n,
            out@ + esc_str(s@.skip(i as int)) == old(out)@ + esc_str(s@),
        decreases n - i,
    {
        let c = s.get_char(i);
        proof {
            assert(s@.skip(i as int)[0] == c);
            assert(s@.skip(i as int).skip(1) =~= s@.skip(i as int + 1));
            assert(esc_str(s@.skip(i as int)) == esc_char(c) + esc_str(s@.skip(i as int + 1)));
        }
        if c == '"' {
            out.append("\\\"");
            proof {
                reveal_strlit("\\\"");
                assert("\\\""@ =~= esc_char(c));
            }
        } else if c == '\\' {
            out.append("\\\\");
            proof {
                reveal_strlit("\\\\");
                assert("\\\\"@ =~= esc_char(c));
            }
        } else if c == '\n' {
            out.append("\\n");
            proof {
                reveal_strlit("\\n");
                assert("\\n"@ =~= esc_char(c));
            }
        } else if c == '\r' {
            out.append("\\r");
            proof {
                reveal_strlit("\\r");
                assert("\\r"@ =~= esc_char(c));
            }
        } else if c == '\t' {
            out.append("\\t");
            proof {
                reveal_strlit("\\t");
                assert("\\t"@ =~= esc_char(c));
            }
        } else if (c as u32) < 0x20 {
            let v: u8 = (c as u32) as u8;
            out.push('\\');
            out.push('u');
            out.push('0');
            out.push('0');
            out.push(hex_char(v / 16));
            out.push(hex_char(v % 16));
            proof {
                assert(v as int == c as int);
                assert(seq!['\\', 'u', '0', '0', hex_digit(c as int / 16), hex_digit(c as int % 16)]
                    =~= esc_char(c));
            }
        } else {
            out.push(c);
            proof {
                assert(seq![c] =~= esc_char(c));
            }
        }
        i += 1;
        proof {
            assert(out@ + esc_str(s@.skip(i as int)) =~= old(out)@ + esc_str(s@));
        }
    }
    proof {
        assert(s@.skip(n as int) =~= Seq::<char>::empty());
        assert(out@ =~= old(out)@ + esc_str(s@));
    }
}

/// Append a whole JSON string literal for `s` to `out`.
fn push_json_string(out: &mut String, s: &str)
    ensures
        final(out)@ == old(out)@ + json_of_string(s@),
{
    out.push('"');
    push_escaped(out, s);
    out.push('"');
    proof {
        assert(out@ =~= old(out)@ + json_of_string(s@));
    }
}

/// Append an object member's comma (unless first), quoted name and colon.
pub(crate) fn push_field_key(out: &mut String, first: bool, name: &str)
    ensures
        final(out)@ == old(out)@ + field_key(first, name@),
{
    if !first {
        out.push(',');
    }
    out.push('"');
    out.append(name);
    out.push('"');
    out.push(':');
    proof {
        assert(out@ =~= old(out)@ + field_key(first, name@));
    }
}

fn push_sdp_type(out: &mut String, t: SdpType)
    ensures
        final(out)@ == old(out)@ + json_of_sdp_type(t),
{
    out.push('"');
    match t {
        SdpType::Offer => out.append("offer"),
        SdpType::Answer => out.append("answer"),
    }
    out.push('"');
    proof {
        assert(out@ =~= old(out)@ + json_of_sdp_type(t));
    }
}

fn push_location(out: &mut String, l: TrackLocation)
    ensures
        final(out)@ == old(out)@ + json_of_location(l),
{
    out.push('"');
    match l {
        TrackLocation::Local => out.append("local"),
        TrackLocation::Remote => out.append("remote"),
    }
    out.push('"');
    proof {
        assert(out@ =~= old(out)@ + json_of_location(l));
    }
}

pub(crate) fn push_bool(out: &mut String, b: bool)
    ensures
        final(out)@ == old(out)@ + json_of_bool(b),
{
    if b {
        out.append("true");
    } else {
        out.append("false");
    }
}

fn push_jt_session_id(out: &mut String, t: &TrackObject, first: bool)
    ensures
        final(out)@ == old(out)@ + jt_session_id(t@, first),
{
    if let Some(x) = &t.session_id {
        push_field_key(out, first, "sessionId");
        proof {
            assert("sessionId"@ == key_session_id());
        }
        push_json_string(out, x.as_str());
        proof {
            assert(out@ =~= old(out)@ + jt_session_id(t@, first));
        }
    }
}

fn push_jt_track_name(out: &mut String, t: &TrackObject, first: bool)
    ensures
        final(out)@ == old(out)@ + jt_track_name(t@, first),
{
    if let Some(x) = &t.track_name {
        push_field_key(out, first, "trackName");
        proof {
            assert("trackName"@ == key_track_name());
        }
        push_json_string(out, x.as_str());
        push_jt_session_id(out, t, false);
        proof {
            assert(out@ =~= old(out)@ + jt_track_name(t@, first));
        }
    } else {
        push_jt_session_id(out, t, first);
    }
}

fn push_jt_mid(out: &mut String, t: &TrackObject, first: bool)
    ensures
        final(out)@ == old(out)@ + jt_mid(t@, first),
{
    if let Some(x) = &t.mid {
        push_field_key(out, first, "mid");
        proof {
            assert("mid"@ == key_mid());
        }
        push_json_string(out, x.as_str());
        push_jt_track_name(out, t, false);
        proof {
            assert(out@ =~= old(out)@ + jt_mid(t@, first));
        }
    } else {
        push_jt_track_name(out, t, first);
    }
}

fn push_track(out: &mut String, t: &TrackObject)
    ensures
        final(out)@ == old(out)@ + json_of_track(t@),
{
    out.push('{');
    if let Some(l) = &t.location {
        push_field_key(out, true, "location");
        proof {
            assert("location"@ == key_location());
        }
        push_location(out, *l);
        push_jt_mid(out, t, false);
    } else {
        push_jt_mid(out, t, true);
    }
    out.push('}');
    proof {
        assert(out@ =~= old(out)@ + json_of_track(t@));
    }
}

/// Append the JSON array of `ts` to `out`.
pub(crate) fn push_tracks(out: &mut String, ts: &Vec<TrackObject>)
    ensures
        final(out)@ == old(out)@ + json_of_tracks(view_tracks(ts@)),
{
    let ghost v = view_tracks(ts@);
    out.push('[');
    if ts.len() > 0 {
        push_track(out, &ts[0]);
        proof {
            assert(v[0] == ts@[0]@);
            assert(out@ + jts_rest(v.skip(1)) + seq![']'] =~= old(out)@ + json_of_tracks(v));
        }
        let mut i: usize = 1;
        while i < ts.len()
            invariant
                1 <= i <= ts.len(),
                v == view_tracks(ts@),
                v.len() == ts@.len(),
                out@ + jts_rest(v.skip(i as int)) + seq![']'] == old(out)@ + json_of_tracks(v),
            decreases ts.len() - i,
        {
            out.push(',');
            push_track(out, &ts[i]);
            proof {
                assert(v.skip(i as int)[0] == v[i as int]);
                assert(v[i as int] == ts@[i as int]@);
                assert(v.skip(i as int).skip(1) =~= v.skip(i as int + 1));
                assert(jts_rest(v.skip(i as int)) == seq![','] + json_of_track(v[i as int])
                    + jts_rest(v.skip(i as int + 1)));
            }
            i += 1;
            proof {
                assert(out@ + jts_rest(v.skip(i as int)) + seq![']'] =~= old(out)@
                    + json_of_tracks(v));
            }
        }
        proof {
            assert(v.skip(ts@.len() as int) =~= Seq::<TrackObjectV>::empty());
        }
        out.push(']');
        proof {
            assert(out@ =~= old(out)@ + json_of_tracks(v));
        }
    } else {
        out.push(']');
        proof {
            assert(v.len() == 0);
            assert(out@ =~= old(out)@ + json_of_tracks(v));
        }
    }
}

pub(crate) fn push_session_description(out: &mut String, d: &SessionDescription)
    ensures
        final(out)@ == old(out)@ + json_of_session_description(d@),
{
    out.push('{');
    push_field_key(out, true, "type");
    proof {
        assert("type"@ == key_type());
    }
    push_sdp_type(out, d.sdp_type);
    push_field_key(out, false, "sdp");
    proof {
        assert("sdp"@ == key_sdp());
    }
    push_json_string(out, d.sdp.as_str());
    out.push('}');
    proof {
        assert(out@ =~= old(out)@ + json_of_session_description(d@));
    }
}

impl SessionDescription {
    /// The canonical JSON form of this description.
    pub fn to_json(&self) -> (r: String)
        ensures
            r@ == json_of_session_description(self@),
    {
        let mut out = String::new();
        push_session_description(&mut out, self);
        proof {
            assert(out@ =~= json_of_session_description(self@));
        }
        out
    }
}

impl TrackObject {
    /// The canonical JSON form of this track; absent fields are omitted.
    pub fn to_json(&self) -> (r: String)
        ensures
            r@ == json_of_track(self@),
    {
        let mut out = String::new();
        push_track(&mut out, self);
        proof {
            assert(out@ =~= json_of_track(self@));
        }
        out
    }
}

impl TracksRequest {
    /// The canonical JSON form of this request; an absent description is
    /// omitted entirely, never written as null.
    pub fn to_json(&self) -> (r: String)
        ensures
            r@ == json_of_tracks_request(self@),
    {
        let mut out = String::new();
        out.push('{');
        if let Some(d) = &self.session_description {
            push_field_key(&mut out, true, "sessionDescription");
            proof {
                assert("sessionDescription"@ == key_session_description());
            }
            push_session_description(&mut out, d);
            push_field_key(&mut out, false, "tracks");
        } else {
            push_field_key(&mut out, true, "tracks");
        }
        proof {
            assert("tracks"@ == key_tracks());
        }
        push_tracks(&mut out, &self.tracks);
        out.push('}');
        proof {
            assert(out@ =~= json_of_tracks_request(self@));
        }
        out
    }
}

impl NewSessionRequest {
    /// The canonical JSON form of this request.
    pub fn to_json(&self) -> (r: String)
        ensures
            r@ == json_of_new_session_request(self@),
    {
        let mut out = String::new();
        out.push('{');
        push_field_key(&mut out, true, "sessionDescription");
        proof {
            assert("sessionDescription"@ == key_session_description());
        }
        push_session_description(&mut out, &self.session_description);
        out.push('}');
        proof {
            assert(out@ =~= json_of_new_session_request(self@));
        }
        out
    }
}

impl CloseTracksRequest {
    /// The canonical JSON form of this request.
    pub fn to_json(&self) -> (r: String)
        ensures
            r@ == json_of_close_tracks_request(self@),
    {
        let mut out = String::new();
        out.push('{');
        push_field_key(&mut out, true, "sessionDescription");
        proof {
            assert("sessionDescription"@ == key_session_description());
        }
        push_session_description(&mut out, &self.session_description);
        push_field_key(&mut out, false, "tracks");
        proof {
            assert("tracks"@ == key_tracks());
        }
        push_tracks(&mut out, &self.tracks);
        push_field_key(&mut out, false, "force");
        proof {
            assert("force"@ == key_force());
        }
        push_bool(&mut out, self.force);
        out.push('}');
        proof {
            assert(out@ =~= json_of_close_tracks_request(self@));
        }
        out
    }
}

impl NewSessionResponse {
    /// The canonical JSON form of this response.
    pub fn to_json(&self) -> (r: String)
        ensures
            r@ == json_of_new_session_response(self@),
    {
        let mut out = String::new();
        out.push('{');
        push_field_key(&mut out, true, "sessionDescription");
        proof {
            assert("sessionDescription"@ == key_session_description());
        }
        push_session_description(&mut out, &self.session_description);
        push_field_key(&mut out, false, "sessionId");
        proof {
            assert("sessionId"@ == key_session_id());
        }
        push_json_string(&mut out, self.session_id.as_str());
        out.push('}');
        proof {
            assert(out@ =~= json_of_new_session_response(self@));
        }
        out
    }
}

impl TracksResponse {
    /// The canonical JSON form of this response.
    pub fn to_json(&self) -> (r: String)
        ensures
            r@ == json_of_tracks_response(self@),
    {
        let mut out = String::new();
        out.push('{');
        push_field_key(&mut out, true, "requiresImmediateRenegotiation");
        proof {
            assert("requiresImmediateRenegotiation"@ == key_renegotiation());
        }
        push_bool(&mut out, self.requires_immediate_renegotiation);
        if let Some(d) = &self.session_description {
            push_field_key(&mut out, false, "sessionDescription");
            proof {
                assert("sessionDescription"@ == key_session_description());
            }
            push_session_description(&mut out, d);
        }
        push_field_key(&mut out, false, "tracks");
        proof {
            assert("tracks"@ == key_tracks());
        }
        push_tracks(&mut out, &self.tracks);
        out.push('}');
        proof {
            assert(out@ =~= json_of_tracks_response(self@));
        }
        out
    }
}

impl SessionState {
    /// The canonical JSON form of this state.
    pub fn to_json(&self) -> (r: String)
        ensures
            r@ == json_of_session_state(self@),
    {
        let mut out = String::new();
        out.push('{');
        push_field_key(&mut out, true, "tracks");
        proof {
            assert("tracks"@ == key_tracks());
        }
        push_tracks(&mut out, &self.tracks);
        out.push('}');
        proof {
            assert(out@ =~= json_of_session_state(self@));
        }
        out
    }
}

} // verus!
