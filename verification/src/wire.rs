//! The JSON wire format of the API, as mathematical functions.
//!
//! `json_of_*` gives the canonical serialized form of each record: keys in a
//! fixed order, absent optional fields omitted entirely (never emitted as
//! null), no whitespace. `sp_*` gives the grammar the parser accepts, which
//! reads objects with JSON object semantics and so takes every encoding of a
//! record, the canonical one included. Each `sp_*` function consumes a
//! prefix of its input and returns the parsed value together with the
//! remaining input, or `None` when the input does not start with a
//! well-formed record.

use vstd::prelude::*;

use crate::schema::{
    CloseTracksRequestV, NewSessionRequestV, NewSessionResponseV, SdpType, SessionDescriptionV,
    SessionStateV, TrackLocation, TrackObjectV, TracksRequestV, TracksResponseV,
};

verus! {

// ---------------------------------------------------------------------------
// Field names and enum spellings
// ---------------------------------------------------------------------------
pub open spec fn key_type() -> Seq<char> {
    "type"@
}

pub open spec fn key_sdp() -> Seq<char> {
    "sdp"@
}

pub open spec fn key_location() -> Seq<char> {
    "location"@
}

pub open spec fn key_mid() -> Seq<char> {
    "mid"@
}

pub open spec fn key_track_name() -> Seq<char> {
    "trackName"@
}

pub open spec fn key_session_id() -> Seq<char> {
    "sessionId"@
}

pub open spec fn key_session_description() -> Seq<char> {
    "sessionDescription"@
}

pub open spec fn key_tracks() -> Seq<char> {
    "tracks"@
}

pub open spec fn key_force() -> Seq<char> {
    "force"@
}

pub open spec fn key_renegotiation() -> Seq<char> {
    "requiresImmediateRenegotiation"@
}

pub open spec fn json_of_sdp_type(t: SdpType) -> Seq<char> {
    match t {
        SdpType::Offer => seq!['"'] + "offer"@ + seq!['"'],
        SdpType::Answer => seq!['"'] + "answer"@ + seq!['"'],
    }
}

pub open spec fn json_of_location(l: TrackLocation) -> Seq<char> {
    match l {
        TrackLocation::Local => seq!['"'] + "local"@ + seq!['"'],
        TrackLocation::Remote => seq!['"'] + "remote"@ + seq!['"'],
    }
}

pub open spec fn json_of_bool(b: bool) -> Seq<char> {
    if b {
        "true"@
    } else {
        "false"@
    }
}

// ---------------------------------------------------------------------------
// String escaping
// ---------------------------------------------------------------------------
/// The lower-case hex digit of a value below 16.
pub open spec fn hex_digit(n: int) -> char {
    if n == 0 { '0' } else if n == 1 { '1' } else if n == 2 { '2' } else if n == 3 { '3' }
    else if n == 4 { '4' } else if n == 5 { '5' } else if n == 6 { '6' } else if n == 7 { '7' }
    else if n == 8 { '8' } else if n == 9 { '9' } else if n == 10 { 'a' } else if n == 11 { 'b' }
    else if n == 12 { 'c' } else if n == 13 { 'd' } else if n == 14 { 'e' } else { 'f' }
}

/// The value of a hex digit in either case, or -1 for any other character.
pub open spec fn unhex(c: char) -> int {
    if c == '0' { 0 } else if c == '1' { 1 } else if c == '2' { 2 } else if c == '3' { 3 }
    else if c == '4' { 4 } else if c == '5' { 5 } else if c == '6' { 6 } else if c == '7' { 7 }
    else if c == '8' { 8 } else if c == '9' { 9 } else if c == 'a' { 10 } else if c == 'b' { 11 }
    else if c == 'c' { 12 } else if c == 'd' { 13 } else if c == 'e' { 14 } else if c == 'f' { 15 }
    else if c == 'A' { 10 } else if c == 'B' { 11 } else if c == 'C' { 12 } else if c == 'D' { 13 }
    else if c == 'E' { 14 } else if c == 'F' { 15 }
    else { -1 }
}

/// How one character appears inside a JSON string literal.
pub open spec fn esc_char(c: char) -> Seq<char> {
    if c == '"' {
        seq!['\\', '"']
    } else if c == '\\' {
        seq!['\\', '\\']
    } else if c == '\n' {
        seq!['\\', 'n']
    } else if c == '\r' {
        seq!['\\', 'r']
    } else if c == '\t' {
        seq!['\\', 't']
    } else if (c as u32) < 0x20 {
        seq!['\\', 'u', '0', '0', hex_digit(c as int / 16), hex_digit(c as int % 16)]
    } else {
        seq![c]
    }
}

pub open spec fn esc_str(s: Seq<char>) -> Seq<char>
    decreases s.len(),
{
    if s.len() == 0 {
        Seq::<char>::empty()
    } else {
        esc_char(s[0]) + esc_str(s.skip(1))
    }
}

/// A whole JSON string literal: quotes around the escaped content.
pub open spec fn json_of_string(s: Seq<char>) -> Seq<char> {
    seq!['"'] + esc_str(s) + seq!['"']
}

// ---------------------------------------------------------------------------
// Serialization of the records
// ---------------------------------------------------------------------------
/// The key part of an object member: a leading comma unless this is the
/// first member, then the quoted name and the colon.
pub open spec fn field_key(first: bool, name: Seq<char>) -> Seq<char> {
    (if first {
        Seq::<char>::empty()
    } else {
        seq![',']
    }) + seq!['"'] + name + seq!['"', ':']
}

pub open spec fn json_of_session_description(d: SessionDescriptionV) -> Seq<char> {
    seq!['{'] + field_key(true, key_type()) + json_of_sdp_type(d.sdp_type) + field_key(
        false,
        key_sdp(),
    ) + json_of_string(d.sdp) + seq!['}']
}

pub open spec fn jt_session_id(t: TrackObjectV, first: bool) -> Seq<char> {
    match t.session_id {
        Some(x) => field_key(first, key_session_id()) + json_of_string(x),
        None => Seq::<char>::empty(),
    }
}

pub open spec fn jt_track_name(t: TrackObjectV, first: bool) -> Seq<char> {
    match t.track_name {
        Some(x) => field_key(first, key_track_name()) + json_of_string(x) + jt_session_id(
            t,
            false,
        ),
        None => jt_session_id(t, first),
    }
}

pub open spec fn jt_mid(t: TrackObjectV, first: bool) -> Seq<char> {
    match t.mid {
        Some(x) => field_key(first, key_mid()) + json_of_string(x) + jt_track_name(t, false),
        None => jt_track_name(t, first),
    }
}

pub open spec fn jt_location(t: TrackObjectV) -> Seq<char> {
    match t.location {
        Some(l) => field_key(true, key_location()) + json_of_location(l) + jt_mid(t, false),
        None => jt_mid(t, true),
    }
}

pub open spec fn json_of_track(t: TrackObjectV) -> Seq<char> {
    seq!['{'] + jt_location(t) + seq!['}']
}

pub open spec fn jts_rest(ts: Seq<TrackObjectV>) -> Seq<char>
    decreases ts.len(),
{
    if ts.len() == 0 {
        Seq::<char>::empty()
    } else {
        seq![','] + json_of_track(ts[0]) + jts_rest(ts.skip(1))
    }
}

pub open spec fn jts_items(ts: Seq<TrackObjectV>) -> Seq<char> {
    if ts.len() == 0 {
        Seq::<char>::empty()
    } else {
        json_of_track(ts[0]) + jts_rest(ts.skip(1))
    }
}

pub open spec fn json_of_tracks(ts: Seq<TrackObjectV>) -> Seq<char> {
    seq!['['] + jts_items(ts) + seq![']']
}

pub open spec fn json_of_tracks_request(r: TracksRequestV) -> Seq<char> {
    seq!['{'] + (match r.session_description {
        Some(d) => field_key(true, key_session_description()) + json_of_session_description(d)
            + field_key(false, key_tracks()),
        None => field_key(true, key_tracks()),
    }) + json_of_tracks(r.tracks) + seq!['}']
}

pub open spec fn json_of_new_session_request(r: NewSessionRequestV) -> Seq<char> {
    seq!['{'] + field_key(true, key_session_description()) + json_of_session_description(
        r.session_description,
    ) + seq!['}']
}

pub open spec fn json_of_new_session_response(r: NewSessionResponseV) -> Seq<char> {
    seq!['{'] + field_key(true, key_session_description()) + json_of_session_description(
        r.session_description,
    ) + field_key(false, key_session_id()) + json_of_string(r.session_id) + seq!['}']
}

pub open spec fn json_of_tracks_response(r: TracksResponseV) -> Seq<char> {
    seq!['{'] + field_key(true, key_renegotiation()) + json_of_bool(
        r.requires_immediate_renegotiation,
    ) + (match r.session_description {
        Some(d) => field_key(false, key_session_description()) + json_of_session_description(d),
        None => Seq::<char>::empty(),
    }) + field_key(false, key_tracks()) + json_of_tracks(r.tracks) + seq!['}']
}

pub open spec fn json_of_close_tracks_request(r: CloseTracksRequestV) -> Seq<char> {
    seq!['{'] + field_key(true, key_session_description()) + json_of_session_description(
        r.session_description,
    ) + field_key(false, key_tracks()) + json_of_tracks(r.tracks) + field_key(false, key_force())
        + json_of_bool(r.force) + seq!['}']
}

pub open spec fn json_of_session_state(s: SessionStateV) -> Seq<char> {
    seq!['{'] + field_key(true, key_tracks()) + json_of_tracks(s.tracks) + seq!['}']
}

// ---------------------------------------------------------------------------
// The accepted grammar: JSON object semantics. Members may come in any
// order, unknown members are skipped, `null` for an optional member means
// the member is absent, member names may use string escapes, and string
// literals accept the standard JSON escapes (with `\uXXXX` limited to
// non-surrogate code points, so astral characters must appear directly).
// A duplicated member keeps its last value.
// ---------------------------------------------------------------------------
pub open spec fn is_ws(c: char) -> bool {
    c == ' ' || c == '\t' || c == '\n' || c == '\r'
}

/// Skip leading whitespace.
pub open spec fn sp_ws(s: Seq<char>) -> Seq<char>
    decreases s.len(),
{
    if s.len() > 0 && is_ws(s[0]) {
        sp_ws(s.skip(1))
    } else {
        s
    }
}

/// Consume an exact literal.
pub open spec fn sp_lit(s: Seq<char>, lit: Seq<char>) -> Option<Seq<char>> {
    if lit.len() <= s.len() && s.subrange(0, lit.len() as int) == lit {
        Some(s.skip(lit.len() as int))
    } else {
        None
    }
}

/// The character a one-letter escape stands for, if it is one.
pub open spec fn unescape_simple(c: char) -> Option<char> {
    if c == '"' {
        Some('"')
    } else if c == '\\' {
        Some('\\')
    } else if c == '/' {
        Some('/')
    } else if c == 'b' {
        Some('\u{8}')
    } else if c == 'f' {
        Some('\u{c}')
    } else if c == 'n' {
        Some('\n')
    } else if c == 'r' {
        Some('\r')
    } else if c == 't' {
        Some('\t')
    } else {
        None
    }
}

/// The code point of a `\uXXXX` escape, read from the four hex digits.
pub open spec fn u_esc_val(s: Seq<char>) -> int {
    4096 * unhex(s[2]) + 256 * unhex(s[3]) + 16 * unhex(s[4]) + unhex(s[5])
}

/// The character with code point `v`, for `v` below 0x10000.
pub open spec fn u_esc_char(v: int) -> char {
    if v < 256 {
        (v as u8) as char
    } else {
        (v as u32) as char
    }
}

/// Consume the content and closing quote of a string literal whose opening
/// quote was already consumed; yields the unescaped content.
pub open spec fn sp_str_body(s: Seq<char>) -> Option<(Seq<char>, Seq<char>)>
    decreases s.len(),
{
    if s.len() == 0 {
        None
    } else if s[0] == '"' {
        Some((Seq::<char>::empty(), s.skip(1)))
    } else if s[0] == '\\' {
        if s.len() >= 2 && unescape_simple(s[1]) is Some {
            match sp_str_body(s.skip(2)) {
                Some(p) => Some((seq![unescape_simple(s[1])->0] + p.0, p.1)),
                None => None,
            }
        } else if s.len() >= 6 && s[1] == 'u' && unhex(s[2]) >= 0 && unhex(s[3]) >= 0 && unhex(
            s[4],
        ) >= 0 && unhex(s[5]) >= 0 && (u_esc_val(s) < 0xD800 || u_esc_val(s) >= 0xE000) {
            match sp_str_body(s.skip(6)) {
                Some(p) => Some((seq![u_esc_char(u_esc_val(s))] + p.0, p.1)),
                None => None,
            }
        } else {
            None
        }
    } else if (s[0] as u32) >= 0x20 {
        match sp_str_body(s.skip(1)) {
            Some(p) => Some((seq![s[0]] + p.0, p.1)),
            None => None,
        }
    } else {
        None
    }
}

/// Consume a whole string literal; yields the unescaped content.
pub open spec fn sp_string(s: Seq<char>) -> Option<(Seq<char>, Seq<char>)> {
    match sp_lit(s, seq!['"']) {
        Some(r) => sp_str_body(r),
        None => None,
    }
}

pub open spec fn sp_bool(s: Seq<char>) -> Option<(bool, Seq<char>)> {
    match sp_lit(s, json_of_bool(true)) {
        Some(r) => Some((true, r)),
        None => match sp_lit(s, json_of_bool(false)) {
            Some(r) => Some((false, r)),
            None => None,
        },
    }
}

pub open spec fn lit_null() -> Seq<char> {
    "null"@
}

pub open spec fn sp_sdp_type(s: Seq<char>) -> Option<(SdpType, Seq<char>)> {
    match sp_lit(s, json_of_sdp_type(SdpType::Offer)) {
        Some(r) => Some((SdpType::Offer, r)),
        None => match sp_lit(s, json_of_sdp_type(SdpType::Answer)) {
            Some(r) => Some((SdpType::Answer, r)),
            None => None,
        },
    }
}

pub open spec fn sp_location(s: Seq<char>) -> Option<(TrackLocation, Seq<char>)> {
    match sp_lit(s, json_of_location(TrackLocation::Local)) {
        Some(r) => Some((TrackLocation::Local, r)),
        None => match sp_lit(s, json_of_location(TrackLocation::Remote)) {
            Some(r) => Some((TrackLocation::Remote, r)),
            None => None,
        },
    }
}

/// Consume a member name (a string literal, so escaped names are decoded)
/// and its colon, with whitespace allowed around the colon; yields the
/// decoded name.
pub open spec fn sp_member_name(s: Seq<char>) -> Option<(Seq<char>, Seq<char>)> {
    match sp_string(s) {
        Some(p) => {
            let r = sp_ws(p.1);
            match sp_lit(r, seq![':']) {
                Some(r2) => Some((p.0, sp_ws(r2))),
                None => None,
            }
        },
        None => None,
    }
}

pub open spec fn is_num_char(c: char) -> bool {
    (48 <= (c as u32) && (c as u32) <= 57) || c == '-' || c == '+' || c == '.' || c == 'e' || c
        == 'E'
}

/// Skip a maximal run of number characters.
pub open spec fn sp_skip_num(s: Seq<char>) -> Seq<char>
    decreases s.len(),
{
    if s.len() > 0 && is_num_char(s[0]) {
        sp_skip_num(s.skip(1))
    } else {
        s
    }
}

/// Skip one JSON value of any shape: the value of an unknown member. The
/// fuel bounds the nesting depth; a nesting level always consumes input, so
/// the fuel the callers pass (the input's length) never runs out on input
/// the grammar otherwise accepts.
pub open spec fn sp_skip_value(s: Seq<char>, fuel: nat) -> Option<Seq<char>>
    decreases fuel,
{
    if fuel == 0 {
        None
    } else if s.len() == 0 {
        None
    } else if s[0] == '"' {
        match sp_string(s) {
            Some(p) => Some(p.1),
            None => None,
        }
    } else if s[0] == '{' {
        let r = sp_ws(s.skip(1));
        match sp_lit(r, seq!['}']) {
            Some(r2) => Some(r2),
            None => sp_skip_members(r, (fuel - 1) as nat),
        }
    } else if s[0] == '[' {
        let r = sp_ws(s.skip(1));
        match sp_lit(r, seq![']']) {
            Some(r2) => Some(r2),
            None => sp_skip_items(r, (fuel - 1) as nat),
        }
    } else {
        match sp_lit(s, json_of_bool(true)) {
            Some(r) => Some(r),
            None => match sp_lit(s, json_of_bool(false)) {
                Some(r) => Some(r),
                None => match sp_lit(s, lit_null()) {
                    Some(r) => Some(r),
                    None => if is_num_char(s[0]) {
                        Some(sp_skip_num(s))
                    } else {
                        None
                    },
                },
            },
        }
    }
}

/// Skip the members of an unknown object, positioned at a member name.
pub open spec fn sp_skip_members(s: Seq<char>, fuel: nat) -> Option<Seq<char>>
    decreases fuel,
{
    if fuel == 0 {
        None
    } else {
        match sp_member_name(s) {
            Some(p) => match sp_skip_value(p.1, (fuel - 1) as nat) {
                Some(r2) => {
                    let r3 = sp_ws(r2);
                    match sp_lit(r3, seq![',']) {
                        Some(r4) => sp_skip_members(sp_ws(r4), (fuel - 1) as nat),
                        None => match sp_lit(r3, seq!['}']) {
                            Some(r5) => Some(r5),
                            None => None,
                        },
                    }
                },
                None => None,
            },
            None => None,
        }
    }
}

/// Skip the items of an unknown array, positioned at an item.
pub open spec fn sp_skip_items(s: Seq<char>, fuel: nat) -> Option<Seq<char>>
    decreases fuel,
{
    if fuel == 0 {
        None
    } else {
        match sp_skip_value(s, (fuel - 1) as nat) {
            Some(r) => {
                let r3 = sp_ws(r);
                match sp_lit(r3, seq![',']) {
                    Some(r4) => sp_skip_items(sp_ws(r4), (fuel - 1) as nat),
                    None => match sp_lit(r3, seq![']']) {
                        Some(r5) => Some(r5),
                        None => None,
                    },
                }
            },
            None => None,
        }
    }
}

// ---------------------------------------------------------------------------
// The records, each as a scan over its object's members. `sp_X_members`
// stands at a member name; `sp_X_after` stands after a member's value and
// takes the separating comma or the closing brace. A member always consumes
// input, so each recursive step checks that the remainder shrank; on input
// where it would not (which no text reaches), the scan rejects.
// ---------------------------------------------------------------------------
pub open spec fn sp_sd_members(s: Seq<char>, t: Option<SdpType>, sdp: Option<Seq<char>>) -> Option<
    (SessionDescriptionV, Seq<char>),
>
    decreases s.len(),
{
    match sp_member_name(s) {
        Some(p) => {
            let step = if p.0 == key_type() {
                match sp_sdp_type(p.1) {
                    Some(q) => Some((Some(q.0), sdp, q.1)),
                    None => None,
                }
            } else if p.0 == key_sdp() {
                match sp_string(p.1) {
                    Some(q) => Some((t, Some(q.0), q.1)),
                    None => None,
                }
            } else {
                match sp_skip_value(p.1, p.1.len()) {
                    Some(r2) => Some((t, sdp, r2)),
                    None => None,
                }
            };
            match step {
                Some(st) => if st.2.len() < s.len() {
                    sp_sd_after(st.2, st.0, st.1)
                } else {
                    None
                },
                None => None,
            }
        },
        None => None,
    }
}

pub open spec fn sp_sd_after(s: Seq<char>, t: Option<SdpType>, sdp: Option<Seq<char>>) -> Option<
    (SessionDescriptionV, Seq<char>),
>
    decreases s.len(),
{
    let s0 = sp_ws(s);
    match sp_lit(s0, seq![',']) {
        Some(r) => {
            let nxt = sp_ws(r);
            if nxt.len() < s.len() {
                sp_sd_members(nxt, t, sdp)
            } else {
                None
            }
        },
        None => match sp_lit(s0, seq!['}']) {
            Some(r) => match (t, sdp) {
                (Some(tv), Some(sv)) => Some((SessionDescriptionV { sdp_type: tv, sdp: sv }, r)),
                _ => None,
            },
            None => None,
        },
    }
}

pub open spec fn sp_session_description(s: Seq<char>) -> Option<(SessionDescriptionV, Seq<char>)> {
    match sp_lit(s, seq!['{']) {
        Some(s1) => {
            let s2 = sp_ws(s1);
            match sp_lit(s2, seq!['}']) {
                Some(_) => None,
                None => sp_sd_members(s2, None, None),
            }
        },
        None => None,
    }
}

/// One member of a track object: the name, the dispatched value, and the
/// updated record.
pub open spec fn sp_track_step(s: Seq<char>, acc: TrackObjectV) -> Option<
    (TrackObjectV, Seq<char>),
> {
    match sp_member_name(s) {
        Some(p) => {
            if p.0 == key_location() {
                match sp_lit(p.1, lit_null()) {
                    Some(r2) => Some((TrackObjectV { location: None, ..acc }, r2)),
                    None => match sp_location(p.1) {
                        Some(q) => Some((TrackObjectV { location: Some(q.0), ..acc }, q.1)),
                        None => None,
                    },
                }
            } else if p.0 == key_mid() {
                match sp_lit(p.1, lit_null()) {
                    Some(r2) => Some((TrackObjectV { mid: None, ..acc }, r2)),
                    None => match sp_string(p.1) {
                        Some(q) => Some((TrackObjectV { mid: Some(q.0), ..acc }, q.1)),
                        None => None,
                    },
                }
            } else if p.0 == key_track_name() {
                match sp_lit(p.1, lit_null()) {
                    Some(r2) => Some((TrackObjectV { track_name: None, ..acc }, r2)),
                    None => match sp_string(p.1) {
                        Some(q) => Some((TrackObjectV { track_name: Some(q.0), ..acc }, q.1)),
                        None => None,
                    },
                }
            } else if p.0 == key_session_id() {
                match sp_lit(p.1, lit_null()) {
                    Some(r2) => Some((TrackObjectV { session_id: None, ..acc }, r2)),
                    None => match sp_string(p.1) {
                        Some(q) => Some((TrackObjectV { session_id: Some(q.0), ..acc }, q.1)),
                        None => None,
                    },
                }
            } else {
                match sp_skip_value(p.1, p.1.len()) {
                    Some(r2) => Some((acc, r2)),
                    None => None,
                }
            }
        },
        None => None,
    }
}

pub open spec fn sp_track_members(s: Seq<char>, acc: TrackObjectV) -> Option<
    (TrackObjectV, Seq<char>),
>
    decreases s.len(),
{
    match sp_track_step(s, acc) {
        Some(st) => if st.1.len() < s.len() {
            sp_track_after(st.1, st.0)
        } else {
            None
        },
        None => None,
    }
}

pub open spec fn sp_track_after(s: Seq<char>, acc: TrackObjectV) -> Option<
    (TrackObjectV, Seq<char>),
>
    decreases s.len(),
{
    let s0 = sp_ws(s);
    match sp_lit(s0, seq![',']) {
        Some(r) => {
            let nxt = sp_ws(r);
            if nxt.len() < s.len() {
                sp_track_members(nxt, acc)
            } else {
                None
            }
        },
        None => match sp_lit(s0, seq!['}']) {
            Some(r) => Some((acc, r)),
            None => None,
        },
    }
}

pub open spec fn empty_track() -> TrackObjectV {
    TrackObjectV { location: None, mid: None, track_name: None, session_id: None }
}

pub open spec fn sp_track(s: Seq<char>) -> Option<(TrackObjectV, Seq<char>)> {
    match sp_lit(s, seq!['{']) {
        Some(s1) => {
            let s2 = sp_ws(s1);
            match sp_lit(s2, seq!['}']) {
                Some(r) => Some((empty_track(), r)),
                None => sp_track_members(s2, empty_track()),
            }
        },
        None => None,
    }
}

pub open spec fn sp_tracks_rest(s: Seq<char>) -> Option<(Seq<TrackObjectV>, Seq<char>)>
    decreases s.len(),
    via sp_tracks_rest_decreases
{
    let s0 = sp_ws(s);
    match sp_lit(s0, seq![']']) {
        Some(r) => Some((Seq::<TrackObjectV>::empty(), r)),
        None => match sp_lit(s0, seq![',']) {
            Some(s1) => match sp_track(sp_ws(s1)) {
                Some(p) => match sp_tracks_rest(p.1) {
                    Some(q) => Some((seq![p.0] + q.0, q.1)),
                    None => None,
                },
                None => None,
            },
            None => None,
        },
    }
}

#[via_fn]
proof fn sp_tracks_rest_decreases(s: Seq<char>) {
    let s0 = sp_ws(s);
    lemma_sp_ws_len(s);
    if sp_lit(s0, seq![']']) is None {
        if let Some(s1) = sp_lit(s0, seq![',']) {
            lemma_sp_ws_len(s1);
            lemma_sp_track_len(sp_ws(s1));
        }
    }
}

pub open spec fn sp_tracks(s: Seq<char>) -> Option<(Seq<TrackObjectV>, Seq<char>)> {
    match sp_lit(s, seq!['[']) {
        Some(s1) => {
            let s2 = sp_ws(s1);
            match sp_lit(s2, seq![']']) {
                Some(r) => Some((Seq::<TrackObjectV>::empty(), r)),
                None => match sp_track(s2) {
                    Some(p) => match sp_tracks_rest(p.1) {
                        Some(q) => Some((seq![p.0] + q.0, q.1)),
                        None => None,
                    },
                    None => None,
                },
            }
        },
        None => None,
    }
}

pub open spec fn sp_tr_members(
    s: Seq<char>,
    desc: Option<SessionDescriptionV>,
    tracks: Option<Seq<TrackObjectV>>,
) -> Option<(TracksRequestV, Seq<char>)>
    decreases s.len(),
{
    match sp_member_name(s) {
        Some(p) => {
            let step = if p.0 == key_session_description() {
                match sp_lit(p.1, lit_null()) {
                    Some(r2) => Some((None, tracks, r2)),
                    None => match sp_session_description(p.1) {
                        Some(q) => Some((Some(q.0), tracks, q.1)),
                        None => None,
                    },
                }
            } else if p.0 == key_tracks() {
                match sp_tracks(p.1) {
                    Some(q) => Some((desc, Some(q.0), q.1)),
                    None => None,
                }
            } else {
                match sp_skip_value(p.1, p.1.len()) {
                    Some(r2) => Some((desc, tracks, r2)),
                    None => None,
                }
            };
            match step {
                Some(st) => if st.2.len() < s.len() {
                    sp_tr_after(st.2, st.0, st.1)
                } else {
                    None
                },
                None => None,
            }
        },
        None => None,
    }
}

pub open spec fn sp_tr_after(
    s: Seq<char>,
    desc: Option<SessionDescriptionV>,
    tracks: Option<Seq<TrackObjectV>>,
) -> Option<(TracksRequestV, Seq<char>)>
    decreases s.len(),
{
    let s0 = sp_ws(s);
    match sp_lit(s0, seq![',']) {
        Some(r) => {
            let nxt = sp_ws(r);
            if nxt.len() < s.len() {
                sp_tr_members(nxt, desc, tracks)
            } else {
                None
            }
        },
        None => match sp_lit(s0, seq!['}']) {
            Some(r) => match tracks {
                Some(ts) => Some((TracksRequestV { session_description: desc, tracks: ts }, r)),
                None => None,
            },
            None => None,
        },
    }
}

pub open spec fn sp_tracks_request(s: Seq<char>) -> Option<(TracksRequestV, Seq<char>)> {
    match sp_lit(s, seq!['{']) {
        Some(s1) => {
            let s2 = sp_ws(s1);
            match sp_lit(s2, seq!['}']) {
                Some(_) => None,
                None => sp_tr_members(s2, None, None),
            }
        },
        None => None,
    }
}

pub open spec fn sp_nsr_members(
    s: Seq<char>,
    desc: Option<SessionDescriptionV>,
    sid: Option<Seq<char>>,
) -> Option<(NewSessionResponseV, Seq<char>)>
    decreases s.len(),
{
    match sp_member_name(s) {
        Some(p) => {
            let step = if p.0 == key_session_description() {
                match sp_session_description(p.1) {
                    Some(q) => Some((Some(q.0), sid, q.1)),
                    None => None,
                }
            } else if p.0 == key_session_id() {
                match sp_string(p.1) {
                    Some(q) => Some((desc, Some(q.0), q.1)),
                    None => None,
                }
            } else {
                match sp_skip_value(p.1, p.1.len()) {
                    Some(r2) => Some((desc, sid, r2)),
                    None => None,
                }
            };
            match step {
                Some(st) => if st.2.len() < s.len() {
                    sp_nsr_after(st.2, st.0, st.1)
                } else {
                    None
                },
                None => None,
            }
        },
        None => None,
    }
}

pub open spec fn sp_nsr_after(
    s: Seq<char>,
    desc: Option<SessionDescriptionV>,
    sid: Option<Seq<char>>,
) -> Option<(NewSessionResponseV, Seq<char>)>
    decreases s.len(),
{
    let s0 = sp_ws(s);
    match sp_lit(s0, seq![',']) {
        Some(r) => {
            let nxt = sp_ws(r);
            if nxt.len() < s.len() {
                sp_nsr_members(nxt, desc, sid)
            } else {
                None
            }
        },
        None => match sp_lit(s0, seq!['}']) {
            Some(r) => match (desc, sid) {
                (Some(d), Some(i)) => Some(
                    (NewSessionResponseV { session_description: d, session_id: i }, r),
                ),
                _ => None,
            },
            None => None,
        },
    }
}

pub open spec fn sp_new_session_response(s: Seq<char>) -> Option<(NewSessionResponseV, Seq<char>)> {
    match sp_lit(s, seq!['{']) {
        Some(s1) => {
            let s2 = sp_ws(s1);
            match sp_lit(s2, seq!['}']) {
                Some(_) => None,
                None => sp_nsr_members(s2, None, None),
            }
        },
        None => None,
    }
}

pub open spec fn sp_trr_members(
    s: Seq<char>,
    rir: Option<bool>,
    desc: Option<SessionDescriptionV>,
    tracks: Option<Seq<TrackObjectV>>,
) -> Option<(TracksResponseV, Seq<char>)>
    decreases s.len(),
{
    match sp_member_name(s) {
        Some(p) => {
            let step = if p.0 == key_renegotiation() {
                match sp_bool(p.1) {
                    Some(q) => Some((Some(q.0), desc, tracks, q.1)),
                    None => None,
                }
            } else if p.0 == key_session_description() {
                match sp_lit(p.1, lit_null()) {
                    Some(r2) => Some((rir, None, tracks, r2)),
                    None => match sp_session_description(p.1) {
                        Some(q) => Some((rir, Some(q.0), tracks, q.1)),
                        None => None,
                    },
                }
            } else if p.0 == key_tracks() {
                match sp_tracks(p.1) {
                    Some(q) => Some((rir, desc, Some(q.0), q.1)),
                    None => None,
                }
            } else {
                match sp_skip_value(p.1, p.1.len()) {
                    Some(r2) => Some((rir, desc, tracks, r2)),
                    None => None,
                }
            };
            match step {
                Some(st) => if st.3.len() < s.len() {
                    sp_trr_after(st.3, st.0, st.1, st.2)
                } else {
                    None
                },
                None => None,
            }
        },
        None => None,
    }
}

pub open spec fn sp_trr_after(
    s: Seq<char>,
    rir: Option<bool>,
    desc: Option<SessionDescriptionV>,
    tracks: Option<Seq<TrackObjectV>>,
) -> Option<(TracksResponseV, Seq<char>)>
    decreases s.len(),
{
    let s0 = sp_ws(s);
    match sp_lit(s0, seq![',']) {
        Some(r) => {
            let nxt = sp_ws(r);
            if nxt.len() < s.len() {
                sp_trr_members(nxt, rir, desc, tracks)
            } else {
                None
            }
        },
        None => match sp_lit(s0, seq!['}']) {
            Some(r) => match (rir, tracks) {
                (Some(b), Some(ts)) => Some(
                    (
                        TracksResponseV {
                            requires_immediate_renegotiation: b,
                            session_description: desc,
                            tracks: ts,
                        },
                        r,
                    ),
                ),
                _ => None,
            },
            None => None,
        },
    }
}

pub open spec fn sp_tracks_response(s: Seq<char>) -> Option<(TracksResponseV, Seq<char>)> {
    match sp_lit(s, seq!['{']) {
        Some(s1) => {
            let s2 = sp_ws(s1);
            match sp_lit(s2, seq!['}']) {
                Some(_) => None,
                None => sp_trr_members(s2, None, None, None),
            }
        },
        None => None,
    }
}

pub open spec fn sp_ss_members(s: Seq<char>, tracks: Option<Seq<TrackObjectV>>) -> Option<
    (SessionStateV, Seq<char>),
>
    decreases s.len(),
{
    match sp_member_name(s) {
        Some(p) => {
            let step = if p.0 == key_tracks() {
                match sp_tracks(p.1) {
                    Some(q) => Some((Some(q.0), q.1)),
                    None => None,
                }
            } else {
                match sp_skip_value(p.1, p.1.len()) {
                    Some(r2) => Some((tracks, r2)),
                    None => None,
                }
            };
            match step {
                Some(st) => if st.1.len() < s.len() {
                    sp_ss_after(st.1, st.0)
                } else {
                    None
                },
                None => None,
            }
        },
        None => None,
    }
}

pub open spec fn sp_ss_after(s: Seq<char>, tracks: Option<Seq<TrackObjectV>>) -> Option<
    (SessionStateV, Seq<char>),
>
    decreases s.len(),
{
    let s0 = sp_ws(s);
    match sp_lit(s0, seq![',']) {
        Some(r) => {
            let nxt = sp_ws(r);
            if nxt.len() < s.len() {
                sp_ss_members(nxt, tracks)
            } else {
                None
            }
        },
        None => match sp_lit(s0, seq!['}']) {
            Some(r) => match tracks {
                Some(ts) => Some((SessionStateV { tracks: ts }, r)),
                None => None,
            },
            None => None,
        },
    }
}

pub open spec fn sp_session_state(s: Seq<char>) -> Option<(SessionStateV, Seq<char>)> {
    match sp_lit(s, seq!['{']) {
        Some(s1) => {
            let s2 = sp_ws(s1);
            match sp_lit(s2, seq!['}']) {
                Some(_) => None,
                None => sp_ss_members(s2, None),
            }
        },
        None => None,
    }
}

// ---------------------------------------------------------------------------
// Whole-document grammars: leading and trailing whitespace allowed, and the
// record must consume the entire input.
// ---------------------------------------------------------------------------
pub open spec fn sp_doc_track(s: Seq<char>) -> Option<TrackObjectV> {
    match sp_track(sp_ws(s)) {
        Some(p) => if sp_ws(p.1).len() == 0 {
            Some(p.0)
        } else {
            None
        },
        None => None,
    }
}

pub open spec fn sp_doc_session_description(s: Seq<char>) -> Option<SessionDescriptionV> {
    match sp_session_description(sp_ws(s)) {
        Some(p) => if sp_ws(p.1).len() == 0 {
            Some(p.0)
        } else {
            None
        },
        None => None,
    }
}

pub open spec fn sp_doc_tracks_request(s: Seq<char>) -> Option<TracksRequestV> {
    match sp_tracks_request(sp_ws(s)) {
        Some(p) => if sp_ws(p.1).len() == 0 {
            Some(p.0)
        } else {
            None
        },
        None => None,
    }
}

pub open spec fn sp_doc_new_session_response(s: Seq<char>) -> Option<NewSessionResponseV> {
    match sp_new_session_response(sp_ws(s)) {
        Some(p) => if sp_ws(p.1).len() == 0 {
            Some(p.0)
        } else {
            None
        },
        None => None,
    }
}

pub open spec fn sp_doc_tracks_response(s: Seq<char>) -> Option<TracksResponseV> {
    match sp_tracks_response(sp_ws(s)) {
        Some(p) => if sp_ws(p.1).len() == 0 {
            Some(p.0)
        } else {
            None
        },
        None => None,
    }
}

pub open spec fn sp_doc_session_state(s: Seq<char>) -> Option<SessionStateV> {
    match sp_session_state(sp_ws(s)) {
        Some(p) => if sp_ws(p.1).len() == 0 {
            Some(p.0)
        } else {
            None
        },
        None => None,
    }
}

// ---------------------------------------------------------------------------
// Consumption bounds, needed for the termination of `sp_tracks_rest`.
// ---------------------------------------------------------------------------
pub proof fn lemma_sp_ws_len(s: Seq<char>)
    ensures
        sp_ws(s).len() <= s.len(),
    decreases s.len(),
{
    if s.len() > 0 && is_ws(s[0]) {
        lemma_sp_ws_len(s.skip(1));
    }
}

pub proof fn lemma_sp_track_members_len(s: Seq<char>, acc: TrackObjectV)
    ensures
        sp_track_members(s, acc) matches Some(p) ==> p.1.len() < s.len(),
    decreases s.len(),
{
    if let Some(st) = sp_track_step(s, acc) {
        if st.1.len() < s.len() {
            lemma_sp_track_after_len(st.1, st.0);
        }
    }
}

pub proof fn lemma_sp_track_after_len(s: Seq<char>, acc: TrackObjectV)
    ensures
        sp_track_after(s, acc) matches Some(p) ==> p.1.len() < s.len(),
    decreases s.len(),
{
    let s0 = sp_ws(s);
    lemma_sp_ws_len(s);
    if let Some(r) = sp_lit(s0, seq![',']) {
        let nxt = sp_ws(r);
        if nxt.len() < s.len() {
            lemma_sp_track_members_len(nxt, acc);
        }
    }
}

pub proof fn lemma_sp_track_len(s: Seq<char>)
    ensures
        sp_track(s) matches Some(p) ==> p.1.len() < s.len(),
{
    if let Some(s1) = sp_lit(s, seq!['{']) {
        let s2 = sp_ws(s1);
        lemma_sp_ws_len(s1);
        lemma_sp_track_members_len(s2, empty_track());
    }
}

} // verus!
