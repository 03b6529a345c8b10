//! The round-trip laws of the wire format: parsing the canonical serialized
//! form of a record yields that record back. Together with the serializer
//! contracts (`to_json` returns exactly `json_of_*`) and the parser contracts
//! (`parse_*` returns exactly what `sp_*` accepts), these laws pin the whole
//! encode/decode pipeline: absent optional fields stay absent, values and
//! escapes survive unchanged.

use vstd::prelude::*;

use crate::schema::{
    NewSessionResponseV, SdpType, SessionDescriptionV, SessionStateV, TrackLocation, TrackObjectV,
    TracksRequestV, TracksResponseV,
};
use crate::wire::{
    empty_track, esc_char, esc_str, field_key, hex_digit, is_ws, json_of_bool, json_of_location,
    json_of_new_session_response, json_of_sdp_type, json_of_session_description,
    json_of_session_state, json_of_string, json_of_track, json_of_tracks, json_of_tracks_request,
    json_of_tracks_response, jt_location, jt_mid, jt_session_id, jt_track_name, jts_items,
    jts_rest, key_location, key_mid, key_renegotiation, key_sdp, key_session_description,
    key_session_id, key_track_name, key_tracks, key_type, lit_null, sp_doc_new_session_response,
    sp_doc_session_description, sp_doc_session_state, sp_doc_track, sp_doc_tracks_request,
    sp_doc_tracks_response, sp_lit, sp_member_name, sp_new_session_response, sp_nsr_after,
    sp_nsr_members, sp_sd_after, sp_sd_members, sp_session_description, sp_session_state,
    sp_ss_after, sp_ss_members, sp_str_body, sp_string, sp_tr_after, sp_tr_members, sp_track,
    sp_track_after, sp_track_members, sp_track_step, sp_tracks, sp_tracks_request,
    sp_tracks_response, sp_tracks_rest, sp_trr_after, sp_trr_members, sp_ws, u_esc_char,
    u_esc_val, unescape_simple, unhex,
};

verus! {

proof fn lemma_sp_ws_id(s: Seq<char>)
    requires
        s.len() == 0 || !is_ws(s[0]),
    ensures
        sp_ws(s) == s,
{
}

proof fn lemma_sp_lit_self(lit: Seq<char>, rest: Seq<char>)
    ensures
        sp_lit(lit + rest, lit) == Some(rest),
{
    let s = lit + rest;
    assert(s.subrange(0, lit.len() as int) =~= lit);
    assert(s.skip(lit.len() as int) =~= rest);
}

proof fn lemma_sp_lit_mismatch(s: Seq<char>, lit: Seq<char>, i: int)
    requires
        0 <= i < lit.len(),
        i < s.len() ==> s[i] != lit[i],
    ensures
        sp_lit(s, lit) is None,
{
    if lit.len() <= s.len() {
        assert(s.subrange(0, lit.len() as int)[i] == s[i]);
    }
}

proof fn lemma_sp_str_body_round(c: Seq<char>, rest: Seq<char>)
    ensures
        sp_str_body(esc_str(c) + seq!['"'] + rest) == Some((c, rest)),
    decreases c.len(),
{
    let s = esc_str(c) + seq!['"'] + rest;
    if c.len() == 0 {
        assert(s =~= seq!['"'] + rest);
        assert(s[0] == '"');
        assert(s.skip(1) =~= rest);
        assert(c =~= Seq::<char>::empty());
    } else {
        let c0 = c[0];
        let ct = c.skip(1);
        lemma_sp_str_body_round(ct, rest);
        let s2 = esc_str(ct) + seq!['"'] + rest;
        assert(esc_str(c) == esc_char(c0) + esc_str(ct));
        assert(s =~= esc_char(c0) + s2);
        if c0 == '"' || c0 == '\\' || c0 == '\n' || c0 == '\r' || c0 == '\t' {
            assert(s.len() >= 2);
            assert(s[0] == '\\');
            assert(s[1] == esc_char(c0)[1]);
            assert(unescape_simple(s[1]) == Some(c0));
            assert(s.skip(2) =~= s2);
            assert(sp_str_body(s) == Some((seq![c0] + ct, rest)));
        } else if (c0 as u32) < 0x20 {
            let h1 = hex_digit(c0 as int / 16);
            let h2 = hex_digit(c0 as int % 16);
            assert(s.len() >= 6);
            assert(s[0] == '\\');
            assert(s[1] == 'u');
            assert(s[2] == '0');
            assert(s[3] == '0');
            assert(s[4] == h1);
            assert(s[5] == h2);
            assert(unescape_simple('u') is None);
            vstd::utf8::char_u32_cast(c0, c0 as u32);
            assert(0 <= (c0 as int) && (c0 as int) < 0x20);
            assert(0 <= c0 as int / 16 < 2);
            assert(unhex(h1) == c0 as int / 16);
            assert(0 <= c0 as int % 16 < 16);
            assert(unhex(h2) == c0 as int % 16);
            assert(unhex('0') == 0);
            assert(u_esc_val(s) == c0 as int);
            assert(((c0 as int as u8) as char) == c0);
            assert(u_esc_char(u_esc_val(s)) == c0);
            assert(s.skip(6) =~= s2);
            assert(sp_str_body(s) == Some((seq![c0] + ct, rest)));
        } else {
            assert(s[0] == c0);
            assert(s.skip(1) =~= s2);
            assert(sp_str_body(s) == Some((seq![c0] + ct, rest)));
        }
        assert(seq![c0] + ct =~= c);
    }
}

proof fn lemma_sp_string_round(c: Seq<char>, rest: Seq<char>)
    ensures
        sp_string(json_of_string(c) + rest) == Some((c, rest)),
{
    let s = json_of_string(c) + rest;
    let body = esc_str(c) + seq!['"'] + rest;
    assert(s =~= seq!['"'] + body);
    lemma_sp_lit_self(seq!['"'], body);
    lemma_sp_str_body_round(c, rest);
}

/// A text of plain characters escapes to itself.
proof fn lemma_esc_str_plain(k: Seq<char>)
    requires
        forall|i: int|
            0 <= i < k.len() ==> k[i] != '"' && k[i] != '\\' && (#[trigger] k[i] as u32) >= 0x20,
    ensures
        esc_str(k) == k,
    decreases k.len(),
{
    if k.len() > 0 {
        assert(esc_char(k[0]) == seq![k[0]]);
        assert(forall|i: int|
            0 <= i < k.skip(1).len() ==> #[trigger] k.skip(1)[i] == k[i + 1]);
        lemma_esc_str_plain(k.skip(1));
        assert(esc_str(k) =~= k);
    }
}

/// A canonical member key followed by its colon parses as that member name.
proof fn lemma_sp_member_name_round(name: Seq<char>, tail: Seq<char>)
    requires
        esc_str(name) == name,
        tail.len() == 0 || !is_ws(tail[0]),
    ensures
        sp_member_name(seq!['"'] + name + seq!['"', ':'] + tail) == Some((name, tail)),
{
    let s = seq!['"'] + name + seq!['"', ':'] + tail;
    let after = seq![':'] + tail;
    assert(s =~= json_of_string(name) + after);
    lemma_sp_string_round(name, after);
    lemma_sp_ws_id(after);
    lemma_sp_lit_self(seq![':'], tail);
    lemma_sp_ws_id(tail);
}

proof fn lemma_key_plain_all()
    ensures
        esc_str(key_type()) == key_type(),
        esc_str(key_sdp()) == key_sdp(),
        esc_str(key_location()) == key_location(),
        esc_str(key_mid()) == key_mid(),
        esc_str(key_track_name()) == key_track_name(),
        esc_str(key_session_id()) == key_session_id(),
        esc_str(key_session_description()) == key_session_description(),
        esc_str(key_tracks()) == key_tracks(),
        esc_str(key_renegotiation()) == key_renegotiation(),
{
    reveal_strlit("type");
    reveal_strlit("sdp");
    reveal_strlit("location");
    reveal_strlit("mid");
    reveal_strlit("trackName");
    reveal_strlit("sessionId");
    reveal_strlit("sessionDescription");
    reveal_strlit("tracks");
    reveal_strlit("requiresImmediateRenegotiation");
    lemma_esc_str_plain(key_type());
    lemma_esc_str_plain(key_sdp());
    lemma_esc_str_plain(key_location());
    lemma_esc_str_plain(key_mid());
    lemma_esc_str_plain(key_track_name());
    lemma_esc_str_plain(key_session_id());
    lemma_esc_str_plain(key_session_description());
    lemma_esc_str_plain(key_tracks());
    lemma_esc_str_plain(key_renegotiation());
}

proof fn lemma_keys_distinct()
    ensures
        key_type() != key_sdp(),
        key_location() != key_mid(),
        key_location() != key_track_name(),
        key_location() != key_session_id(),
        key_mid() != key_track_name(),
        key_mid() != key_session_id(),
        key_track_name() != key_session_id(),
        key_session_description() != key_tracks(),
        key_session_description() != key_session_id(),
        key_renegotiation() != key_session_description(),
        key_renegotiation() != key_tracks(),
{
    reveal_strlit("type");
    reveal_strlit("sdp");
    reveal_strlit("location");
    reveal_strlit("mid");
    reveal_strlit("trackName");
    reveal_strlit("sessionId");
    reveal_strlit("sessionDescription");
    reveal_strlit("tracks");
    reveal_strlit("requiresImmediateRenegotiation");
    assert(key_type().len() == 4);
    assert(key_sdp().len() == 3);
    assert(key_location().len() == 8);
    assert(key_mid().len() == 3);
    assert(key_track_name().len() == 9);
    assert(key_session_id().len() == 9);
    assert(key_session_description().len() == 18);
    assert(key_tracks().len() == 6);
    assert(key_renegotiation().len() == 30);
    assert(key_track_name()[0] != key_session_id()[0]);
}

proof fn lemma_len_lt(a: Seq<char>, b: Seq<char>, s: Seq<char>)
    requires
        s =~= a + b,
        a.len() > 0,
    ensures
        b.len() < s.len(),
{
}

/// `null` never begins at a quote, brace, bracket or letter other than `n`.
proof fn lemma_not_null(s: Seq<char>)
    requires
        s.len() > 0,
        s[0] != 'n',
    ensures
        sp_lit(s, lit_null()) is None,
{
    reveal_strlit("null");
    lemma_sp_lit_mismatch(s, lit_null(), 0);
}

proof fn lemma_sp_sdp_type_round(t: SdpType, rest: Seq<char>)
    ensures
        crate::wire::sp_sdp_type(json_of_sdp_type(t) + rest) == Some((t, rest)),
{
    reveal_strlit("offer");
    reveal_strlit("answer");
    let s = json_of_sdp_type(t) + rest;
    match t {
        SdpType::Offer => {
            lemma_sp_lit_self(json_of_sdp_type(SdpType::Offer), rest);
        },
        SdpType::Answer => {
            assert(s[1] == 'a');
            assert(json_of_sdp_type(SdpType::Offer)[1] == 'o');
            lemma_sp_lit_mismatch(s, json_of_sdp_type(SdpType::Offer), 1);
            lemma_sp_lit_self(json_of_sdp_type(SdpType::Answer), rest);
        },
    }
}

proof fn lemma_sp_location_round(l: TrackLocation, rest: Seq<char>)
    ensures
        crate::wire::sp_location(json_of_location(l) + rest) == Some((l, rest)),
{
    reveal_strlit("local");
    reveal_strlit("remote");
    let s = json_of_location(l) + rest;
    match l {
        TrackLocation::Local => {
            lemma_sp_lit_self(json_of_location(TrackLocation::Local), rest);
        },
        TrackLocation::Remote => {
            assert(s[1] == 'r');
            assert(json_of_location(TrackLocation::Local)[1] == 'l');
            lemma_sp_lit_mismatch(s, json_of_location(TrackLocation::Local), 1);
            lemma_sp_lit_self(json_of_location(TrackLocation::Remote), rest);
        },
    }
}

proof fn lemma_sp_bool_round(b: bool, rest: Seq<char>)
    ensures
        crate::wire::sp_bool(json_of_bool(b) + rest) == Some((b, rest)),
{
    reveal_strlit("true");
    reveal_strlit("false");
    let s = json_of_bool(b) + rest;
    if b {
        lemma_sp_lit_self(json_of_bool(true), rest);
    } else {
        assert(s[0] == 'f');
        assert(json_of_bool(true)[0] == 't');
        lemma_sp_lit_mismatch(s, json_of_bool(true), 0);
        lemma_sp_lit_self(json_of_bool(false), rest);
    }
}

// ---------------------------------------------------------------------------
// Track objects: one lemma per canonical member position.
// ---------------------------------------------------------------------------
#[verifier::rlimit(100)]
proof fn lemma_track_m_sid(t: TrackObjectV, acc: TrackObjectV, rest: Seq<char>)
    requires
        acc.session_id is None,
        t.session_id is Some,
    ensures
        sp_track_members(jt_session_id(t, true) + seq!['}'] + rest, acc) == Some(
            (
                TrackObjectV {
                    location: acc.location,
                    mid: acc.mid,
                    track_name: acc.track_name,
                    session_id: t.session_id,
                },
                rest,
            ),
        ),
{
    lemma_key_plain_all();
    lemma_keys_distinct();
    reveal_strlit("location");
    reveal_strlit("mid");
    reveal_strlit("trackName");
    reveal_strlit("sessionId");
    let x = t.session_id->0;
    let s = jt_session_id(t, true) + seq!['}'] + rest;
    let close = seq!['}'] + rest;
    let tail = json_of_string(x) + close;
    assert(s =~= seq!['"'] + key_session_id() + seq!['"', ':'] + tail);
    assert(tail[0] == '"');
    lemma_sp_member_name_round(key_session_id(), tail);
    lemma_not_null(tail);
    lemma_sp_string_round(x, close);
    assert(sp_track_step(s, acc) == Some(
        (TrackObjectV { session_id: Some(x), ..acc }, close),
    ));
    lemma_len_lt(seq!['"'] + key_session_id() + seq!['"', ':'] + json_of_string(x), close, s);
    let acc2 = TrackObjectV { session_id: Some(x), ..acc };
    lemma_sp_ws_id(close);
    lemma_sp_lit_mismatch(close, seq![','], 0);
    lemma_sp_lit_self(seq!['}'], rest);
    assert(sp_track_after(close, acc2) == Some((acc2, rest)));
    assert(acc2 =~= (TrackObjectV {
        location: acc.location,
        mid: acc.mid,
        track_name: acc.track_name,
        session_id: t.session_id,
    }));
}

#[verifier::rlimit(100)]
proof fn lemma_track_m_tn(t: TrackObjectV, acc: TrackObjectV, rest: Seq<char>)
    requires
        acc.track_name is None,
        acc.session_id is None,
        t.track_name is Some || t.session_id is Some,
    ensures
        sp_track_members(jt_track_name(t, true) + seq!['}'] + rest, acc) == Some(
            (
                TrackObjectV {
                    location: acc.location,
                    mid: acc.mid,
                    track_name: t.track_name,
                    session_id: t.session_id,
                },
                rest,
            ),
        ),
{
    lemma_key_plain_all();
    lemma_keys_distinct();
    let s = jt_track_name(t, true) + seq!['}'] + rest;
    match t.track_name {
        Some(x) => {
            let after = jt_session_id(t, false) + seq!['}'] + rest;
            let tail = json_of_string(x) + after;
            assert(s =~= seq!['"'] + key_track_name() + seq!['"', ':'] + tail);
            assert(tail[0] == '"');
            lemma_sp_member_name_round(key_track_name(), tail);
            lemma_not_null(tail);
            lemma_sp_string_round(x, after);
            assert(sp_track_step(s, acc) == Some(
                (TrackObjectV { track_name: Some(x), ..acc }, after),
            ));
            lemma_len_lt(
                seq!['"'] + key_track_name() + seq!['"', ':'] + json_of_string(x),
                after,
                s,
            );
            lemma_track_a_sid(t, TrackObjectV { track_name: Some(x), ..acc }, rest);
        },
        None => {
            assert(s =~= jt_session_id(t, true) + seq!['}'] + rest);
            lemma_track_m_sid(t, acc, rest);
        },
    }
}

#[verifier::rlimit(100)]
proof fn lemma_track_m_mid(t: TrackObjectV, acc: TrackObjectV, rest: Seq<char>)
    requires
        acc.mid is None,
        acc.track_name is None,
        acc.session_id is None,
        t.mid is Some || t.track_name is Some || t.session_id is Some,
    ensures
        sp_track_members(jt_mid(t, true) + seq!['}'] + rest, acc) == Some(
            (
                TrackObjectV {
                    location: acc.location,
                    mid: t.mid,
                    track_name: t.track_name,
                    session_id: t.session_id,
                },
                rest,
            ),
        ),
{
    lemma_key_plain_all();
    lemma_keys_distinct();
    let s = jt_mid(t, true) + seq!['}'] + rest;
    match t.mid {
        Some(x) => {
            let after = jt_track_name(t, false) + seq!['}'] + rest;
            let tail = json_of_string(x) + after;
            assert(s =~= seq!['"'] + key_mid() + seq!['"', ':'] + tail);
            assert(tail[0] == '"');
            lemma_sp_member_name_round(key_mid(), tail);
            lemma_not_null(tail);
            lemma_sp_string_round(x, after);
            assert(sp_track_step(s, acc) == Some((TrackObjectV { mid: Some(x), ..acc }, after)));
            lemma_len_lt(seq!['"'] + key_mid() + seq!['"', ':'] + json_of_string(x), after, s);
            lemma_track_a_tn(t, TrackObjectV { mid: Some(x), ..acc }, rest);
        },
        None => {
            assert(s =~= jt_track_name(t, true) + seq!['}'] + rest);
            lemma_track_m_tn(t, acc, rest);
        },
    }
}

proof fn lemma_track_a_sid(t: TrackObjectV, acc: TrackObjectV, rest: Seq<char>)
    requires
        acc.session_id is None,
    ensures
        sp_track_after(jt_session_id(t, false) + seq!['}'] + rest, acc) == Some(
            (
                TrackObjectV {
                    location: acc.location,
                    mid: acc.mid,
                    track_name: acc.track_name,
                    session_id: t.session_id,
                },
                rest,
            ),
        ),
    decreases 1int,
{
    let s = jt_session_id(t, false) + seq!['}'] + rest;
    match t.session_id {
        Some(x) => {
            let inner = jt_session_id(t, true) + seq!['}'] + rest;
            assert(s =~= seq![','] + inner);
            lemma_sp_ws_id(s);
            lemma_sp_lit_self(seq![','], inner);
            assert(inner[0] == '"');
            lemma_sp_ws_id(inner);
            lemma_len_lt(seq![','], inner, s);
            lemma_track_m_sid(t, acc, rest);
        },
        None => {
            assert(s =~= seq!['}'] + rest);
            lemma_sp_ws_id(s);
            lemma_sp_lit_mismatch(s, seq![','], 0);
            lemma_sp_lit_self(seq!['}'], rest);
            assert((TrackObjectV {
                location: acc.location,
                mid: acc.mid,
                track_name: acc.track_name,
                session_id: t.session_id,
            }) =~= acc);
        },
    }
}

proof fn lemma_track_a_tn(t: TrackObjectV, acc: TrackObjectV, rest: Seq<char>)
    requires
        acc.track_name is None,
        acc.session_id is None,
    ensures
        sp_track_after(jt_track_name(t, false) + seq!['}'] + rest, acc) == Some(
            (
                TrackObjectV {
                    location: acc.location,
                    mid: acc.mid,
                    track_name: t.track_name,
                    session_id: t.session_id,
                },
                rest,
            ),
        ),
{
    let s = jt_track_name(t, false) + seq!['}'] + rest;
    match t.track_name {
        Some(_) => {
            let inner = jt_track_name(t, true) + seq!['}'] + rest;
            assert(s =~= seq![','] + inner);
            lemma_sp_ws_id(s);
            lemma_sp_lit_self(seq![','], inner);
            assert(inner[0] == '"');
            lemma_sp_ws_id(inner);
            lemma_len_lt(seq![','], inner, s);
            lemma_track_m_tn(t, acc, rest);
        },
        None => {
            assert(s =~= jt_session_id(t, false) + seq!['}'] + rest);
            lemma_track_a_sid(t, acc, rest);
        },
    }
}

proof fn lemma_track_a_mid(t: TrackObjectV, acc: TrackObjectV, rest: Seq<char>)
    requires
        acc.mid is None,
        acc.track_name is None,
        acc.session_id is None,
    ensures
        sp_track_after(jt_mid(t, false) + seq!['}'] + rest, acc) == Some(
            (
                TrackObjectV {
                    location: acc.location,
                    mid: t.mid,
                    track_name: t.track_name,
                    session_id: t.session_id,
                },
                rest,
            ),
        ),
{
    let s = jt_mid(t, false) + seq!['}'] + rest;
    match t.mid {
        Some(_) => {
            let inner = jt_mid(t, true) + seq!['}'] + rest;
            assert(s =~= seq![','] + inner);
            lemma_sp_ws_id(s);
            lemma_sp_lit_self(seq![','], inner);
            assert(inner[0] == '"');
            lemma_sp_ws_id(inner);
            lemma_len_lt(seq![','], inner, s);
            lemma_track_m_mid(t, acc, rest);
        },
        None => {
            assert(s =~= jt_track_name(t, false) + seq!['}'] + rest);
            lemma_track_a_tn(t, acc, rest);
        },
    }
}

#[verifier::rlimit(100)]
proof fn lemma_track_round(t: TrackObjectV, rest: Seq<char>)
    ensures
        sp_track(json_of_track(t) + rest) == Some((t, rest)),
{
    lemma_key_plain_all();
    lemma_keys_distinct();
    let s = json_of_track(t) + rest;
    let s1 = jt_location(t) + (seq!['}'] + rest);
    assert(s =~= seq!['{'] + s1);
    lemma_sp_lit_self(seq!['{'], s1);
    match t.location {
        Some(l) => {
            let after = jt_mid(t, false) + seq!['}'] + rest;
            let tail = json_of_location(l) + after;
            assert(s1 =~= seq!['"'] + key_location() + seq!['"', ':'] + tail);
            assert(s1[0] == '"');
            lemma_sp_ws_id(s1);
            lemma_sp_lit_mismatch(s1, seq!['}'], 0);
            assert(tail[0] == '"');
            lemma_sp_member_name_round(key_location(), tail);
            lemma_not_null(tail);
            lemma_sp_location_round(l, after);
            assert(sp_track_step(s1, empty_track()) == Some(
                (TrackObjectV { location: Some(l), ..empty_track() }, after),
            ));
            lemma_len_lt(
                seq!['"'] + key_location() + seq!['"', ':'] + json_of_location(l),
                after,
                s1,
            );
            lemma_track_a_mid(t, TrackObjectV { location: Some(l), ..empty_track() }, rest);
            assert((TrackObjectV {
                location: Some(l),
                mid: t.mid,
                track_name: t.track_name,
                session_id: t.session_id,
            }) =~= t);
        },
        None => {
            assert(s1 =~= jt_mid(t, true) + seq!['}'] + rest);
            if t.mid is None && t.track_name is None && t.session_id is None {
                assert(s1 =~= seq!['}'] + rest);
                lemma_sp_ws_id(s1);
                lemma_sp_lit_self(seq!['}'], rest);
                assert(empty_track() =~= t);
            } else {
                assert(s1[0] == '"');
                lemma_sp_ws_id(s1);
                lemma_sp_lit_mismatch(s1, seq!['}'], 0);
                lemma_track_m_mid(t, empty_track(), rest);
                assert((TrackObjectV {
                    location: None,
                    mid: t.mid,
                    track_name: t.track_name,
                    session_id: t.session_id,
                }) =~= t);
            }
        },
    }
}

// ---------------------------------------------------------------------------
// Arrays of tracks.
// ---------------------------------------------------------------------------
proof fn lemma_tracks_rest_round(ts: Seq<TrackObjectV>, rest: Seq<char>)
    ensures
        sp_tracks_rest(jts_rest(ts) + seq![']'] + rest) == Some((ts, rest)),
    decreases ts.len(),
{
    let s = jts_rest(ts) + seq![']'] + rest;
    if ts.len() == 0 {
        assert(s =~= seq![']'] + rest);
        lemma_sp_ws_id(s);
        lemma_sp_lit_self(seq![']'], rest);
        assert(ts =~= Seq::<TrackObjectV>::empty());
    } else {
        let after = json_of_track(ts[0]) + (jts_rest(ts.skip(1)) + seq![']'] + rest);
        assert(s =~= seq![','] + after);
        lemma_sp_ws_id(s);
        lemma_sp_lit_mismatch(s, seq![']'], 0);
        lemma_sp_lit_self(seq![','], after);
        assert(after[0] == '{');
        lemma_sp_ws_id(after);
        lemma_track_round(ts[0], jts_rest(ts.skip(1)) + seq![']'] + rest);
        lemma_tracks_rest_round(ts.skip(1), rest);
        assert(seq![ts[0]] + ts.skip(1) =~= ts);
    }
}

proof fn lemma_tracks_round(ts: Seq<TrackObjectV>, rest: Seq<char>)
    ensures
        sp_tracks(json_of_tracks(ts) + rest) == Some((ts, rest)),
{
    let s = json_of_tracks(ts) + rest;
    let s1 = jts_items(ts) + (seq![']'] + rest);
    assert(s =~= seq!['['] + s1);
    lemma_sp_lit_self(seq!['['], s1);
    if ts.len() == 0 {
        assert(s1 =~= seq![']'] + rest);
        lemma_sp_ws_id(s1);
        lemma_sp_lit_self(seq![']'], rest);
        assert(ts =~= Seq::<TrackObjectV>::empty());
    } else {
        assert(s1 =~= json_of_track(ts[0]) + (jts_rest(ts.skip(1)) + seq![']'] + rest));
        assert(s1[0] == '{');
        lemma_sp_ws_id(s1);
        lemma_sp_lit_mismatch(s1, seq![']'], 0);
        lemma_track_round(ts[0], jts_rest(ts.skip(1)) + seq![']'] + rest);
        lemma_tracks_rest_round(ts.skip(1), rest);
        assert(seq![ts[0]] + ts.skip(1) =~= ts);
    }
}

// ---------------------------------------------------------------------------
// The composite records, walked along their canonical member order.
// ---------------------------------------------------------------------------
#[verifier::rlimit(100)]
proof fn lemma_session_description_round(d: SessionDescriptionV, rest: Seq<char>)
    ensures
        sp_session_description(json_of_session_description(d) + rest) == Some((d, rest)),
{
    lemma_key_plain_all();
    lemma_keys_distinct();
    let s = json_of_session_description(d) + rest;
    let close = seq!['}'] + rest;
    let m2 = seq!['"'] + key_sdp() + seq!['"', ':'] + (json_of_string(d.sdp) + close);
    let a1 = seq![','] + m2;
    let tail1 = json_of_sdp_type(d.sdp_type) + a1;
    let s1 = seq!['"'] + key_type() + seq!['"', ':'] + tail1;
    assert(s =~= seq!['{'] + s1);
    lemma_sp_lit_self(seq!['{'], s1);
    assert(s1[0] == '"');
    lemma_sp_ws_id(s1);
    lemma_sp_lit_mismatch(s1, seq!['}'], 0);
    assert(tail1[0] == '"');
    lemma_sp_member_name_round(key_type(), tail1);
    lemma_sp_sdp_type_round(d.sdp_type, a1);
    lemma_len_lt(seq!['"'] + key_type() + seq!['"', ':'] + json_of_sdp_type(d.sdp_type), a1, s1);
    assert(sp_sd_members(s1, None, None) == sp_sd_after(a1, Some(d.sdp_type), None));
    lemma_sp_ws_id(a1);
    lemma_sp_lit_self(seq![','], m2);
    assert(m2[0] == '"');
    lemma_sp_ws_id(m2);
    lemma_len_lt(seq![','], m2, a1);
    assert(sp_sd_after(a1, Some(d.sdp_type), None) == sp_sd_members(m2, Some(d.sdp_type), None));
    let tail2 = json_of_string(d.sdp) + close;
    assert(tail2[0] == '"');
    lemma_sp_member_name_round(key_sdp(), tail2);
    lemma_sp_string_round(d.sdp, close);
    lemma_len_lt(seq!['"'] + key_sdp() + seq!['"', ':'] + json_of_string(d.sdp), close, m2);
    assert(sp_sd_members(m2, Some(d.sdp_type), None) == sp_sd_after(
        close,
        Some(d.sdp_type),
        Some(d.sdp),
    ));
    lemma_sp_ws_id(close);
    lemma_sp_lit_mismatch(close, seq![','], 0);
    lemma_sp_lit_self(seq!['}'], rest);
    assert(sp_sd_after(close, Some(d.sdp_type), Some(d.sdp)) == Some(
        (SessionDescriptionV { sdp_type: d.sdp_type, sdp: d.sdp }, rest),
    ));
    assert((SessionDescriptionV { sdp_type: d.sdp_type, sdp: d.sdp }) =~= d);
}

#[verifier::rlimit(100)]
proof fn lemma_tracks_request_round(r: TracksRequestV, rest: Seq<char>)
    ensures
        sp_tracks_request(json_of_tracks_request(r) + rest) == Some((r, rest)),
{
    lemma_key_plain_all();
    lemma_keys_distinct();
    let s = json_of_tracks_request(r) + rest;
    let close = seq!['}'] + rest;
    let mt = seq!['"'] + key_tracks() + seq!['"', ':'] + (json_of_tracks(r.tracks) + close);
    let tailt = json_of_tracks(r.tracks) + close;
    match r.session_description {
        Some(d) => {
            let a1 = seq![','] + mt;
            let tail1 = json_of_session_description(d) + a1;
            let s1 = seq!['"'] + key_session_description() + seq!['"', ':'] + tail1;
            assert(s =~= seq!['{'] + s1);
            lemma_sp_lit_self(seq!['{'], s1);
            assert(s1[0] == '"');
            lemma_sp_ws_id(s1);
            lemma_sp_lit_mismatch(s1, seq!['}'], 0);
            assert(tail1[0] == '{');
            lemma_sp_member_name_round(key_session_description(), tail1);
            lemma_not_null(tail1);
            lemma_session_description_round(d, a1);
            lemma_len_lt(
                seq!['"'] + key_session_description() + seq!['"', ':']
                    + json_of_session_description(d),
                a1,
                s1,
            );
            assert(sp_tr_members(s1, None, None) == sp_tr_after(a1, Some(d), None));
            lemma_sp_ws_id(a1);
            lemma_sp_lit_self(seq![','], mt);
            assert(mt[0] == '"');
            lemma_sp_ws_id(mt);
            lemma_len_lt(seq![','], mt, a1);
            assert(sp_tr_after(a1, Some(d), None) == sp_tr_members(mt, Some(d), None));
            assert(tailt[0] == '[');
            lemma_sp_member_name_round(key_tracks(), tailt);
            lemma_tracks_round(r.tracks, close);
            lemma_len_lt(
                seq!['"'] + key_tracks() + seq!['"', ':'] + json_of_tracks(r.tracks),
                close,
                mt,
            );
            assert(sp_tr_members(mt, Some(d), None) == sp_tr_after(
                close,
                Some(d),
                Some(r.tracks),
            ));
            lemma_sp_ws_id(close);
            lemma_sp_lit_mismatch(close, seq![','], 0);
            lemma_sp_lit_self(seq!['}'], rest);
            assert((TracksRequestV { session_description: Some(d), tracks: r.tracks }) =~= r);
        },
        None => {
            assert(s =~= seq!['{'] + mt);
            lemma_sp_lit_self(seq!['{'], mt);
            assert(mt[0] == '"');
            lemma_sp_ws_id(mt);
            lemma_sp_lit_mismatch(mt, seq!['}'], 0);
            assert(tailt[0] == '[');
            lemma_sp_member_name_round(key_tracks(), tailt);
            lemma_tracks_round(r.tracks, close);
            lemma_len_lt(
                seq!['"'] + key_tracks() + seq!['"', ':'] + json_of_tracks(r.tracks),
                close,
                mt,
            );
            assert(sp_tr_members(mt, None, None) == sp_tr_after(close, None, Some(r.tracks)));
            lemma_sp_ws_id(close);
            lemma_sp_lit_mismatch(close, seq![','], 0);
            lemma_sp_lit_self(seq!['}'], rest);
            assert((TracksRequestV { session_description: None, tracks: r.tracks }) =~= r);
        },
    }
}

#[verifier::rlimit(100)]
proof fn lemma_new_session_response_round(v: NewSessionResponseV, rest: Seq<char>)
    ensures
        sp_new_session_response(json_of_new_session_response(v) + rest) == Some((v, rest)),
{
    lemma_key_plain_all();
    lemma_keys_distinct();
    let s = json_of_new_session_response(v) + rest;
    let close = seq!['}'] + rest;
    let m2 = seq!['"'] + key_session_id() + seq!['"', ':'] + (json_of_string(v.session_id)
        + close);
    let a1 = seq![','] + m2;
    let d = v.session_description;
    let tail1 = json_of_session_description(d) + a1;
    let s1 = seq!['"'] + key_session_description() + seq!['"', ':'] + tail1;
    assert(s =~= seq!['{'] + s1);
    lemma_sp_lit_self(seq!['{'], s1);
    assert(s1[0] == '"');
    lemma_sp_ws_id(s1);
    lemma_sp_lit_mismatch(s1, seq!['}'], 0);
    assert(tail1[0] == '{');
    lemma_sp_member_name_round(key_session_description(), tail1);
    lemma_session_description_round(d, a1);
    lemma_len_lt(
        seq!['"'] + key_session_description() + seq!['"', ':'] + json_of_session_description(d),
        a1,
        s1,
    );
    assert(sp_nsr_members(s1, None, None) == sp_nsr_after(a1, Some(d), None));
    lemma_sp_ws_id(a1);
    lemma_sp_lit_self(seq![','], m2);
    assert(m2[0] == '"');
    lemma_sp_ws_id(m2);
    lemma_len_lt(seq![','], m2, a1);
    assert(sp_nsr_after(a1, Some(d), None) == sp_nsr_members(m2, Some(d), None));
    let tail2 = json_of_string(v.session_id) + close;
    assert(tail2[0] == '"');
    lemma_sp_member_name_round(key_session_id(), tail2);
    lemma_sp_string_round(v.session_id, close);
    lemma_len_lt(
        seq!['"'] + key_session_id() + seq!['"', ':'] + json_of_string(v.session_id),
        close,
        m2,
    );
    assert(sp_nsr_members(m2, Some(d), None) == sp_nsr_after(
        close,
        Some(d),
        Some(v.session_id),
    ));
    lemma_sp_ws_id(close);
    lemma_sp_lit_mismatch(close, seq![','], 0);
    lemma_sp_lit_self(seq!['}'], rest);
    assert((NewSessionResponseV { session_description: d, session_id: v.session_id }) =~= v);
}

#[verifier::rlimit(100)]
proof fn lemma_trr_members_desc(v: TracksResponseV, d: SessionDescriptionV, rest: Seq<char>)
    requires
        v.session_description == Some(d),
    ensures
        sp_trr_members(
            seq!['"'] + key_session_description() + seq!['"', ':'] + (json_of_session_description(
                d,
            ) + (seq![','] + (seq!['"'] + key_tracks() + seq!['"', ':'] + (json_of_tracks(v.tracks)
                + (seq!['}'] + rest))))),
            Some(v.requires_immediate_renegotiation),
            None,
            None,
        ) == Some((v, rest)),
{
    lemma_key_plain_all();
    lemma_keys_distinct();
    let b = v.requires_immediate_renegotiation;
    let close = seq!['}'] + rest;
    let mt = seq!['"'] + key_tracks() + seq!['"', ':'] + (json_of_tracks(v.tracks) + close);
    let tailt = json_of_tracks(v.tracks) + close;
    let at = seq![','] + mt;
    let md = seq!['"'] + key_session_description() + seq!['"', ':']
        + (json_of_session_description(d) + at);
    let tail2 = json_of_session_description(d) + at;
    assert(tail2[0] == '{');
    lemma_sp_member_name_round(key_session_description(), tail2);
    lemma_not_null(tail2);
    lemma_session_description_round(d, at);
    lemma_len_lt(
        seq!['"'] + key_session_description() + seq!['"', ':']
            + json_of_session_description(d),
        at,
        md,
    );
    assert(sp_trr_members(md, Some(b), None, None) == sp_trr_after(
        at,
        Some(b),
        Some(d),
        None,
    ));
    lemma_sp_ws_id(at);
    lemma_sp_lit_self(seq![','], mt);
    assert(mt[0] == '"');
    lemma_sp_ws_id(mt);
    lemma_len_lt(seq![','], mt, at);
    assert(sp_trr_after(at, Some(b), Some(d), None) == sp_trr_members(
        mt,
        Some(b),
        Some(d),
        None,
    ));
    assert(tailt[0] == '[');
    lemma_sp_member_name_round(key_tracks(), tailt);
    lemma_tracks_round(v.tracks, close);
    lemma_len_lt(
        seq!['"'] + key_tracks() + seq!['"', ':'] + json_of_tracks(v.tracks),
        close,
        mt,
    );
    assert(sp_trr_members(mt, Some(b), Some(d), None) == sp_trr_after(
        close,
        Some(b),
        Some(d),
        Some(v.tracks),
    ));
    lemma_sp_ws_id(close);
    lemma_sp_lit_mismatch(close, seq![','], 0);
    lemma_sp_lit_self(seq!['}'], rest);
    assert((TracksResponseV {
        requires_immediate_renegotiation: b,
        session_description: Some(d),
        tracks: v.tracks,
    }) =~= v);
}

#[verifier::rlimit(100)]
proof fn lemma_tracks_response_round_some(v: TracksResponseV, d: SessionDescriptionV, rest: Seq<char>)
    requires
        v.session_description == Some(d),
    ensures
        sp_tracks_response(json_of_tracks_response(v) + rest) == Some((v, rest)),
{
    lemma_key_plain_all();
    lemma_keys_distinct();
    reveal_strlit("true");
    reveal_strlit("false");
    let s = json_of_tracks_response(v) + rest;
    let b = v.requires_immediate_renegotiation;
    let close = seq!['}'] + rest;
    let mt = seq!['"'] + key_tracks() + seq!['"', ':'] + (json_of_tracks(v.tracks) + close);
    let tailt = json_of_tracks(v.tracks) + close;
    let at = seq![','] + mt;

    let md = seq!['"'] + key_session_description() + seq!['"', ':']
        + (json_of_session_description(d) + at);
    let a1 = seq![','] + md;
    let tail1 = json_of_bool(b) + a1;
    let s1 = seq!['"'] + key_renegotiation() + seq!['"', ':'] + tail1;
    assert(s =~= seq!['{'] + s1);
    lemma_sp_lit_self(seq!['{'], s1);
    assert(s1[0] == '"');
    lemma_sp_ws_id(s1);
    lemma_sp_lit_mismatch(s1, seq!['}'], 0);
    assert(tail1[0] == (if b { 't' } else { 'f' }));
    lemma_sp_member_name_round(key_renegotiation(), tail1);
    lemma_sp_bool_round(b, a1);
    lemma_len_lt(
        seq!['"'] + key_renegotiation() + seq!['"', ':'] + json_of_bool(b),
        a1,
        s1,
    );
    assert(sp_trr_members(s1, None, None, None) == sp_trr_after(a1, Some(b), None, None));
    lemma_sp_ws_id(a1);
    lemma_sp_lit_self(seq![','], md);
    assert(md[0] == '"');
    lemma_sp_ws_id(md);
    lemma_len_lt(seq![','], md, a1);
    assert(sp_trr_after(a1, Some(b), None, None) == sp_trr_members(
        md,
        Some(b),
        None,
        None,
    ));
    lemma_trr_members_desc(v, d, rest);
}

#[verifier::rlimit(100)]
proof fn lemma_tracks_response_round_none(v: TracksResponseV, rest: Seq<char>)
    requires
        v.session_description is None,
    ensures
        sp_tracks_response(json_of_tracks_response(v) + rest) == Some((v, rest)),
{
    lemma_key_plain_all();
    lemma_keys_distinct();
    reveal_strlit("true");
    reveal_strlit("false");
    let s = json_of_tracks_response(v) + rest;
    let b = v.requires_immediate_renegotiation;
    let close = seq!['}'] + rest;
    let mt = seq!['"'] + key_tracks() + seq!['"', ':'] + (json_of_tracks(v.tracks) + close);
    let tailt = json_of_tracks(v.tracks) + close;
    let at = seq![','] + mt;

    let tail1 = json_of_bool(b) + at;
    let s1 = seq!['"'] + key_renegotiation() + seq!['"', ':'] + tail1;
    assert(s =~= seq!['{'] + s1);
    lemma_sp_lit_self(seq!['{'], s1);
    assert(s1[0] == '"');
    lemma_sp_ws_id(s1);
    lemma_sp_lit_mismatch(s1, seq!['}'], 0);
    assert(tail1[0] == (if b { 't' } else { 'f' }));
    lemma_sp_member_name_round(key_renegotiation(), tail1);
    lemma_sp_bool_round(b, at);
    lemma_len_lt(
        seq!['"'] + key_renegotiation() + seq!['"', ':'] + json_of_bool(b),
        at,
        s1,
    );
    assert(sp_trr_members(s1, None, None, None) == sp_trr_after(at, Some(b), None, None));
    lemma_sp_ws_id(at);
    lemma_sp_lit_self(seq![','], mt);
    assert(mt[0] == '"');
    lemma_sp_ws_id(mt);
    lemma_len_lt(seq![','], mt, at);
    assert(sp_trr_after(at, Some(b), None, None) == sp_trr_members(
        mt,
        Some(b),
        None,
        None,
    ));
    assert(tailt[0] == '[');
    lemma_sp_member_name_round(key_tracks(), tailt);
    lemma_tracks_round(v.tracks, close);
    lemma_len_lt(
        seq!['"'] + key_tracks() + seq!['"', ':'] + json_of_tracks(v.tracks),
        close,
        mt,
    );
    assert(sp_trr_members(mt, Some(b), None, None) == sp_trr_after(
        close,
        Some(b),
        None,
        Some(v.tracks),
    ));
    lemma_sp_ws_id(close);
    lemma_sp_lit_mismatch(close, seq![','], 0);
    lemma_sp_lit_self(seq!['}'], rest);
    assert((TracksResponseV {
        requires_immediate_renegotiation: b,
        session_description: None,
        tracks: v.tracks,
    }) =~= v);
}

proof fn lemma_tracks_response_round(v: TracksResponseV, rest: Seq<char>)
    ensures
        sp_tracks_response(json_of_tracks_response(v) + rest) == Some((v, rest)),
{
    match v.session_description {
        Some(d) => {
            lemma_tracks_response_round_some(v, d, rest);
        },
        None => {
            lemma_tracks_response_round_none(v, rest);
        },
    }
}

#[verifier::rlimit(100)]
proof fn lemma_session_state_round(v: SessionStateV, rest: Seq<char>)
    ensures
        sp_session_state(json_of_session_state(v) + rest) == Some((v, rest)),
{
    lemma_key_plain_all();
    lemma_keys_distinct();
    let s = json_of_session_state(v) + rest;
    let close = seq!['}'] + rest;
    let tail = json_of_tracks(v.tracks) + close;
    let s1 = seq!['"'] + key_tracks() + seq!['"', ':'] + tail;
    assert(s =~= seq!['{'] + s1);
    lemma_sp_lit_self(seq!['{'], s1);
    assert(s1[0] == '"');
    lemma_sp_ws_id(s1);
    lemma_sp_lit_mismatch(s1, seq!['}'], 0);
    assert(tail[0] == '[');
    lemma_sp_member_name_round(key_tracks(), tail);
    lemma_tracks_round(v.tracks, close);
    lemma_len_lt(seq!['"'] + key_tracks() + seq!['"', ':'] + json_of_tracks(v.tracks), close, s1);
    assert(sp_ss_members(s1, None) == sp_ss_after(close, Some(v.tracks)));
    lemma_sp_ws_id(close);
    lemma_sp_lit_mismatch(close, seq![','], 0);
    lemma_sp_lit_self(seq!['}'], rest);
    assert((SessionStateV { tracks: v.tracks }) =~= v);
}

// ---------------------------------------------------------------------------
// The public laws.
// ---------------------------------------------------------------------------
/// Law: a serialized track object parses back to itself; in particular every
/// absent optional field comes back absent.
pub proof fn track_object_round_trip(t: TrackObjectV)
    ensures
        sp_doc_track(json_of_track(t)) == Some(t),
{
    let j = json_of_track(t);
    lemma_track_round(t, Seq::<char>::empty());
    assert(j + Seq::<char>::empty() =~= j);
    assert(j[0] == '{');
    lemma_sp_ws_id(j);
    lemma_sp_ws_id(Seq::<char>::empty());
}

/// Law: a serialized session description parses back to itself.
pub proof fn session_description_round_trip(d: SessionDescriptionV)
    ensures
        sp_doc_session_description(json_of_session_description(d)) == Some(d),
{
    let j = json_of_session_description(d);
    lemma_session_description_round(d, Seq::<char>::empty());
    assert(j + Seq::<char>::empty() =~= j);
    assert(j[0] == '{');
    lemma_sp_ws_id(j);
    lemma_sp_ws_id(Seq::<char>::empty());
}

/// Law: a serialized tracks request parses back to itself; with no session
/// description the serialized form has no such member, and parsing yields
/// none back.
pub proof fn tracks_request_round_trip(r: TracksRequestV)
    ensures
        sp_doc_tracks_request(json_of_tracks_request(r)) == Some(r),
{
    let j = json_of_tracks_request(r);
    lemma_tracks_request_round(r, Seq::<char>::empty());
    assert(j + Seq::<char>::empty() =~= j);
    assert(j[0] == '{');
    lemma_sp_ws_id(j);
    lemma_sp_ws_id(Seq::<char>::empty());
}

/// Law: a serialized new-session response parses back to itself.
pub proof fn new_session_response_round_trip(v: NewSessionResponseV)
    ensures
        sp_doc_new_session_response(json_of_new_session_response(v)) == Some(v),
{
    let j = json_of_new_session_response(v);
    lemma_new_session_response_round(v, Seq::<char>::empty());
    assert(j + Seq::<char>::empty() =~= j);
    assert(j[0] == '{');
    lemma_sp_ws_id(j);
    lemma_sp_ws_id(Seq::<char>::empty());
}

/// Law: a serialized tracks response parses back to itself.
pub proof fn tracks_response_round_trip(v: TracksResponseV)
    ensures
        sp_doc_tracks_response(json_of_tracks_response(v)) == Some(v),
{
    let j = json_of_tracks_response(v);
    lemma_tracks_response_round(v, Seq::<char>::empty());
    assert(j + Seq::<char>::empty() =~= j);
    assert(j[0] == '{');
    lemma_sp_ws_id(j);
    lemma_sp_ws_id(Seq::<char>::empty());
}

/// Law: a serialized session state parses back to itself.
pub proof fn session_state_round_trip(v: SessionStateV)
    ensures
        sp_doc_session_state(json_of_session_state(v)) == Some(v),
{
    let j = json_of_session_state(v);
    lemma_session_state_round(v, Seq::<char>::empty());
    assert(j + Seq::<char>::empty() =~= j);
    assert(j[0] == '{');
    lemma_sp_ws_id(j);
    lemma_sp_ws_id(Seq::<char>::empty());
}

/// Law: a track object with every field absent serializes to the two-byte
/// document `{}`.
pub proof fn empty_track_object_serializes_to_braces()
    ensures
        json_of_track(
            TrackObjectV { location: None, mid: None, track_name: None, session_id: None },
        ) =~= seq!['{', '}'],
{
}

} // verus!
