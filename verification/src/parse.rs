//! Executable JSON parsing of the records, proved to return exactly what the
//! `sp_*` grammar functions of the `wire` module accept.

use vstd::prelude::*;
use vstd::string::{StrSliceExecFns, StringExecFns};

use crate::schema::{
    NewSessionResponse, SdpType, SessionDescription, SessionState, TrackLocation, TrackObject,
    TrackObjectV, TracksRequest, TracksResponse, view_opt_desc, view_opt_string, view_tracks,
};
use crate::text::chars_of;
use crate::wire::{
    is_num_char, is_ws, json_of_location, json_of_sdp_type, sp_bool,
    sp_doc_new_session_response, sp_doc_session_description, sp_doc_session_state, sp_doc_track,
    sp_doc_tracks_request, sp_doc_tracks_response, sp_lit, sp_location, sp_member_name,
    sp_new_session_response, sp_nsr_after, sp_nsr_members, sp_sd_after, sp_sd_members,
    sp_sdp_type, sp_session_description, sp_session_state, sp_skip_items, sp_skip_members,
    sp_skip_num, sp_skip_value, sp_ss_after, sp_ss_members, sp_str_body, sp_string, sp_tr_after,
    sp_tr_members, sp_track, sp_track_after, sp_track_members, sp_track_step, sp_tracks,
    sp_tracks_request, sp_tracks_response, sp_tracks_rest, sp_trr_after, sp_trr_members, sp_ws,
    u_esc_char, u_esc_val, unescape_simple, unhex,
};

verus! {

pub open spec fn view_opt_tracklist(v: Option<Vec<TrackObject>>) -> Option<Seq<TrackObjectV>> {
    match v {
        Some(ts) => Some(view_tracks(ts@)),
        None => None,
    }
}

fn is_ws_char(c: char) -> (r: bool)
    ensures
        r == is_ws(c),
{
    c == ' ' || c == '\t' || c == '\n' || c == '\r'
}

fn is_num_char_exec(c: char) -> (r: bool)
    ensures
        r == is_num_char(c),
{
    ('0' <= c && c <= '9') || c == '-' || c == '+' || c == '.' || c == 'e' || c == 'E'
}

/// The value of a hex digit in either case, or -1 for any other character.
fn unhex_char(c: char) -> (r: i32)
    ensures
        r as int == unhex(c),
{
    if c == '0' { 0 } else if c == '1' { 1 } else if c == '2' { 2 } else if c == '3' { 3 }
    else if c == '4' { 4 } else if c == '5' { 5 } else if c == '6' { 6 } else if c == '7' { 7 }
    else if c == '8' { 8 } else if c == '9' { 9 } else if c == 'a' { 10 } else if c == 'b' { 11 }
    else if c == 'c' { 12 } else if c == 'd' { 13 } else if c == 'e' { 14 } else if c == 'f' { 15 }
    else if c == 'A' { 10 } else if c == 'B' { 11 } else if c == 'C' { 12 } else if c == 'D' { 13 }
    else if c == 'E' { 14 } else if c == 'F' { 15 }
    else { -1 }
}

/// Whether the parsed member name `a` is the known name `b`.
fn eq_key(a: &String, b: &str) -> (r: bool)
    ensures
        r == (a@ == b@),
{
    let o = String::from_str(b);
    *a == o
}

/// Skip whitespace starting at `pos`.
fn p_ws(s: &Vec<char>, pos: usize) -> (r: usize)
    requires
        pos <= s@.len(),
    ensures
        pos <= r <= s@.len(),
        s@.skip(r as int) == sp_ws(s@.skip(pos as int)),
{
    let mut i: usize = pos;
    while i < s.len() && is_ws_char(s[i])
        invariant
            pos <= i <= s@.len(),
            sp_ws(s@.skip(pos as int)) == sp_ws(s@.skip(i as int)),
        decreases s@.len() - i,
    {
        proof {
            assert(s@.skip(i as int)[0] == s@[i as int]);
            assert(s@.skip(i as int).skip(1) =~= s@.skip(i as int + 1));
        }
        i += 1;
    }
    proof {
        if i < s.len() {
            assert(s@.skip(i as int)[0] == s@[i as int]);
        }
        assert(sp_ws(s@.skip(i as int)) == s@.skip(i as int));
    }
    i
}

/// Skip a maximal run of number characters starting at `pos`.
fn p_skip_num(s: &Vec<char>, pos: usize) -> (r: usize)
    requires
        pos <= s@.len(),
    ensures
        pos <= r <= s@.len(),
        s@.skip(r as int) == sp_skip_num(s@.skip(pos as int)),
        pos < s@.len() && is_num_char(s@[pos as int]) ==> pos < r,
{
    let mut i: usize = pos;
    while i < s.len() && is_num_char_exec(s[i])
        invariant
            pos <= i <= s@.len(),
            sp_skip_num(s@.skip(pos as int)) == sp_skip_num(s@.skip(i as int)),
            pos < s@.len() && is_num_char(s@[pos as int]) && i == pos ==> pos == i,
            i > pos || i == pos,
            pos < s@.len() && is_num_char(s@[pos as int]) ==> (i > pos || (i == pos && i < s@.len()
                && is_num_char(s@[i as int]))),
        decreases s@.len() - i,
    {
        proof {
            assert(s@.skip(i as int)[0] == s@[i as int]);
            assert(s@.skip(i as int).skip(1) =~= s@.skip(i as int + 1));
        }
        i += 1;
    }
    proof {
        if i < s.len() {
            assert(s@.skip(i as int)[0] == s@[i as int]);
        }
        assert(sp_skip_num(s@.skip(i as int)) == s@.skip(i as int));
    }
    i
}

/// Consume exactly the character `c` at `pos`.
fn p_char(s: &Vec<char>, pos: usize, c: char) -> (r: Option<usize>)
    requires
        pos <= s@.len(),
    ensures
        r matches Some(p) ==> pos < p <= s@.len() && sp_lit(s@.skip(pos as int), seq![c])
            == Some(s@.skip(p as int)),
        r is None ==> sp_lit(s@.skip(pos as int), seq![c]) is None,
{
    let ghost t = s@.skip(pos as int);
    if pos < s.len() && s[pos] == c {
        proof {
            assert(t[0] == s@[pos as int]);
            assert(t.subrange(0, 1) =~= seq![c]);
            assert(t.skip(1) =~= s@.skip(pos as int + 1));
        }
        Some(pos + 1)
    } else {
        proof {
            if pos < s.len() {
                assert(t.subrange(0, 1)[0] == t[0]);
                assert(t[0] == s@[pos as int]);
                assert(t.subrange(0, 1) != seq![c]);
            }
        }
        None
    }
}

/// Consume exactly the literal `lit` at `pos`.
fn p_lit(s: &Vec<char>, pos: usize, lit: &str) -> (r: Option<usize>)
    requires
        pos <= s@.len(),
    ensures
        r matches Some(p) ==> pos <= p <= s@.len() && p == pos + lit@.len() && sp_lit(
            s@.skip(pos as int),
            lit@,
        ) == Some(s@.skip(p as int)),
        r is None ==> sp_lit(s@.skip(pos as int), lit@) is None,
{
    let ghost t = s@.skip(pos as int);
    let n = lit.unicode_len();
    let slen = s.len();
    if slen - pos < n {
        proof {
            assert(lit@.len() > t.len());
        }
        return None;
    }
    let mut j: usize = 0;
    while j < n
        invariant
            0 <= j <= n,
            n == lit@.len(),
            pos <= s@.len(),
            slen == s@.len(),
            pos + n <= slen,
            t == s@.skip(pos as int),
            forall|k: int| 0 <= k < j ==> t[k] == lit@[k],
        decreases n - j,
    {
        let c = lit.get_char(j);
        if s[pos + j] != c {
            proof {
                assert(t[j as int] == s@[pos as int + j]);
                assert(t.subrange(0, n as int)[j as int] == t[j as int]);
                assert(t.subrange(0, n as int) != lit@);
            }
            return None;
        }
        proof {
            assert(t[j as int] == s@[pos as int + j]);
        }
        j += 1;
    }
    proof {
        assert(t.subrange(0, n as int) =~= lit@);
        assert(t.skip(n as int) =~= s@.skip(pos as int + n));
    }
    Some(pos + n)
}

/// Consume a whole string literal starting at its opening quote; yields the
/// unescaped content.
fn p_string(s: &Vec<char>, pos: usize) -> (r: Option<(String, usize)>)
    requires
        pos <= s@.len(),
    ensures
        r matches Some(p) ==> pos < p.1 <= s@.len() && sp_string(s@.skip(pos as int))
            == Some((p.0@, s@.skip(p.1 as int))),
        r is None ==> sp_string(s@.skip(pos as int)) is None,
{
    let start: usize = match p_char(s, pos, '"') {
        Some(i) => i,
        None => {
            return None;
        },
    };
    let mut content = String::new();
    let mut i: usize = start;
    loop
        invariant
            start <= i <= s@.len(),
            pos < start <= s@.len(),
            sp_string(s@.skip(pos as int)) == sp_str_body(s@.skip(start as int)),
            sp_str_body(s@.skip(i as int)) matches Some(q) ==> sp_str_body(
                s@.skip(start as int),
            ) == Some((content@ + q.0, q.1)),
            sp_str_body(s@.skip(i as int)) is None ==> sp_str_body(s@.skip(start as int)) is None,
        decreases s@.len() - i,
    {
        let ghost t = s@.skip(i as int);
        if i >= s.len() {
            proof {
                assert(t.len() == 0);
            }
            return None;
        }
        let c = s[i];
        proof {
            assert(t[0] == c);
        }
        if c == '"' {
            proof {
                assert(t.skip(1) =~= s@.skip(i as int + 1));
                assert(sp_str_body(t) == Some((Seq::<char>::empty(), s@.skip(i as int + 1))));
                assert(content@ + Seq::<char>::empty() =~= content@);
            }
            return Some((content, i + 1));
        } else if c == '\\' {
            if i + 1 >= s.len() {
                proof {
                    assert(t.len() < 2);
                    assert(sp_str_body(t) is None);
                }
                return None;
            }
            let e = s[i + 1];
            proof {
                assert(t[1] == e);
            }
            if e == '"' || e == '\\' || e == '/' || e == 'b' || e == 'f' || e == 'n' || e == 'r'
                || e == 't' {
                let dec: char = if e == '"' {
                    '"'
                } else if e == '\\' {
                    '\\'
                } else if e == '/' {
                    '/'
                } else if e == 'b' {
                    '\u{8}'
                } else if e == 'f' {
                    '\u{c}'
                } else if e == 'n' {
                    '\n'
                } else if e == 'r' {
                    '\r'
                } else {
                    '\t'
                };
                proof {
                    assert(unescape_simple(e) == Some(dec));
                }
                let ghost c_old = content@;
                content.push(dec);
                proof {
                    assert(t.skip(2) =~= s@.skip(i as int + 2));
                }
                i += 2;
                proof {
                    if let Some(q) = sp_str_body(s@.skip(i as int)) {
                        assert(content@ + q.0 =~= c_old + (seq![dec] + q.0));
                    }
                }
            } else if e == 'u' {
                if s.len() - i < 6 {
                    proof {
                        assert(t.len() < 6);
                        assert(sp_str_body(t) is None);
                    }
                    return None;
                }
                let h2 = unhex_char(s[i + 2]);
                let h3 = unhex_char(s[i + 3]);
                let h4 = unhex_char(s[i + 4]);
                let h5 = unhex_char(s[i + 5]);
                proof {
                    assert(t[2] == s@[i as int + 2]);
                    assert(t[3] == s@[i as int + 3]);
                    assert(t[4] == s@[i as int + 4]);
                    assert(t[5] == s@[i as int + 5]);
                }
                if h2 >= 0 && h3 >= 0 && h4 >= 0 && h5 >= 0 {
                    let v: i32 = 4096 * h2 + 256 * h3 + 16 * h4 + h5;
                    proof {
                        assert(v as int == u_esc_val(t));
                    }
                    if v < 0xD800 || v >= 0xE000 {
                        let dec: char = if v < 256 {
                            (v as u8) as char
                        } else {
                            match char::from_u32(v as u32) {
                                Some(d) => d,
                                None => {
                                    proof {
                                        assert(false);
                                    }
                                    '\u{fffd}'
                                },
                            }
                        };
                        proof {
                            if v >= 256 {
                                vstd::utf8::char_u32_cast(dec, (v as int) as u32);
                            }
                            assert(dec == u_esc_char(u_esc_val(t)));
                        }
                        let ghost c_old = content@;
                        content.push(dec);
                        proof {
                            assert(t.skip(6) =~= s@.skip(i as int + 6));
                        }
                        i += 6;
                        proof {
                            if let Some(q) = sp_str_body(s@.skip(i as int)) {
                                assert(content@ + q.0 =~= c_old + (seq![dec] + q.0));
                            }
                        }
                    } else {
                        proof {
                            assert(sp_str_body(t) is None);
                        }
                        return None;
                    }
                } else {
                    proof {
                        assert(sp_str_body(t) is None);
                    }
                    return None;
                }
            } else {
                proof {
                    assert(unescape_simple(e) is None);
                    assert(sp_str_body(t) is None);
                }
                return None;
            }
        } else if (c as u32) >= 0x20 {
            let ghost c_old = content@;
            content.push(c);
            proof {
                assert(t.skip(1) =~= s@.skip(i as int + 1));
            }
            i += 1;
            proof {
                if let Some(q) = sp_str_body(s@.skip(i as int)) {
                    assert(content@ + q.0 =~= c_old + (seq![c] + q.0));
                }
            }
        } else {
            proof {
                assert(sp_str_body(t) is None);
            }
            return None;
        }
    }
}

fn p_sdp_type(s: &Vec<char>, pos: usize) -> (r: Option<(SdpType, usize)>)
    requires
        pos <= s@.len(),
    ensures
        r matches Some(p) ==> pos < p.1 <= s@.len() && sp_sdp_type(s@.skip(pos as int))
            == Some((p.0, s@.skip(p.1 as int))),
        r is None ==> sp_sdp_type(s@.skip(pos as int)) is None,
{
    proof {
        reveal_strlit("\"offer\"");
        reveal_strlit("offer");
        reveal_strlit("\"answer\"");
        reveal_strlit("answer");
        assert("\"offer\""@ =~= json_of_sdp_type(SdpType::Offer));
        assert("\"answer\""@ =~= json_of_sdp_type(SdpType::Answer));
    }
    match p_lit(s, pos, "\"offer\"") {
        Some(p) => Some((SdpType::Offer, p)),
        None => match p_lit(s, pos, "\"answer\"") {
            Some(p) => Some((SdpType::Answer, p)),
            None => None,
        },
    }
}

fn p_location(s: &Vec<char>, pos: usize) -> (r: Option<(TrackLocation, usize)>)
    requires
        pos <= s@.len(),
    ensures
        r matches Some(p) ==> pos < p.1 <= s@.len() && sp_location(s@.skip(pos as int))
            == Some((p.0, s@.skip(p.1 as int))),
        r is None ==> sp_location(s@.skip(pos as int)) is None,
{
    proof {
        reveal_strlit("\"local\"");
        reveal_strlit("local");
        reveal_strlit("\"remote\"");
        reveal_strlit("remote");
        assert("\"local\""@ =~= json_of_location(TrackLocation::Local));
        assert("\"remote\""@ =~= json_of_location(TrackLocation::Remote));
    }
    match p_lit(s, pos, "\"local\"") {
        Some(p) => Some((TrackLocation::Local, p)),
        None => match p_lit(s, pos, "\"remote\"") {
            Some(p) => Some((TrackLocation::Remote, p)),
            None => None,
        },
    }
}

fn p_bool(s: &Vec<char>, pos: usize) -> (r: Option<(bool, usize)>)
    requires
        pos <= s@.len(),
    ensures
        r matches Some(p) ==> pos < p.1 <= s@.len() && sp_bool(s@.skip(pos as int))
            == Some((p.0, s@.skip(p.1 as int))),
        r is None ==> sp_bool(s@.skip(pos as int)) is None,
{
    proof {
        reveal_strlit("true");
        reveal_strlit("false");
    }
    match p_lit(s, pos, "true") {
        Some(p) => Some((true, p)),
        None => match p_lit(s, pos, "false") {
            Some(p) => Some((false, p)),
            None => None,
        },
    }
}

/// Consume exactly the literal `null` at `pos`.
fn p_null(s: &Vec<char>, pos: usize) -> (r: Option<usize>)
    requires
        pos <= s@.len(),
    ensures
        r matches Some(p) ==> pos < p <= s@.len() && sp_lit(
            s@.skip(pos as int),
            crate::wire::lit_null(),
        ) == Some(s@.skip(p as int)),
        r is None ==> sp_lit(s@.skip(pos as int), crate::wire::lit_null()) is None,
{
    proof {
        reveal_strlit("null");
    }
    p_lit(s, pos, "null")
}

/// Consume a member name and its colon, as `sp_member_name`.
fn p_member_name(s: &Vec<char>, pos: usize) -> (r: Option<(String, usize)>)
    requires
        pos <= s@.len(),
    ensures
        r matches Some(p) ==> pos < p.1 <= s@.len() && sp_member_name(s@.skip(pos as int))
            == Some((p.0@, s@.skip(p.1 as int))),
        r is None ==> sp_member_name(s@.skip(pos as int)) is None,
{
    match p_string(s, pos) {
        Some((name, i1)) => {
            let i2 = p_ws(s, i1);
            match p_char(s, i2, ':') {
                Some(i3) => {
                    let i4 = p_ws(s, i3);
                    Some((name, i4))
                },
                None => None,
            }
        },
        None => None,
    }
}

/// Skip one JSON value, as `sp_skip_value`.
fn p_skip_value(s: &Vec<char>, pos: usize, fuel: usize) -> (r: Option<usize>)
    requires
        pos <= s@.len(),
    ensures
        r matches Some(p) ==> pos < p <= s@.len() && sp_skip_value(
            s@.skip(pos as int),
            fuel as nat,
        ) == Some(s@.skip(p as int)),
        r is None ==> sp_skip_value(s@.skip(pos as int), fuel as nat) is None,
    decreases fuel,
{
    let ghost t = s@.skip(pos as int);
    if fuel == 0 {
        return None;
    }
    if pos >= s.len() {
        proof {
            assert(t.len() == 0);
        }
        return None;
    }
    let c = s[pos];
    proof {
        assert(t[0] == c);
    }
    if c == '"' {
        match p_string(s, pos) {
            Some((_, p)) => Some(p),
            None => None,
        }
    } else if c == '{' {
        proof {
            assert(t.skip(1) =~= s@.skip(pos as int + 1));
        }
        let i1 = p_ws(s, pos + 1);
        if let Some(i2) = p_char(s, i1, '}') {
            Some(i2)
        } else {
            p_skip_members(s, i1, fuel - 1)
        }
    } else if c == '[' {
        proof {
            assert(t.skip(1) =~= s@.skip(pos as int + 1));
        }
        let i1 = p_ws(s, pos + 1);
        if let Some(i2) = p_char(s, i1, ']') {
            Some(i2)
        } else {
            p_skip_items(s, i1, fuel - 1)
        }
    } else {
        proof {
            reveal_strlit("true");
            reveal_strlit("false");
            reveal_strlit("null");
        }
        if let Some(p) = p_lit(s, pos, "true") {
            Some(p)
        } else if let Some(p) = p_lit(s, pos, "false") {
            Some(p)
        } else if let Some(p) = p_lit(s, pos, "null") {
            Some(p)
        } else if is_num_char_exec(c) {
            Some(p_skip_num(s, pos))
        } else {
            None
        }
    }
}

/// Skip an unknown object's members, as `sp_skip_members`.
fn p_skip_members(s: &Vec<char>, pos: usize, fuel: usize) -> (r: Option<usize>)
    requires
        pos <= s@.len(),
    ensures
        r matches Some(p) ==> pos < p <= s@.len() && sp_skip_members(
            s@.skip(pos as int),
            fuel as nat,
        ) == Some(s@.skip(p as int)),
        r is None ==> sp_skip_members(s@.skip(pos as int), fuel as nat) is None,
    decreases fuel,
{
    if fuel == 0 {
        return None;
    }
    let i1 = match p_member_name(s, pos) {
        Some((_, i)) => i,
        None => {
            return None;
        },
    };
    let i2 = match p_skip_value(s, i1, fuel - 1) {
        Some(i) => i,
        None => {
            return None;
        },
    };
    let i3 = p_ws(s, i2);
    if let Some(i4) = p_char(s, i3, ',') {
        let i5 = p_ws(s, i4);
        p_skip_members(s, i5, fuel - 1)
    } else if let Some(i4) = p_char(s, i3, '}') {
        Some(i4)
    } else {
        None
    }
}

/// Skip an unknown array's items, as `sp_skip_items`.
fn p_skip_items(s: &Vec<char>, pos: usize, fuel: usize) -> (r: Option<usize>)
    requires
        pos <= s@.len(),
    ensures
        r matches Some(p) ==> pos < p <= s@.len() && sp_skip_items(
            s@.skip(pos as int),
            fuel as nat,
        ) == Some(s@.skip(p as int)),
        r is None ==> sp_skip_items(s@.skip(pos as int), fuel as nat) is None,
    decreases fuel,
{
    if fuel == 0 {
        return None;
    }
    let i1 = match p_skip_value(s, pos, fuel - 1) {
        Some(i) => i,
        None => {
            return None;
        },
    };
    let i2 = p_ws(s, i1);
    if let Some(i3) = p_char(s, i2, ',') {
        let i4 = p_ws(s, i3);
        p_skip_items(s, i4, fuel - 1)
    } else if let Some(i3) = p_char(s, i2, ']') {
        Some(i3)
    } else {
        None
    }
}

fn p_sd_members(s: &Vec<char>, pos: usize, t: Option<SdpType>, sdp: Option<String>) -> (r: Option<
    (SessionDescription, usize),
>)
    requires
        pos <= s@.len(),
    ensures
        r matches Some(p) ==> pos < p.1 <= s@.len() && sp_sd_members(
            s@.skip(pos as int),
            t,
            view_opt_string(sdp),
        ) == Some((p.0@, s@.skip(p.1 as int))),
        r is None ==> sp_sd_members(s@.skip(pos as int), t, view_opt_string(sdp)) is None,
    decreases s@.len() - pos,
{
    let (name, i1) = match p_member_name(s, pos) {
        Some(p) => p,
        None => {
            return None;
        },
    };
    let step: Option<(Option<SdpType>, Option<String>, usize)> = if eq_key(&name, "type") {
        match p_sdp_type(s, i1) {
            Some((tv, i2)) => Some((Some(tv), sdp, i2)),
            None => None,
        }
    } else if eq_key(&name, "sdp") {
        match p_string(s, i1) {
            Some((sv, i2)) => Some((t, Some(sv), i2)),
            None => None,
        }
    } else {
        match p_skip_value(s, i1, s.len() - i1) {
            Some(i2) => Some((t, sdp, i2)),
            None => None,
        }
    };
    match step {
        Some((t2, sdp2, i2)) => p_sd_after(s, i2, t2, sdp2),
        None => None,
    }
}

fn p_sd_after(s: &Vec<char>, pos: usize, t: Option<SdpType>, sdp: Option<String>) -> (r: Option<
    (SessionDescription, usize),
>)
    requires
        pos <= s@.len(),
    ensures
        r matches Some(p) ==> pos < p.1 <= s@.len() && sp_sd_after(
            s@.skip(pos as int),
            t,
            view_opt_string(sdp),
        ) == Some((p.0@, s@.skip(p.1 as int))),
        r is None ==> sp_sd_after(s@.skip(pos as int), t, view_opt_string(sdp)) is None,
    decreases s@.len() - pos,
{
    let i0 = p_ws(s, pos);
    if let Some(i1) = p_char(s, i0, ',') {
        let i2 = p_ws(s, i1);
        p_sd_members(s, i2, t, sdp)
    } else if let Some(i1) = p_char(s, i0, '}') {
        match (t, sdp) {
            (Some(tv), Some(sv)) => Some((SessionDescription { sdp_type: tv, sdp: sv }, i1)),
            _ => None,
        }
    } else {
        None
    }
}

fn p_session_description(s: &Vec<char>, pos: usize) -> (r: Option<(SessionDescription, usize)>)
    requires
        pos <= s@.len(),
    ensures
        r matches Some(p) ==> pos < p.1 <= s@.len() && sp_session_description(s@.skip(pos as int))
            == Some((p.0@, s@.skip(p.1 as int))),
        r is None ==> sp_session_description(s@.skip(pos as int)) is None,
{
    let i1 = match p_char(s, pos, '{') {
        Some(i) => i,
        None => {
            return None;
        },
    };
    let i2 = p_ws(s, i1);
    if let Some(_) = p_char(s, i2, '}') {
        return None;
    }
    p_sd_members(s, i2, None, None)
}

fn p_track_members(s: &Vec<char>, pos: usize, acc: TrackObject) -> (r: Option<
    (TrackObject, usize),
>)
    requires
        pos <= s@.len(),
    ensures
        r matches Some(p) ==> pos < p.1 <= s@.len() && sp_track_members(s@.skip(pos as int), acc@)
            == Some((p.0@, s@.skip(p.1 as int))),
        r is None ==> sp_track_members(s@.skip(pos as int), acc@) is None,
    decreases s@.len() - pos,
{
    let ghost acc0 = acc@;
    let (name, i1) = match p_member_name(s, pos) {
        Some(p) => p,
        None => {
            return None;
        },
    };
    let step: Option<(TrackObject, usize)> = if eq_key(&name, "location") {
        if let Some(i2) = p_null(s, i1) {
            Some((TrackObject { location: None, ..acc }, i2))
        } else {
            match p_location(s, i1) {
                Some((l, i2)) => Some((TrackObject { location: Some(l), ..acc }, i2)),
                None => None,
            }
        }
    } else if eq_key(&name, "mid") {
        if let Some(i2) = p_null(s, i1) {
            Some((TrackObject { mid: None, ..acc }, i2))
        } else {
            match p_string(s, i1) {
                Some((x, i2)) => Some((TrackObject { mid: Some(x), ..acc }, i2)),
                None => None,
            }
        }
    } else if eq_key(&name, "trackName") {
        if let Some(i2) = p_null(s, i1) {
            Some((TrackObject { track_name: None, ..acc }, i2))
        } else {
            match p_string(s, i1) {
                Some((x, i2)) => Some((TrackObject { track_name: Some(x), ..acc }, i2)),
                None => None,
            }
        }
    } else if eq_key(&name, "sessionId") {
        if let Some(i2) = p_null(s, i1) {
            Some((TrackObject { session_id: None, ..acc }, i2))
        } else {
            match p_string(s, i1) {
                Some((x, i2)) => Some((TrackObject { session_id: Some(x), ..acc }, i2)),
                None => None,
            }
        }
    } else {
        match p_skip_value(s, i1, s.len() - i1) {
            Some(i2) => Some((acc, i2)),
            None => None,
        }
    };
    match step {
        Some((acc2, i2)) => {
            proof {
                assert(sp_track_step(s@.skip(pos as int), acc0) == Some(
                    (acc2@, s@.skip(i2 as int)),
                ));
            }
            p_track_after(s, i2, acc2)
        },
        None => {
            proof {
                assert(sp_track_step(s@.skip(pos as int), acc0) is None);
            }
            None
        },
    }
}

fn p_track_after(s: &Vec<char>, pos: usize, acc: TrackObject) -> (r: Option<(TrackObject, usize)>)
    requires
        pos <= s@.len(),
    ensures
        r matches Some(p) ==> pos < p.1 <= s@.len() && sp_track_after(s@.skip(pos as int), acc@)
            == Some((p.0@, s@.skip(p.1 as int))),
        r is None ==> sp_track_after(s@.skip(pos as int), acc@) is None,
    decreases s@.len() - pos,
{
    let i0 = p_ws(s, pos);
    if let Some(i1) = p_char(s, i0, ',') {
        let i2 = p_ws(s, i1);
        p_track_members(s, i2, acc)
    } else if let Some(i1) = p_char(s, i0, '}') {
        Some((acc, i1))
    } else {
        None
    }
}

fn p_track(s: &Vec<char>, pos: usize) -> (r: Option<(TrackObject, usize)>)
    requires
        pos <= s@.len(),
    ensures
        r matches Some(p) ==> pos < p.1 <= s@.len() && sp_track(s@.skip(pos as int))
            == Some((p.0@, s@.skip(p.1 as int))),
        r is None ==> sp_track(s@.skip(pos as int)) is None,
{
    let i1 = match p_char(s, pos, '{') {
        Some(i) => i,
        None => {
            return None;
        },
    };
    let i2 = p_ws(s, i1);
    let acc = TrackObject { location: None, mid: None, track_name: None, session_id: None };
    proof {
        assert(acc@ =~= crate::wire::empty_track());
    }
    if let Some(i3) = p_char(s, i2, '}') {
        return Some((acc, i3));
    }
    p_track_members(s, i2, acc)
}

fn p_tracks(s: &Vec<char>, pos: usize) -> (r: Option<(Vec<TrackObject>, usize)>)
    requires
        pos <= s@.len(),
    ensures
        r matches Some(p) ==> pos < p.1 <= s@.len() && sp_tracks(s@.skip(pos as int))
            == Some((view_tracks(p.0@), s@.skip(p.1 as int))),
        r is None ==> sp_tracks(s@.skip(pos as int)) is None,
{
    let i1 = match p_char(s, pos, '[') {
        Some(i) => i,
        None => {
            return None;
        },
    };
    let i2 = p_ws(s, i1);
    if let Some(i3) = p_char(s, i2, ']') {
        let empty: Vec<TrackObject> = Vec::new();
        proof {
            assert(view_tracks(empty@) =~= Seq::<TrackObjectV>::empty());
        }
        return Some((empty, i3));
    }
    let (t0, j0) = match p_track(s, i2) {
        Some(p) => p,
        None => {
            return None;
        },
    };
    let mut acc: Vec<TrackObject> = Vec::new();
    acc.push(t0);
    let mut cur: usize = j0;
    proof {
        assert(view_tracks(acc@) =~= seq![t0@]);
    }
    loop
        invariant
            pos < cur <= s@.len(),
            sp_tracks_rest(s@.skip(cur as int)) matches Some(q) ==> sp_tracks(
                s@.skip(pos as int),
            ) == Some((view_tracks(acc@) + q.0, q.1)),
            sp_tracks_rest(s@.skip(cur as int)) is None ==> sp_tracks(s@.skip(pos as int)) is None,
        decreases s@.len() - cur,
    {
        let i4 = p_ws(s, cur);
        if let Some(i5) = p_char(s, i4, ']') {
            proof {
                assert(sp_tracks_rest(s@.skip(cur as int)) == Some(
                    (Seq::<TrackObjectV>::empty(), s@.skip(i5 as int)),
                ));
                assert(view_tracks(acc@) + Seq::<TrackObjectV>::empty() =~= view_tracks(acc@));
            }
            return Some((acc, i5));
        }
        let i6 = match p_char(s, i4, ',') {
            Some(i) => i,
            None => {
                return None;
            },
        };
        let i7 = p_ws(s, i6);
        let (t, j) = match p_track(s, i7) {
            Some(p) => p,
            None => {
                return None;
            },
        };
        let ghost acc_old = acc@;
        acc.push(t);
        proof {
            assert(view_tracks(acc@) =~= view_tracks(acc_old).push(t@));
            if let Some(q) = sp_tracks_rest(s@.skip(j as int)) {
                assert(sp_tracks_rest(s@.skip(cur as int)) == Some((seq![t@] + q.0, q.1)));
                assert(view_tracks(acc@) + q.0 =~= view_tracks(acc_old) + (seq![t@] + q.0));
            }
        }
        cur = j;
    }
}

fn p_tr_members(
    s: &Vec<char>,
    pos: usize,
    desc: Option<SessionDescription>,
    tracks: Option<Vec<TrackObject>>,
) -> (r: Option<(TracksRequest, usize)>)
    requires
        pos <= s@.len(),
    ensures
        r matches Some(p) ==> pos < p.1 <= s@.len() && sp_tr_members(
            s@.skip(pos as int),
            view_opt_desc(desc),
            view_opt_tracklist(tracks),
        ) == Some((p.0@, s@.skip(p.1 as int))),
        r is None ==> sp_tr_members(
            s@.skip(pos as int),
            view_opt_desc(desc),
            view_opt_tracklist(tracks),
        ) is None,
    decreases s@.len() - pos,
{
    let (name, i1) = match p_member_name(s, pos) {
        Some(p) => p,
        None => {
            return None;
        },
    };
    let step: Option<(Option<SessionDescription>, Option<Vec<TrackObject>>, usize)> = if eq_key(
        &name,
        "sessionDescription",
    ) {
        if let Some(i2) = p_null(s, i1) {
            Some((None, tracks, i2))
        } else {
            match p_session_description(s, i1) {
                Some((d, i2)) => Some((Some(d), tracks, i2)),
                None => None,
            }
        }
    } else if eq_key(&name, "tracks") {
        match p_tracks(s, i1) {
            Some((ts, i2)) => Some((desc, Some(ts), i2)),
            None => None,
        }
    } else {
        match p_skip_value(s, i1, s.len() - i1) {
            Some(i2) => Some((desc, tracks, i2)),
            None => None,
        }
    };
    match step {
        Some((d2, ts2, i2)) => p_tr_after(s, i2, d2, ts2),
        None => None,
    }
}

fn p_tr_after(
    s: &Vec<char>,
    pos: usize,
    desc: Option<SessionDescription>,
    tracks: Option<Vec<TrackObject>>,
) -> (r: Option<(TracksRequest, usize)>)
    requires
        pos <= s@.len(),
    ensures
        r matches Some(p) ==> pos < p.1 <= s@.len() && sp_tr_after(
            s@.skip(pos as int),
            view_opt_desc(desc),
            view_opt_tracklist(tracks),
        ) == Some((p.0@, s@.skip(p.1 as int))),
        r is None ==> sp_tr_after(
            s@.skip(pos as int),
            view_opt_desc(desc),
            view_opt_tracklist(tracks),
        ) is None,
    decreases s@.len() - pos,
{
    let i0 = p_ws(s, pos);
    if let Some(i1) = p_char(s, i0, ',') {
        let i2 = p_ws(s, i1);
        p_tr_members(s, i2, desc, tracks)
    } else if let Some(i1) = p_char(s, i0, '}') {
        match tracks {
            Some(ts) => Some((TracksRequest { session_description: desc, tracks: ts }, i1)),
            None => None,
        }
    } else {
        None
    }
}

fn p_tracks_request(s: &Vec<char>, pos: usize) -> (r: Option<(TracksRequest, usize)>)
    requires
        pos <= s@.len(),
    ensures
        r matches Some(p) ==> pos < p.1 <= s@.len() && sp_tracks_request(s@.skip(pos as int))
            == Some((p.0@, s@.skip(p.1 as int))),
        r is None ==> sp_tracks_request(s@.skip(pos as int)) is None,
{
    let i1 = match p_char(s, pos, '{') {
        Some(i) => i,
        None => {
            return None;
        },
    };
    let i2 = p_ws(s, i1);
    if let Some(_) = p_char(s, i2, '}') {
        return None;
    }
    p_tr_members(s, i2, None, None)
}

fn p_nsr_members(
    s: &Vec<char>,
    pos: usize,
    desc: Option<SessionDescription>,
    sid: Option<String>,
) -> (r: Option<(NewSessionResponse, usize)>)
    requires
        pos <= s@.len(),
    ensures
        r matches Some(p) ==> pos < p.1 <= s@.len() && sp_nsr_members(
            s@.skip(pos as int),
            view_opt_desc(desc),
            view_opt_string(sid),
        ) == Some((p.0@, s@.skip(p.1 as int))),
        r is None ==> sp_nsr_members(
            s@.skip(pos as int),
            view_opt_desc(desc),
            view_opt_string(sid),
        ) is None,
    decreases s@.len() - pos,
{
    let (name, i1) = match p_member_name(s, pos) {
        Some(p) => p,
        None => {
            return None;
        },
    };
    let step: Option<(Option<SessionDescription>, Option<String>, usize)> = if eq_key(
        &name,
        "sessionDescription",
    ) {
        match p_session_description(s, i1) {
            Some((d, i2)) => Some((Some(d), sid, i2)),
            None => None,
        }
    } else if eq_key(&name, "sessionId") {
        match p_string(s, i1) {
            Some((x, i2)) => Some((desc, Some(x), i2)),
            None => None,
        }
    } else {
        match p_skip_value(s, i1, s.len() - i1) {
            Some(i2) => Some((desc, sid, i2)),
            None => None,
        }
    };
    match step {
        Some((d2, sid2, i2)) => p_nsr_after(s, i2, d2, sid2),
        None => None,
    }
}

fn p_nsr_after(
    s: &Vec<char>,
    pos: usize,
    desc: Option<SessionDescription>,
    sid: Option<String>,
) -> (r: Option<(NewSessionResponse, usize)>)
    requires
        pos <= s@.len(),
    ensures
        r matches Some(p) ==> pos < p.1 <= s@.len() && sp_nsr_after(
            s@.skip(pos as int),
            view_opt_desc(desc),
            view_opt_string(sid),
        ) == Some((p.0@, s@.skip(p.1 as int))),
        r is None ==> sp_nsr_after(
            s@.skip(pos as int),
            view_opt_desc(desc),
            view_opt_string(sid),
        ) is None,
    decreases s@.len() - pos,
{
    let i0 = p_ws(s, pos);
    if let Some(i1) = p_char(s, i0, ',') {
        let i2 = p_ws(s, i1);
        p_nsr_members(s, i2, desc, sid)
    } else if let Some(i1) = p_char(s, i0, '}') {
        match (desc, sid) {
            (Some(d), Some(x)) => Some(
                (NewSessionResponse { session_description: d, session_id: x }, i1),
            ),
            _ => None,
        }
    } else {
        None
    }
}

fn p_new_session_response(s: &Vec<char>, pos: usize) -> (r: Option<(NewSessionResponse, usize)>)
    requires
        pos <= s@.len(),
    ensures
        r matches Some(p) ==> pos < p.1 <= s@.len() && sp_new_session_response(
            s@.skip(pos as int),
        ) == Some((p.0@, s@.skip(p.1 as int))),
        r is None ==> sp_new_session_response(s@.skip(pos as int)) is None,
{
    let i1 = match p_char(s, pos, '{') {
        Some(i) => i,
        None => {
            return None;
        },
    };
    let i2 = p_ws(s, i1);
    if let Some(_) = p_char(s, i2, '}') {
        return None;
    }
    p_nsr_members(s, i2, None, None)
}

fn p_trr_members(
    s: &Vec<char>,
    pos: usize,
    rir: Option<bool>,
    desc: Option<SessionDescription>,
    tracks: Option<Vec<TrackObject>>,
) -> (r: Option<(TracksResponse, usize)>)
    requires
        pos <= s@.len(),
    ensures
        r matches Some(p) ==> pos < p.1 <= s@.len() && sp_trr_members(
            s@.skip(pos as int),
            rir,
            view_opt_desc(desc),
            view_opt_tracklist(tracks),
        ) == Some((p.0@, s@.skip(p.1 as int))),
        r is None ==> sp_trr_members(
            s@.skip(pos as int),
            rir,
            view_opt_desc(desc),
            view_opt_tracklist(tracks),
        ) is None,
    decreases s@.len() - pos,
{
    let (name, i1) = match p_member_name(s, pos) {
        Some(p) => p,
        None => {
            return None;
        },
    };
    let step: Option<(Option<bool>, Option<SessionDescription>, Option<Vec<TrackObject>>, usize)> =
        if eq_key(&name, "requiresImmediateRenegotiation") {
        match p_bool(s, i1) {
            Some((b, i2)) => Some((Some(b), desc, tracks, i2)),
            None => None,
        }
    } else if eq_key(&name, "sessionDescription") {
        if let Some(i2) = p_null(s, i1) {
            Some((rir, None, tracks, i2))
        } else {
            match p_session_description(s, i1) {
                Some((d, i2)) => Some((rir, Some(d), tracks, i2)),
                None => None,
            }
        }
    } else if eq_key(&name, "tracks") {
        match p_tracks(s, i1) {
            Some((ts, i2)) => Some((rir, desc, Some(ts), i2)),
            None => None,
        }
    } else {
        match p_skip_value(s, i1, s.len() - i1) {
            Some(i2) => Some((rir, desc, tracks, i2)),
            None => None,
        }
    };
    match step {
        Some((b2, d2, ts2, i2)) => p_trr_after(s, i2, b2, d2, ts2),
        None => None,
    }
}

fn p_trr_after(
    s: &Vec<char>,
    pos: usize,
    rir: Option<bool>,
    desc: Option<SessionDescription>,
    tracks: Option<Vec<TrackObject>>,
) -> (r: Option<(TracksResponse, usize)>)
    requires
        pos <= s@.len(),
    ensures
        r matches Some(p) ==> pos < p.1 <= s@.len() && sp_trr_after(
            s@.skip(pos as int),
            rir,
            view_opt_desc(desc),
            view_opt_tracklist(tracks),
        ) == Some((p.0@, s@.skip(p.1 as int))),
        r is None ==> sp_trr_after(
            s@.skip(pos as int),
            rir,
            view_opt_desc(desc),
            view_opt_tracklist(tracks),
        ) is None,
    decreases s@.len() - pos,
{
    let i0 = p_ws(s, pos);
    if let Some(i1) = p_char(s, i0, ',') {
        let i2 = p_ws(s, i1);
        p_trr_members(s, i2, rir, desc, tracks)
    } else if let Some(i1) = p_char(s, i0, '}') {
        match (rir, tracks) {
            (Some(b), Some(ts)) => Some(
                (
                    TracksResponse {
                        requires_immediate_renegotiation: b,
                        session_description: desc,
                        tracks: ts,
                    },
                    i1,
                ),
            ),
            _ => None,
        }
    } else {
        None
    }
}

fn p_tracks_response(s: &Vec<char>, pos: usize) -> (r: Option<(TracksResponse, usize)>)
    requires
        pos <= s@.len(),
    ensures
        r matches Some(p) ==> pos < p.1 <= s@.len() && sp_tracks_response(s@.skip(pos as int))
            == Some((p.0@, s@.skip(p.1 as int))),
        r is None ==> sp_tracks_response(s@.skip(pos as int)) is None,
{
    let i1 = match p_char(s, pos, '{') {
        Some(i) => i,
        None => {
            return None;
        },
    };
    let i2 = p_ws(s, i1);
    if let Some(_) = p_char(s, i2, '}') {
        return None;
    }
    p_trr_members(s, i2, None, None, None)
}

fn p_ss_members(s: &Vec<char>, pos: usize, tracks: Option<Vec<TrackObject>>) -> (r: Option<
    (SessionState, usize),
>)
    requires
        pos <= s@.len(),
    ensures
        r matches Some(p) ==> pos < p.1 <= s@.len() && sp_ss_members(
            s@.skip(pos as int),
            view_opt_tracklist(tracks),
        ) == Some((p.0@, s@.skip(p.1 as int))),
        r is None ==> sp_ss_members(s@.skip(pos as int), view_opt_tracklist(tracks)) is None,
    decreases s@.len() - pos,
{
    let (name, i1) = match p_member_name(s, pos) {
        Some(p) => p,
        None => {
            return None;
        },
    };
    let step: Option<(Option<Vec<TrackObject>>, usize)> = if eq_key(&name, "tracks") {
        match p_tracks(s, i1) {
            Some((ts, i2)) => Some((Some(ts), i2)),
            None => None,
        }
    } else {
        match p_skip_value(s, i1, s.len() - i1) {
            Some(i2) => Some((tracks, i2)),
            None => None,
        }
    };
    match step {
        Some((ts2, i2)) => p_ss_after(s, i2, ts2),
        None => None,
    }
}

fn p_ss_after(s: &Vec<char>, pos: usize, tracks: Option<Vec<TrackObject>>) -> (r: Option<
    (SessionState, usize),
>)
    requires
        pos <= s@.len(),
    ensures
        r matches Some(p) ==> pos < p.1 <= s@.len() && sp_ss_after(
            s@.skip(pos as int),
            view_opt_tracklist(tracks),
        ) == Some((p.0@, s@.skip(p.1 as int))),
        r is None ==> sp_ss_after(s@.skip(pos as int), view_opt_tracklist(tracks)) is None,
    decreases s@.len() - pos,
{
    let i0 = p_ws(s, pos);
    if let Some(i1) = p_char(s, i0, ',') {
        let i2 = p_ws(s, i1);
        p_ss_members(s, i2, tracks)
    } else if let Some(i1) = p_char(s, i0, '}') {
        match tracks {
            Some(ts) => Some((SessionState { tracks: ts }, i1)),
            None => None,
        }
    } else {
        None
    }
}

fn p_session_state(s: &Vec<char>, pos: usize) -> (r: Option<(SessionState, usize)>)
    requires
        pos <= s@.len(),
    ensures
        r matches Some(p) ==> pos < p.1 <= s@.len() && sp_session_state(s@.skip(pos as int))
            == Some((p.0@, s@.skip(p.1 as int))),
        r is None ==> sp_session_state(s@.skip(pos as int)) is None,
{
    let i1 = match p_char(s, pos, '{') {
        Some(i) => i,
        None => {
            return None;
        },
    };
    let i2 = p_ws(s, i1);
    if let Some(_) = p_char(s, i2, '}') {
        return None;
    }
    p_ss_members(s, i2, None)
}

/// Whether the whole input was consumed: nothing but whitespace from `pos`.
fn p_end(s: &Vec<char>, pos: usize) -> (r: bool)
    requires
        pos <= s@.len(),
    ensures
        r == (sp_ws(s@.skip(pos as int)).len() == 0),
{
    let i = p_ws(s, pos);
    i == s.len()
}

/// Parse a whole document as one [`TrackObject`].
pub fn parse_track_object(s: &str) -> (r: Option<TrackObject>)
    ensures
        r matches Some(v) ==> sp_doc_track(s@) == Some(v@),
        r is None ==> sp_doc_track(s@) is None,
{
    let cs = chars_of(s);
    proof {
        assert(cs@.skip(0) =~= s@);
    }
    let i0 = p_ws(&cs, 0);
    match p_track(&cs, i0) {
        Some((t, p)) => if p_end(&cs, p) {
            Some(t)
        } else {
            None
        },
        None => None,
    }
}

/// Parse a whole document as one [`SessionDescription`].
pub fn parse_session_description(s: &str) -> (r: Option<SessionDescription>)
    ensures
        r matches Some(v) ==> sp_doc_session_description(s@) == Some(v@),
        r is None ==> sp_doc_session_description(s@) is None,
{
    let cs = chars_of(s);
    proof {
        assert(cs@.skip(0) =~= s@);
    }
    let i0 = p_ws(&cs, 0);
    match p_session_description(&cs, i0) {
        Some((d, p)) => if p_end(&cs, p) {
            Some(d)
        } else {
            None
        },
        None => None,
    }
}

/// Parse a whole document as one [`TracksRequest`].
pub fn parse_tracks_request(s: &str) -> (r: Option<TracksRequest>)
    ensures
        r matches Some(v) ==> sp_doc_tracks_request(s@) == Some(v@),
        r is None ==> sp_doc_tracks_request(s@) is None,
{
    let cs = chars_of(s);
    proof {
        assert(cs@.skip(0) =~= s@);
    }
    let i0 = p_ws(&cs, 0);
    match p_tracks_request(&cs, i0) {
        Some((v, p)) => if p_end(&cs, p) {
            Some(v)
        } else {
            None
        },
        None => None,
    }
}

/// Parse a whole document as one [`NewSessionResponse`].
pub fn parse_new_session_response(s: &str) -> (r: Option<NewSessionResponse>)
    ensures
        r matches Some(v) ==> sp_doc_new_session_response(s@) == Some(v@),
        r is None ==> sp_doc_new_session_response(s@) is None,
{
    let cs = chars_of(s);
    proof {
        assert(cs@.skip(0) =~= s@);
    }
    let i0 = p_ws(&cs, 0);
    match p_new_session_response(&cs, i0) {
        Some((v, p)) => if p_end(&cs, p) {
            Some(v)
        } else {
            None
        },
        None => None,
    }
}

/// Parse a whole document as one [`TracksResponse`].
pub fn parse_tracks_response(s: &str) -> (r: Option<TracksResponse>)
    ensures
        r matches Some(v) ==> sp_doc_tracks_response(s@) == Some(v@),
        r is None ==> sp_doc_tracks_response(s@) is None,
{
    let cs = chars_of(s);
    proof {
        assert(cs@.skip(0) =~= s@);
    }
    let i0 = p_ws(&cs, 0);
    match p_tracks_response(&cs, i0) {
        Some((v, p)) => if p_end(&cs, p) {
            Some(v)
        } else {
            None
        },
        None => None,
    }
}

/// Parse a whole document as one [`SessionState`].
pub fn parse_session_state(s: &str) -> (r: Option<SessionState>)
    ensures
        r matches Some(v) ==> sp_doc_session_state(s@) == Some(v@),
        r is None ==> sp_doc_session_state(s@) is None,
{
    let cs = chars_of(s);
    proof {
        assert(cs@.skip(0) =~= s@);
    }
    let i0 = p_ws(&cs, 0);
    match p_session_state(&cs, i0) {
        Some((v, p)) => if p_end(&cs, p) {
            Some(v)
        } else {
            None
        },
        None => None,
    }
}

} // verus!
