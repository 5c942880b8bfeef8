//! The transport protocol between client and daemon: one request and one
//! response per connection, each a single structured text message with two
//! authoritative response fields.  Decoding tolerates whitespace after the
//! field separators; encoding then decoding a message recovers it exactly.

use vstd::prelude::*;
use vstd::string::StringExecFns;
use crate::strutil::{
    escape_into, escape_seq, from_chars, lemma_parse_escape, lemma_strip_lit_concat, match_lit,
    parse_string_body, parse_string_body_at, skip_spaces, skip_spaces_at, strip_lit, to_chars,
};

verus! {

/// What the client sends: the path of the audio artifact to transcribe.
pub struct TranscriptionRequest {
    pub audio_path: String,
}

/// What the daemon replies: success with the transcribed text, or failure
/// with an error description.
pub struct TranscriptionResponse {
    pub success: bool,
    pub text: Option<String>,
    pub error: Option<String>,
}

/// Mathematical model of a request.
pub ghost struct RequestModel {
    pub audio_path: Seq<char>,
}

/// Mathematical model of a response.
pub ghost struct ResponseModel {
    pub success: bool,
    pub text: Option<Seq<char>>,
    pub error: Option<Seq<char>>,
}

impl View for TranscriptionRequest {
    type V = RequestModel;

    open spec fn view(&self) -> RequestModel {
        RequestModel { audio_path: self.audio_path@ }
    }
}

impl View for TranscriptionResponse {
    type V = ResponseModel;

    open spec fn view(&self) -> ResponseModel {
        ResponseModel {
            success: self.success,
            text: match self.text {
                Some(t) => Some(t@),
                None => None,
            },
            error: match self.error {
                Some(e) => Some(e@),
                None => None,
            },
        }
    }
}

impl ResponseModel {
    /// Success carries a (possibly empty) text and no error; failure carries
    /// an error and no text.
    pub open spec fn valid(self) -> bool {
        &&& self.success ==> self.text is Some && self.error is None
        &&& !self.success ==> self.error is Some && self.text is None
    }
}

impl TranscriptionResponse {
    pub open spec fn valid(self) -> bool {
        self@.valid()
    }
}

/// The encoded form of a request.
pub open spec fn encode_request_spec(m: RequestModel) -> Seq<char> {
    "{\"audio_path\": \""@ + escape_seq(m.audio_path) + "\"}"@
}

/// The encoded form of a valid response.
pub open spec fn encode_response_spec(m: ResponseModel) -> Seq<char> {
    if m.success {
        "{\"success\":true,\"text\":\""@ + escape_seq(m.text->0) + "\"}"@
    } else {
        "{\"success\":false,\"error\":\""@ + escape_seq(m.error->0) + "\"}"@
    }
}

/// Decodes a request: a single object holding the audio path field, with
/// whitespace tolerated between tokens.
pub open spec fn decode_request_spec(s: Seq<char>) -> Option<RequestModel> {
    match strip_lit(skip_spaces(s), "{"@) {
        None => None,
        Some(s1) => match strip_lit(skip_spaces(s1), "\"audio_path\""@) {
            None => None,
            Some(s2) => match strip_lit(skip_spaces(s2), ":"@) {
                None => None,
                Some(s3) => match strip_lit(skip_spaces(s3), "\""@) {
                    None => None,
                    Some(s4) => match parse_string_body(s4) {
                        None => None,
                        Some(p) => match strip_lit(skip_spaces(p.1), "}"@) {
                            None => None,
                            Some(s5) => if skip_spaces(s5).len() == 0 {
                                Some(RequestModel { audio_path: p.0 })
                            } else {
                                None
                            },
                        },
                    },
                },
            },
        },
    }
}

/// Decodes the part of a response after the success field: either the end of
/// the object, or one text or error field.
pub open spec fn decode_response_tail_spec(success: bool, s: Seq<char>) -> Option<ResponseModel> {
    match strip_lit(skip_spaces(s), "}"@) {
        Some(s5) => if skip_spaces(s5).len() == 0 {
            Some(ResponseModel { success, text: None, error: None })
        } else {
            None
        },
        None => match strip_lit(skip_spaces(s), ","@) {
            None => None,
            Some(s6) => match strip_lit(skip_spaces(s6), "\"text\""@) {
                Some(s7) => match decode_field_value_spec(s7) {
                    None => None,
                    Some(v) => Some(ResponseModel { success, text: Some(v), error: None }),
                },
                None => match strip_lit(skip_spaces(s6), "\"error\""@) {
                    None => None,
                    Some(s7) => match decode_field_value_spec(s7) {
                        None => None,
                        Some(v) => Some(ResponseModel { success, text: None, error: Some(v) }),
                    },
                },
            },
        },
    }
}

/// Decodes `: "value" }` at the end of a response object.
pub open spec fn decode_field_value_spec(s: Seq<char>) -> Option<Seq<char>> {
    match strip_lit(skip_spaces(s), ":"@) {
        None => None,
        Some(s1) => match strip_lit(skip_spaces(s1), "\""@) {
            None => None,
            Some(s2) => match parse_string_body(s2) {
                None => None,
                Some(p) => match strip_lit(skip_spaces(p.1), "}"@) {
                    None => None,
                    Some(s3) => if skip_spaces(s3).len() == 0 {
                        Some(p.0)
                    } else {
                        None
                    },
                },
            },
        },
    }
}

/// Decodes a response: the success field, then at most one of the text and
/// error fields, with whitespace tolerated between tokens.
pub open spec fn decode_response_spec(s: Seq<char>) -> Option<ResponseModel> {
    match strip_lit(skip_spaces(s), "{"@) {
        None => None,
        Some(s1) => match strip_lit(skip_spaces(s1), "\"success\""@) {
            None => None,
            Some(s2) => match strip_lit(skip_spaces(s2), ":"@) {
                None => None,
                Some(s3) => match strip_lit(skip_spaces(s3), "true"@) {
                    Some(s4) => decode_response_tail_spec(true, s4),
                    None => match strip_lit(skip_spaces(s3), "false"@) {
                        None => None,
                        Some(s4) => decode_response_tail_spec(false, s4),
                    },
                },
            },
        },
    }
}

/// Encodes a request for the wire.
pub fn encode_request(req: &TranscriptionRequest) -> (r: String)
    ensures
        r@ == encode_request_spec(req@),
{
    let mut out = String::from_str("{\"audio_path\": \"");
    escape_into(req.audio_path.as_str(), &mut out);
    out.append("\"}");
    out
}

/// Encodes a valid response for the wire.
pub fn encode_response(resp: &TranscriptionResponse) -> (r: String)
    requires
        resp.valid(),
    ensures
        r@ == encode_response_spec(resp@),
{
    if resp.success {
        let mut out = String::from_str("{\"success\":true,\"text\":\"");
        match &resp.text {
            Some(t) => escape_into(t.as_str(), &mut out),
            None => proof { assert(false); },
        }
        out.append("\"}");
        out
    } else {
        let mut out = String::from_str("{\"success\":false,\"error\":\"");
        match &resp.error {
            Some(e) => escape_into(e.as_str(), &mut out),
            None => proof { assert(false); },
        }
        out.append("\"}");
        out
    }
}

/// Encoding a request and decoding the result yields the request back.
pub proof fn lemma_request_round_trip(m: RequestModel)
    ensures
        decode_request_spec(encode_request_spec(m)) == Some(m),
{
    reveal_strlit("{\"audio_path\": \"");
    reveal_strlit("{");
    reveal_strlit("\"audio_path\"");
    reveal_strlit(":");
    reveal_strlit(" ");
    reveal_strlit("\"");
    reveal_strlit("\"}");
    reveal_strlit("}");
    let e = escape_seq(m.audio_path);
    let w = encode_request_spec(m);
    let r1 = "\"audio_path\""@ + (":"@ + (" "@ + ("\""@ + (e + "\"}"@))));
    assert(w =~= "{"@ + r1);
    assert(skip_spaces(w) == w);
    lemma_strip_lit_concat("{"@, r1);
    let r2 = ":"@ + (" "@ + ("\""@ + (e + "\"}"@)));
    assert(skip_spaces(r1) == r1);
    lemma_strip_lit_concat("\"audio_path\""@, r2);
    let r3 = " "@ + ("\""@ + (e + "\"}"@));
    assert(skip_spaces(r2) == r2);
    lemma_strip_lit_concat(":"@, r3);
    let r4 = "\""@ + (e + "\"}"@);
    assert(r3.skip(1) =~= r4);
    assert(skip_spaces(r3) == skip_spaces(r3.skip(1)));
    assert(skip_spaces(r4) == r4);
    lemma_strip_lit_concat("\""@, e + "\"}"@);
    let body = e + "\"}"@;
    assert(body =~= escape_seq(m.audio_path) + seq!['"'] + "}"@);
    lemma_parse_escape(m.audio_path, "}"@);
    assert(parse_string_body(body) == Some((m.audio_path, "}"@)));
    assert(skip_spaces("}"@) == "}"@);
    lemma_strip_lit_concat("}"@, Seq::<char>::empty());
    assert("}"@ + Seq::<char>::empty() =~= "}"@);
    assert(skip_spaces(Seq::<char>::empty()).len() == 0);
}

/// Decodes a request from the wire.
pub fn decode_request(s: &str) -> (r: Option<TranscriptionRequest>)
    ensures
        match r {
            Some(req) => decode_request_spec(s@) == Some(req@),
            None => decode_request_spec(s@) is None,
        },
{
    let v = to_chars(s);
    let vs = v.as_slice();
    proof {
        assert(vs@.skip(0) =~= s@);
    }
    let i0 = skip_spaces_at(vs, 0);
    let i1 = match match_lit(vs, i0, "{") {
        Some(j) => j,
        None => { return None; },
    };
    let i2 = skip_spaces_at(vs, i1);
    let i3 = match match_lit(vs, i2, "\"audio_path\"") {
        Some(j) => j,
        None => { return None; },
    };
    let i4 = skip_spaces_at(vs, i3);
    let i5 = match match_lit(vs, i4, ":") {
        Some(j) => j,
        None => { return None; },
    };
    let i6 = skip_spaces_at(vs, i5);
    let i7 = match match_lit(vs, i6, "\"") {
        Some(j) => j,
        None => { return None; },
    };
    let (content, i8) = match parse_string_body_at(vs, i7) {
        Some(p) => p,
        None => { return None; },
    };
    let i9 = skip_spaces_at(vs, i8);
    let i10 = match match_lit(vs, i9, "}") {
        Some(j) => j,
        None => { return None; },
    };
    let i11 = skip_spaces_at(vs, i10);
    if i11 == v.len() {
        Some(TranscriptionRequest { audio_path: from_chars(content.as_slice()) })
    } else {
        None
    }
}

/// Decodes `: "value" }` at position `i`.
fn decode_field_value_at(v: &[char], i: usize) -> (r: Option<Vec<char>>)
    requires
        i <= v@.len(),
    ensures
        match r {
            Some(c) => decode_field_value_spec(v@.skip(i as int)) == Some(c@),
            None => decode_field_value_spec(v@.skip(i as int)) is None,
        },
{
    let i0 = skip_spaces_at(v, i);
    let i1 = match match_lit(v, i0, ":") {
        Some(j) => j,
        None => { return None; },
    };
    let i2 = skip_spaces_at(v, i1);
    let i3 = match match_lit(v, i2, "\"") {
        Some(j) => j,
        None => { return None; },
    };
    let (content, i4) = match parse_string_body_at(v, i3) {
        Some(p) => p,
        None => { return None; },
    };
    let i5 = skip_spaces_at(v, i4);
    let i6 = match match_lit(v, i5, "}") {
        Some(j) => j,
        None => { return None; },
    };
    let i7 = skip_spaces_at(v, i6);
    if i7 == v.len() {
        Some(content)
    } else {
        None
    }
}

/// Decodes the part of a response after the success field.
fn decode_response_tail_at(v: &[char], i: usize, success: bool) -> (r: Option<
    TranscriptionResponse,
>)
    requires
        i <= v@.len(),
    ensures
        match r {
            Some(resp) => decode_response_tail_spec(success, v@.skip(i as int)) == Some(resp@),
            None => decode_response_tail_spec(success, v@.skip(i as int)) is None,
        },
{
    let i0 = skip_spaces_at(v, i);
    match match_lit(v, i0, "}") {
        Some(j) => {
            let jg = skip_spaces_at(v, j);
            if jg == v.len() {
                return Some(TranscriptionResponse { success, text: None, error: None });
            } else {
                return None;
            }
        },
        None => {},
    }
    let i1 = match match_lit(v, i0, ",") {
        Some(j) => j,
        None => { return None; },
    };
    let i2 = skip_spaces_at(v, i1);
    match match_lit(v, i2, "\"text\"") {
        Some(j) => {
            match decode_field_value_at(v, j) {
                Some(c) => {
                    return Some(
                        TranscriptionResponse {
                            success,
                            text: Some(from_chars(c.as_slice())),
                            error: None,
                        },
                    );
                },
                None => { return None; },
            }
        },
        None => {},
    }
    match match_lit(v, i2, "\"error\"") {
        Some(j) => {
            match decode_field_value_at(v, j) {
                Some(c) => Some(
                    TranscriptionResponse {
                        success,
                        text: None,
                        error: Some(from_chars(c.as_slice())),
                    },
                ),
                None => None,
            }
        },
        None => None,
    }
}

/// Decodes a response from the wire.
pub fn decode_response(s: &str) -> (r: Option<TranscriptionResponse>)
    ensures
        match r {
            Some(resp) => decode_response_spec(s@) == Some(resp@),
            None => decode_response_spec(s@) is None,
        },
{
    let v = to_chars(s);
    let vs = v.as_slice();
    proof {
        assert(vs@.skip(0) =~= s@);
    }
    let i0 = skip_spaces_at(vs, 0);
    let i1 = match match_lit(vs, i0, "{") {
        Some(j) => j,
        None => { return None; },
    };
    let i2 = skip_spaces_at(vs, i1);
    let i3 = match match_lit(vs, i2, "\"success\"") {
        Some(j) => j,
        None => { return None; },
    };
    let i4 = skip_spaces_at(vs, i3);
    let i5 = match match_lit(vs, i4, ":") {
        Some(j) => j,
        None => { return None; },
    };
    let i6 = skip_spaces_at(vs, i5);
    match match_lit(vs, i6, "true") {
        Some(j) => {
            return decode_response_tail_at(vs, j, true);
        },
        None => {},
    }
    match match_lit(vs, i6, "false") {
        Some(j) => decode_response_tail_at(vs, j, false),
        None => None,
    }
}

/// Extracts the text field of a response, when the response decodes and
/// carries one.
pub fn extract_text_from_response(response: &str) -> (r: Option<String>)
    ensures
        ({
            let d = decode_response_spec(response@);
            match r {
                Some(t) => d is Some && (d->0).text == Some(t@),
                None => d is None || (d->0).text is None,
            }
        }),
{
    match decode_response(response) {
        Some(resp) => resp.text,
        None => None,
    }
}

/// Whether a response decodes and reports success.
pub fn response_indicates_success(response: &str) -> (r: bool)
    ensures
        ({
            let d = decode_response_spec(response@);
            r == (d is Some && (d->0).success)
        }),
{
    match decode_response(response) {
        Some(resp) => resp.success,
        None => false,
    }
}

/// Two different valid responses never share an encoding: a reply on the
/// wire pins down the response it carries.
pub proof fn lemma_encode_response_injective(m1: ResponseModel, m2: ResponseModel)
    requires
        m1.valid(),
        m2.valid(),
        encode_response_spec(m1) == encode_response_spec(m2),
    ensures
        m1 == m2,
{
    lemma_response_round_trip(m1);
    lemma_response_round_trip(m2);
}

/// Two different requests never share an encoding.
pub proof fn lemma_encode_request_injective(m1: RequestModel, m2: RequestModel)
    requires
        encode_request_spec(m1) == encode_request_spec(m2),
    ensures
        m1 == m2,
{
    lemma_request_round_trip(m1);
    lemma_request_round_trip(m2);
}

/// A field value written as `: "escaped(v)"}` reads back as `v`.
proof fn lemma_field_value_round(v: Seq<char>)
    ensures
        decode_field_value_spec(":"@ + ("\""@ + (escape_seq(v) + "\"}"@))) == Some(v),
{
    reveal_strlit(":");
    reveal_strlit("\"");
    reveal_strlit("\"}");
    reveal_strlit("}");
    let e = escape_seq(v);
    let r6 = ":"@ + ("\""@ + (e + "\"}"@));
    assert(skip_spaces(r6) == r6);
    lemma_strip_lit_concat(":"@, "\""@ + (e + "\"}"@));
    let r7 = "\""@ + (e + "\"}"@);
    assert(skip_spaces(r7) == r7);
    lemma_strip_lit_concat("\""@, e + "\"}"@);
    let body = e + "\"}"@;
    assert(body =~= escape_seq(v) + seq!['"'] + "}"@);
    lemma_parse_escape(v, "}"@);
    assert(skip_spaces("}"@) == "}"@);
    lemma_strip_lit_concat("}"@, Seq::<char>::empty());
    assert("}"@ + Seq::<char>::empty() =~= "}"@);
    assert(skip_spaces(Seq::<char>::empty()).len() == 0);
}

/// The response tail `,"text": "escaped(v)"}` reads back as a text field.
proof fn lemma_tail_text_round(success: bool, v: Seq<char>)
    ensures
        decode_response_tail_spec(
            success,
            ","@ + ("\"text\""@ + (":"@ + ("\""@ + (escape_seq(v) + "\"}"@)))),
        ) == Some(ResponseModel { success, text: Some(v), error: None }),
{
    reveal_strlit(",");
    reveal_strlit("\"text\"");
    reveal_strlit("}");
    let e = escape_seq(v);
    let fv = ":"@ + ("\""@ + (e + "\"}"@));
    let r4 = ","@ + ("\"text\""@ + fv);
    assert(skip_spaces(r4) == r4);
    assert(strip_lit(r4, "}"@) is None) by {
        if strip_lit(r4, "}"@) is Some {
            assert(r4.subrange(0, 1)[0] == '}');
            assert(r4[0] == ',');
        }
    }
    lemma_strip_lit_concat(","@, "\"text\""@ + fv);
    let r5 = "\"text\""@ + fv;
    assert(skip_spaces(r5) == r5);
    lemma_strip_lit_concat("\"text\""@, fv);
    lemma_field_value_round(v);
}

/// The response tail `,"error": "escaped(v)"}` reads back as an error field.
proof fn lemma_tail_error_round(success: bool, v: Seq<char>)
    ensures
        decode_response_tail_spec(
            success,
            ","@ + ("\"error\""@ + (":"@ + ("\""@ + (escape_seq(v) + "\"}"@)))),
        ) == Some(ResponseModel { success, text: None, error: Some(v) }),
{
    reveal_strlit(",");
    reveal_strlit("\"text\"");
    reveal_strlit("\"error\"");
    reveal_strlit("}");
    let e = escape_seq(v);
    let fv = ":"@ + ("\""@ + (e + "\"}"@));
    let r4 = ","@ + ("\"error\""@ + fv);
    assert(skip_spaces(r4) == r4);
    assert(strip_lit(r4, "}"@) is None) by {
        if strip_lit(r4, "}"@) is Some {
            assert(r4.subrange(0, 1)[0] == '}');
            assert(r4[0] == ',');
        }
    }
    lemma_strip_lit_concat(","@, "\"error\""@ + fv);
    let r5 = "\"error\""@ + fv;
    assert(skip_spaces(r5) == r5);
    assert(strip_lit(r5, "\"text\""@) is None) by {
        if strip_lit(r5, "\"text\""@) is Some {
            assert(r5.subrange(0, 6)[1] == 't');
            assert(r5[1] == 'e');
        }
    }
    lemma_strip_lit_concat("\"error\""@, fv);
    lemma_field_value_round(v);
}

/// Encoding a valid response and decoding the result yields the response
/// back: the round-trip law of the transport protocol.
pub proof fn lemma_response_round_trip(m: ResponseModel)
    requires
        m.valid(),
    ensures
        decode_response_spec(encode_response_spec(m)) == Some(m),
{
    reveal_strlit("{\"success\":true,\"text\":\"");
    reveal_strlit("{\"success\":false,\"error\":\"");
    reveal_strlit("{");
    reveal_strlit("\"success\"");
    reveal_strlit(":");
    reveal_strlit("true");
    reveal_strlit("false");
    if m.success {
        let e = escape_seq(m.text->0);
        let w = encode_response_spec(m);
        let tail = ","@ + ("\"text\""@ + (":"@ + ("\""@ + (e + "\"}"@))));
        let r1 = "\"success\""@ + (":"@ + ("true"@ + tail));
        assert(w =~= "{"@ + r1) by {
            reveal_strlit(",");
            reveal_strlit("\"text\"");
            reveal_strlit("\"");
            reveal_strlit("\"}");
        }
        assert(skip_spaces(w) == w);
        lemma_strip_lit_concat("{"@, r1);
        let r2 = ":"@ + ("true"@ + tail);
        assert(skip_spaces(r1) == r1);
        lemma_strip_lit_concat("\"success\""@, r2);
        let r3 = "true"@ + tail;
        assert(skip_spaces(r2) == r2);
        lemma_strip_lit_concat(":"@, r3);
        assert(skip_spaces(r3) == r3);
        lemma_strip_lit_concat("true"@, tail);
        lemma_tail_text_round(true, m.text->0);
        assert(m == ResponseModel { success: true, text: Some(m.text->0), error: None });
    } else {
        let e = escape_seq(m.error->0);
        let w = encode_response_spec(m);
        let tail = ","@ + ("\"error\""@ + (":"@ + ("\""@ + (e + "\"}"@))));
        let r1 = "\"success\""@ + (":"@ + ("false"@ + tail));
        assert(w =~= "{"@ + r1) by {
            reveal_strlit(",");
            reveal_strlit("\"error\"");
            reveal_strlit("\"");
            reveal_strlit("\"}");
        }
        assert(skip_spaces(w) == w);
        lemma_strip_lit_concat("{"@, r1);
        let r2 = ":"@ + ("false"@ + tail);
        assert(skip_spaces(r1) == r1);
        lemma_strip_lit_concat("\"success\""@, r2);
        let r3 = "false"@ + tail;
        assert(skip_spaces(r2) == r2);
        lemma_strip_lit_concat(":"@, r3);
        assert(skip_spaces(r3) == r3);
        assert(strip_lit(r3, "true"@) is None) by {
            if strip_lit(r3, "true"@) is Some {
                assert(r3.subrange(0, 4)[0] == 't');
                assert(r3[0] == 'f');
            }
        }
        lemma_strip_lit_concat("false"@, tail);
        lemma_tail_error_round(false, m.error->0);
        assert(m == ResponseModel { success: false, text: None, error: Some(m.error->0) });
    }
}

} // verus!
