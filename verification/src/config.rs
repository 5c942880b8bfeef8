//! Persisted configuration: which backend and model are active.  A small
//! structured record is written to a runtime-scoped file so that a later,
//! separate invocation can discover the active configuration without flags
//! or environment variables.

use vstd::prelude::*;
use vstd::string::StringExecFns;
use crate::strutil::{
    dec_rep, escape_into, escape_seq, from_chars, lemma_parse_escape, lemma_strip_lit_concat,
    match_lit, parse_string_body, parse_string_body_at, push_dec, skip_spaces, skip_spaces_at,
    str_eq, strip_lit, to_chars,
};

verus! {

/// The two interchangeable inference configurations.
#[derive(Clone, Copy, Debug, PartialEq, Eq, Structural)]
pub enum Backend {
    WhisperCpp,
    FasterWhisper,
}

/// The on-disk label of a backend.
pub open spec fn backend_label_spec(b: Backend) -> Seq<char> {
    match b {
        Backend::WhisperCpp => "whisper-cpp"@,
        Backend::FasterWhisper => "faster-whisper"@,
    }
}

pub fn backend_label(b: Backend) -> (r: String)
    ensures
        r@ == backend_label_spec(b),
{
    match b {
        Backend::WhisperCpp => String::from_str("whisper-cpp"),
        Backend::FasterWhisper => String::from_str("faster-whisper"),
    }
}

/// The backend a label names, if any.
pub open spec fn parse_backend_spec(s: Seq<char>) -> Option<Backend> {
    if s == "whisper-cpp"@ {
        Some(Backend::WhisperCpp)
    } else if s == "faster-whisper"@ {
        Some(Backend::FasterWhisper)
    } else {
        None
    }
}

pub fn parse_backend(s: &str) -> (r: Option<Backend>)
    ensures
        r == parse_backend_spec(s@),
{
    if str_eq(s, "whisper-cpp") {
        Some(Backend::WhisperCpp)
    } else if str_eq(s, "faster-whisper") {
        Some(Backend::FasterWhisper)
    } else {
        None
    }
}

/// The backend that is not `b`.
pub open spec fn other_backend_spec(b: Backend) -> Backend {
    match b {
        Backend::WhisperCpp => Backend::FasterWhisper,
        Backend::FasterWhisper => Backend::WhisperCpp,
    }
}

pub fn other_backend(b: Backend) -> (r: Backend)
    ensures
        r == other_backend_spec(b),
{
    match b {
        Backend::WhisperCpp => Backend::FasterWhisper,
        Backend::FasterWhisper => Backend::WhisperCpp,
    }
}

/// The persisted record of the active configuration.
pub struct TrayState {
    pub model: String,
    pub backend: String,
}

/// Mathematical model of the persisted record.
pub ghost struct TrayStateModel {
    pub model: Seq<char>,
    pub backend: Seq<char>,
}

impl View for TrayState {
    type V = TrayStateModel;

    open spec fn view(&self) -> TrayStateModel {
        TrayStateModel { model: self.model@, backend: self.backend@ }
    }
}

/// The runtime directory used when the session offers none: a per-user
/// directory under the system temporary directory.
pub fn runtime_dir_fallback(uid: u64) -> (r: String)
    ensures
        r@ == "/tmp/whisp-away-"@ + dec_rep(uid as int),
{
    let mut out = String::from_str("/tmp/whisp-away-");
    push_dec(uid, &mut out);
    out
}

/// The path of the persisted configuration record inside the runtime
/// directory.
pub fn get_state_file(runtime_dir: &str) -> (r: String)
    ensures
        r@ == runtime_dir@ + "/whisp-away-state.json"@,
{
    let mut out = String::from_str(runtime_dir);
    out.append("/whisp-away-state.json");
    out
}

/// The encoded form of the persisted record.
pub open spec fn encode_tray_state_spec(m: TrayStateModel) -> Seq<char> {
    "{\"model\": \""@ + escape_seq(m.model) + "\", \"backend\": \""@ + escape_seq(m.backend)
        + "\"}"@
}

/// Decodes the persisted record, tolerating whitespace between tokens.
pub open spec fn decode_tray_state_spec(s: Seq<char>) -> Option<TrayStateModel> {
    match strip_lit(skip_spaces(s), "{"@) {
        None => None,
        Some(s1) => match strip_lit(skip_spaces(s1), "\"model\""@) {
            None => None,
            Some(s2) => match strip_lit(skip_spaces(s2), ":"@) {
                None => None,
                Some(s3) => match strip_lit(skip_spaces(s3), "\""@) {
                    None => None,
                    Some(s4) => match parse_string_body(s4) {
                        None => None,
                        Some(p) => match strip_lit(skip_spaces(p.1), ","@) {
                            None => None,
                            Some(s5) => match strip_lit(skip_spaces(s5), "\"backend\""@) {
                                None => None,
                                Some(s6) => match strip_lit(skip_spaces(s6), ":"@) {
                                    None => None,
                                    Some(s7) => match strip_lit(skip_spaces(s7), "\""@) {
                                        None => None,
                                        Some(s8) => match parse_string_body(s8) {
                                            None => None,
                                            Some(q) => match strip_lit(skip_spaces(q.1), "}"@) {
                                                None => None,
                                                Some(s9) => if skip_spaces(s9).len() == 0 {
                                                    Some(
                                                        TrayStateModel {
                                                            model: p.0,
                                                            backend: q.0,
                                                        },
                                                    )
                                                } else {
                                                    None
                                                },
                                            },
                                        },
                                    },
                                },
                            },
                        },
                    },
                },
            },
        },
    }
}

/// Writes the record for its file.
pub fn encode_tray_state(state: &TrayState) -> (r: String)
    ensures
        r@ == encode_tray_state_spec(state@),
{
    let mut out = String::from_str("{\"model\": \"");
    escape_into(state.model.as_str(), &mut out);
    out.append("\", \"backend\": \"");
    escape_into(state.backend.as_str(), &mut out);
    out.append("\"}");
    out
}

/// Reads the record back from its file's content.
pub fn decode_tray_state(s: &str) -> (r: Option<TrayState>)
    ensures
        match r {
            Some(st) => decode_tray_state_spec(s@) == Some(st@),
            None => decode_tray_state_spec(s@) is None,
        },
{
    let v = to_chars(s);
    let vs = v.as_slice();
    proof {
        assert(vs@.skip(0) =~= s@);
    }
    let i0 = skip_spaces_at(vs, 0);
    let i1 = match match_lit(vs, i0, "{") {
        Some(j) => j,
        None => { return None; },
    };
    let i2 = skip_spaces_at(vs, i1);
    let i3 = match match_lit(vs, i2, "\"model\"") {
        Some(j) => j,
        None => { return None; },
    };
    let i4 = skip_spaces_at(vs, i3);
    let i5 = match match_lit(vs, i4, ":") {
        Some(j) => j,
        None => { return None; },
    };
    let i6 = skip_spaces_at(vs, i5);
    let i7 = match match_lit(vs, i6, "\"") {
        Some(j) => j,
        None => { return None; },
    };
    let (model_chars, i8) = match parse_string_body_at(vs, i7) {
        Some(p) => p,
        None => { return None; },
    };
    let i9 = skip_spaces_at(vs, i8);
    let i10 = match match_lit(vs, i9, ",") {
        Some(j) => j,
        None => { return None; },
    };
    let i11 = skip_spaces_at(vs, i10);
    let i12 = match match_lit(vs, i11, "\"backend\"") {
        Some(j) => j,
        None => { return None; },
    };
    let i13 = skip_spaces_at(vs, i12);
    let i14 = match match_lit(vs, i13, ":") {
        Some(j) => j,
        None => { return None; },
    };
    let i15 = skip_spaces_at(vs, i14);
    let i16 = match match_lit(vs, i15, "\"") {
        Some(j) => j,
        None => { return None; },
    };
    let (backend_chars, i17) = match parse_string_body_at(vs, i16) {
        Some(p) => p,
        None => { return None; },
    };
    let i18 = skip_spaces_at(vs, i17);
    let i19 = match match_lit(vs, i18, "}") {
        Some(j) => j,
        None => { return None; },
    };
    let i20 = skip_spaces_at(vs, i19);
    if i20 == v.len() {
        Some(
            TrayState {
                model: from_chars(model_chars.as_slice()),
                backend: from_chars(backend_chars.as_slice()),
            },
        )
    } else {
        None
    }
}

/// A field written as `: "escaped(v)"` followed by `rest` reads back to the
/// closing quote, leaving `rest`.
proof fn lemma_tray_field(v: Seq<char>, rest: Seq<char>)
    ensures
        parse_string_body(escape_seq(v) + (seq!['"'] + rest)) == Some((v, rest)),
{
    lemma_parse_escape(v, rest);
    assert(escape_seq(v) + (seq!['"'] + rest) =~= escape_seq(v) + seq!['"'] + rest);
}

/// Writing the persisted record and reading it back yields the record
/// exactly.
pub proof fn lemma_tray_state_round_trip(m: TrayStateModel)
    ensures
        decode_tray_state_spec(encode_tray_state_spec(m)) == Some(m),
{
    reveal_strlit("{\"model\": \"");
    reveal_strlit("\", \"backend\": \"");
    reveal_strlit("{");
    reveal_strlit("\"model\"");
    reveal_strlit("\"backend\"");
    reveal_strlit(":");
    reveal_strlit(" ");
    reveal_strlit(",");
    reveal_strlit("\"");
    reveal_strlit("\"}");
    reveal_strlit("}");
    let em = escape_seq(m.model);
    let eb = escape_seq(m.backend);
    let w = encode_tray_state_spec(m);
    let mid = ","@ + (" "@ + ("\"backend\""@ + (":"@ + (" "@ + ("\""@ + (eb + "\"}"@))))));
    let r1 = "\"model\""@ + (":"@ + (" "@ + ("\""@ + (em + (seq!['"'] + mid)))));
    assert(w =~= "{"@ + r1);
    assert(skip_spaces(w) == w);
    lemma_strip_lit_concat("{"@, r1);
    let r2 = ":"@ + (" "@ + ("\""@ + (em + (seq!['"'] + mid))));
    assert(skip_spaces(r1) == r1);
    lemma_strip_lit_concat("\"model\""@, r2);
    let r3 = " "@ + ("\""@ + (em + (seq!['"'] + mid)));
    assert(skip_spaces(r2) == r2);
    lemma_strip_lit_concat(":"@, r3);
    let r4 = "\""@ + (em + (seq!['"'] + mid));
    assert(r3.skip(1) =~= r4);
    assert(skip_spaces(r3) == skip_spaces(r3.skip(1)));
    assert(skip_spaces(r4) == r4);
    lemma_strip_lit_concat("\""@, em + (seq!['"'] + mid));
    lemma_tray_field(m.model, mid);
    // now at `mid`, just after the model value's closing quote
    assert(skip_spaces(mid) == mid);
    lemma_strip_lit_concat(","@, " "@ + ("\"backend\""@ + (":"@ + (" "@ + ("\""@ + (eb
        + "\"}"@))))));
    let r5 = " "@ + ("\"backend\""@ + (":"@ + (" "@ + ("\""@ + (eb + "\"}"@)))));
    let r6 = "\"backend\""@ + (":"@ + (" "@ + ("\""@ + (eb + "\"}"@))));
    assert(r5.skip(1) =~= r6);
    assert(skip_spaces(r5) == skip_spaces(r5.skip(1)));
    assert(skip_spaces(r6) == r6);
    lemma_strip_lit_concat("\"backend\""@, ":"@ + (" "@ + ("\""@ + (eb + "\"}"@))));
    let r7 = ":"@ + (" "@ + ("\""@ + (eb + "\"}"@)));
    assert(skip_spaces(r7) == r7);
    lemma_strip_lit_concat(":"@, " "@ + ("\""@ + (eb + "\"}"@)));
    let r8 = " "@ + ("\""@ + (eb + "\"}"@));
    let r9 = "\""@ + (eb + "\"}"@);
    assert(r8.skip(1) =~= r9);
    assert(skip_spaces(r8) == skip_spaces(r8.skip(1)));
    assert(skip_spaces(r9) == r9);
    lemma_strip_lit_concat("\""@, eb + "\"}"@);
    let body = eb + "\"}"@;
    assert(body =~= escape_seq(m.backend) + (seq!['"'] + "}"@));
    lemma_tray_field(m.backend, "}"@);
    assert(skip_spaces("}"@) == "}"@);
    lemma_strip_lit_concat("}"@, Seq::<char>::empty());
    assert("}"@ + Seq::<char>::empty() =~= "}"@);
    assert(skip_spaces(Seq::<char>::empty()).len() == 0);
    assert(m == TrayStateModel { model: m.model, backend: m.backend });
}

/// The model to use, in priority order: an explicit argument, then the
/// persisted record, then the session's variable, then the default.
pub open spec fn resolve_model_spec(
    arg: Option<Seq<char>>,
    state: Option<TrayStateModel>,
    env: Option<Seq<char>>,
) -> Seq<char> {
    match arg {
        Some(a) => a,
        None => match state {
            Some(st) => st.model,
            None => match env {
                Some(e) => e,
                None => "base.en"@,
            },
        },
    }
}

/// Resolves the model from an explicit argument, the persisted record and
/// the session's model variable.
pub fn resolve_model(arg: Option<String>, state: Option<&TrayState>, env: Option<String>) -> (r:
    String)
    ensures
        r@ == resolve_model_spec(
            match arg {
                Some(a) => Some(a@),
                None => None,
            },
            match state {
                Some(st) => Some(st@),
                None => None,
            },
            match env {
                Some(e) => Some(e@),
                None => None,
            },
        ),
{
    match arg {
        Some(a) => a,
        None => match state {
            Some(st) => st.model.clone(),
            None => match env {
                Some(e) => e,
                None => String::from_str("base.en"),
            },
        },
    }
}

/// The backend to use: an explicit choice wins; otherwise the persisted
/// record's label, then the session's variable, then the default label.
pub open spec fn resolve_backend_spec(
    choice: Option<Backend>,
    state: Option<TrayStateModel>,
    env: Option<Seq<char>>,
) -> Seq<char> {
    match choice {
        Some(b) => backend_label_spec(b),
        None => match state {
            Some(st) => st.backend,
            None => match env {
                Some(e) => e,
                None => "faster-whisper"@,
            },
        },
    }
}

/// Resolves the backend label from an explicit choice, the persisted record
/// and the session's backend variable.
pub fn resolve_backend(choice: Option<Backend>, state: Option<&TrayState>, env: Option<String>) -> (r: String)
    ensures
        r@ == resolve_backend_spec(
            choice,
            match state {
                Some(st) => Some(st@),
                None => None,
            },
            match env {
                Some(e) => Some(e@),
                None => None,
            },
        ),
{
    match choice {
        Some(b) => backend_label(b),
        None => match state {
            Some(st) => st.backend.clone(),
            None => match env {
                Some(e) => e,
                None => String::from_str("faster-whisper"),
            },
        },
    }
}

/// The acceleration label shown to the user: the session's variable, or
/// `unknown`.
pub fn get_acceleration_type(env: Option<String>) -> (r: String)
    ensures
        match env {
            Some(e) => r@ == e@,
            None => r@ == "unknown"@,
        },
{
    match env {
        Some(e) => e,
        None => String::from_str("unknown"),
    }
}

} // verus!
