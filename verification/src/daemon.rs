//! Per-connection handling of the daemon: decode the request, classify the
//! audio artifact, and reply.  A request that does not decode gets no reply;
//! a missing file gets a failure naming its path; an artifact no larger than
//! the container header gets success with empty text; anything else goes to
//! the inference capability, whose text is then wrapped in a success reply.

use vstd::prelude::*;
use vstd::string::StringExecFns;
use crate::audio::{artifact_empty, artifact_is_empty, WAV_HEADER_LEN};
use crate::protocol::{ResponseModel, TranscriptionResponse};

verus! {

/// The well-known filesystem path of the daemon's local socket.
pub fn default_socket_path() -> (r: String)
    ensures
        r@ == "/tmp/whisp-away-daemon.sock"@,
{
    String::from_str("/tmp/whisp-away-daemon.sock")
}

/// The reply for a request whose audio file does not exist.
pub open spec fn missing_response_model(path: Seq<char>) -> ResponseModel {
    ResponseModel { success: false, text: None, error: Some("Audio file not found: "@ + path) }
}

/// The reply for an artifact that holds no samples: success, empty text.
pub open spec fn empty_response_model() -> ResponseModel {
    ResponseModel { success: true, text: Some(Seq::<char>::empty()), error: None }
}

/// The reply once the inference capability produced `text`.
pub open spec fn text_response_model(text: Seq<char>) -> ResponseModel {
    ResponseModel { success: true, text: Some(text), error: None }
}

/// What the daemon replies before invoking inference: `None` exactly when
/// the artifact exists and holds audio, so that inference must run.
pub open spec fn connection_response_model(path: Seq<char>, exists: bool, len: u64) -> Option<
    ResponseModel,
> {
    if !exists {
        Some(missing_response_model(path))
    } else if artifact_empty(len) {
        Some(empty_response_model())
    } else {
        None
    }
}

/// What the direct (daemon-less) path does before invoking inference:
/// an empty artifact yields empty text at once, never an error.
pub open spec fn direct_precheck_model(len: u64) -> Option<Seq<char>> {
    if artifact_empty(len) {
        Some(Seq::<char>::empty())
    } else {
        None
    }
}

/// Decides the daemon's reply from the artifact's state, or `None` when
/// inference must run.
pub fn connection_response(audio_path: &str, exists: bool, len: u64) -> (r: Option<
    TranscriptionResponse,
>)
    ensures
        match r {
            Some(resp) => {
                &&& connection_response_model(audio_path@, exists, len) == Some(resp@)
                &&& resp.valid()
            },
            None => connection_response_model(audio_path@, exists, len) is None,
        },
{
    if !exists {
        let mut msg = String::from_str("Audio file not found: ");
        msg.append(audio_path);
        Some(TranscriptionResponse { success: false, text: None, error: Some(msg) })
    } else if artifact_is_empty(len) {
        Some(TranscriptionResponse { success: true, text: Some(String::new()), error: None })
    } else {
        None
    }
}

/// Wraps the inference capability's text in a success reply.
pub fn text_response(text: String) -> (r: TranscriptionResponse)
    ensures
        r@ == text_response_model(text@),
        r.valid(),
{
    TranscriptionResponse { success: true, text: Some(text), error: None }
}

/// The direct path's pre-check: empty artifacts produce empty text without
/// ever invoking inference.
pub fn direct_precheck(len: u64) -> (r: Option<String>)
    ensures
        match r {
            Some(t) => direct_precheck_model(len) == Some(t@),
            None => direct_precheck_model(len) is None,
        },
{
    if artifact_is_empty(len) {
        Some(String::new())
    } else {
        None
    }
}

/// An artifact whose size does not exceed the container header is treated
/// as empty by the daemon and by the direct path alike: both produce success
/// with empty text, never an error.
pub proof fn lemma_empty_artifact_success(path: Seq<char>, len: u64)
    requires
        len <= WAV_HEADER_LEN,
    ensures
        connection_response_model(path, true, len) == Some(empty_response_model()),
        empty_response_model().success,
        empty_response_model().text == Some(Seq::<char>::empty()),
        empty_response_model().error is None,
        direct_precheck_model(len) == Some(Seq::<char>::empty()),
{
}

/// Replies to different requests do not mix: the failure reply for a missing
/// file names exactly the path that its own request carried, so two requests
/// with different paths can never receive each other's reply.
pub proof fn lemma_missing_reply_names_own_request(path1: Seq<char>, path2: Seq<char>)
    requires
        path1 != path2,
    ensures
        missing_response_model(path1) != missing_response_model(path2),
{
    let p = "Audio file not found: "@;
    assert((p + path1).skip(p.len() as int) =~= path1);
    assert((p + path2).skip(p.len() as int) =~= path2);
}

} // verus!
