//! The client's request/fallback controller.  A transcription attempt starts
//! by resolving the recorded artifact, then tries the daemon; any
//! transport-level failure switches to the direct fallback path, while a
//! daemon-reported failure terminates without fallback.  On every terminal
//! path that had an artifact on disk, the artifact is deleted exactly once.

use vstd::prelude::*;
use crate::protocol::{decode_response, decode_response_spec, ResponseModel};
use crate::strutil::{trim_spec, trim_str};

verus! {

/// How a daemon reply is acted upon.
#[derive(Clone, Copy, Debug, PartialEq, Eq, Structural)]
pub enum ReplyKind {
    /// Success with non-blank text: hand it to text injection.
    TypedText,
    /// Success with blank text: report that no speech was detected.
    NoSpeech,
    /// Success without a text field: report an unparsable reply.
    ParseFailure,
    /// Failure reported by the daemon (or an undecodable reply): report it,
    /// and do not fall back.
    BackendFailure,
}

/// What a reply means, as a function of its decoded model alone.
pub open spec fn reply_kind_spec(d: Option<ResponseModel>) -> ReplyKind {
    match d {
        Some(m) => if m.success {
            match m.text {
                Some(t) => if trim_spec(t).len() == 0 {
                    ReplyKind::NoSpeech
                } else {
                    ReplyKind::TypedText
                },
                None => ReplyKind::ParseFailure,
            }
        } else {
            ReplyKind::BackendFailure
        },
        None => ReplyKind::BackendFailure,
    }
}

/// Interprets a raw daemon reply: how to act on it and, for non-blank
/// success, the trimmed text to hand to text injection.
pub fn interpret_reply(response: &str) -> (r: (ReplyKind, Option<String>))
    ensures
        r.0 == reply_kind_spec(decode_response_spec(response@)),
        match r.1 {
            Some(t) => r.0 == ReplyKind::TypedText && t@ == trim_spec(
                ((decode_response_spec(response@))->0).text->0,
            ),
            None => r.0 != ReplyKind::TypedText,
        },
{
    match decode_response(response) {
        Some(resp) => {
            if resp.success {
                match resp.text {
                    Some(t) => {
                        let trimmed = trim_str(t.as_str());
                        if trimmed.as_str().is_empty() {
                            (ReplyKind::NoSpeech, None)
                        } else {
                            (ReplyKind::TypedText, Some(trimmed))
                        }
                    },
                    None => (ReplyKind::ParseFailure, None),
                }
            } else {
                (ReplyKind::BackendFailure, None)
            }
        },
        None => (ReplyKind::BackendFailure, None),
    }
}

/// Where the controller stands.
#[derive(Clone, Copy, Debug, PartialEq, Eq, Structural)]
pub enum ClientPhase {
    /// Waiting for the recording tracker to resolve the artifact.
    AwaitArtifact,
    /// Artifact in hand; waiting for the daemon exchange to finish.
    AwaitDaemon,
    /// Daemon unreachable; waiting for the direct fallback to finish.
    AwaitFallback,
    /// A terminal state was reached.
    Done,
}

/// What the surrounding process reports back to the controller.
#[derive(Clone, Copy, Debug, PartialEq, Eq, Structural)]
pub enum ClientEvent {
    /// No recording was ever started: a normal, silent outcome.
    NoRecording,
    /// A path was resolved but no file exists there.
    ArtifactMissing,
    /// The artifact exists but holds no samples.
    ArtifactEmpty,
    /// The artifact exists and holds audio.
    ArtifactReady,
    /// The daemon exchange completed and its reply was interpreted.
    DaemonReply(ReplyKind),
    /// Connecting, writing or reading failed: the daemon is unreachable.
    TransportFailed,
    /// The direct fallback produced text.
    FallbackSucceeded,
    /// The direct fallback itself failed.
    FallbackFailed,
}

/// The terminal outcomes of one transcription attempt.
#[derive(Clone, Copy, Debug, PartialEq, Eq, Structural)]
pub enum ClientTerminal {
    NoRecordingFound,
    NoAudioRecorded,
    EmptyAudio,
    DaemonTyped,
    DaemonNoSpeech,
    DaemonParseFailure,
    DaemonBackendFailure,
    FallbackOk,
    FallbackFailed,
}

/// The user-visible notice a step asks the surrounding process to raise.
#[derive(Clone, Copy, Debug, PartialEq, Eq, Structural)]
pub enum ClientNotice {
    NoRecordingFound,
    NoAudioRecorded,
    EmptyAudio,
    Transcribing,
    NoSpeech,
    Typed,
    CouldNotParse,
    TranscriptionFailed,
    DaemonUnavailable,
}

/// What the surrounding process must do after a step.
#[derive(Clone, Copy, Debug, PartialEq, Eq, Structural)]
pub struct ClientEffects {
    /// Delete the audio artifact now.
    pub delete_artifact: bool,
    /// Contact the daemon over the socket now.
    pub send_request: bool,
    /// Run the direct fallback transcription now.
    pub run_fallback: bool,
    /// Raise this notice.
    pub notice: Option<ClientNotice>,
    /// The attempt ended with this outcome.
    pub terminal: Option<ClientTerminal>,
}

/// The controller's state: its phase, whether an artifact file exists for
/// this attempt, and whether it has been deleted.
#[derive(Clone, Copy, Debug, PartialEq, Eq, Structural)]
pub struct ClientController {
    pub phase: ClientPhase,
    pub has_artifact: bool,
    pub deleted: bool,
}

/// A step's result: the next state and what must be done.
pub ghost struct ClientStep {
    pub state: ClientController,
    pub effects: ClientEffects,
}

pub open spec fn no_effects() -> ClientEffects {
    ClientEffects {
        delete_artifact: false,
        send_request: false,
        run_fallback: false,
        notice: None,
        terminal: None,
    }
}

pub open spec fn initial_client() -> ClientController {
    ClientController { phase: ClientPhase::AwaitArtifact, has_artifact: false, deleted: false }
}

/// The controller's transition function.  Events that do not belong to the
/// current phase change nothing.
pub open spec fn client_step_spec(s: ClientController, ev: ClientEvent) -> ClientStep {
    match (s.phase, ev) {
        (ClientPhase::AwaitArtifact, ClientEvent::NoRecording) => ClientStep {
            state: ClientController { phase: ClientPhase::Done, ..s },
            effects: ClientEffects {
                notice: Some(ClientNotice::NoRecordingFound),
                terminal: Some(ClientTerminal::NoRecordingFound),
                ..no_effects()
            },
        },
        (ClientPhase::AwaitArtifact, ClientEvent::ArtifactMissing) => ClientStep {
            state: ClientController { phase: ClientPhase::Done, ..s },
            effects: ClientEffects {
                notice: Some(ClientNotice::NoAudioRecorded),
                terminal: Some(ClientTerminal::NoAudioRecorded),
                ..no_effects()
            },
        },
        (ClientPhase::AwaitArtifact, ClientEvent::ArtifactEmpty) => ClientStep {
            state: ClientController { phase: ClientPhase::Done, has_artifact: true, deleted: true },
            effects: ClientEffects {
                delete_artifact: true,
                notice: Some(ClientNotice::EmptyAudio),
                terminal: Some(ClientTerminal::EmptyAudio),
                ..no_effects()
            },
        },
        (ClientPhase::AwaitArtifact, ClientEvent::ArtifactReady) => ClientStep {
            state: ClientController {
                phase: ClientPhase::AwaitDaemon,
                has_artifact: true,
                deleted: false,
            },
            effects: ClientEffects {
                send_request: true,
                notice: Some(ClientNotice::Transcribing),
                ..no_effects()
            },
        },
        (ClientPhase::AwaitDaemon, ClientEvent::DaemonReply(k)) => ClientStep {
            state: ClientController { phase: ClientPhase::Done, deleted: true, ..s },
            effects: ClientEffects {
                delete_artifact: true,
                notice: Some(
                    match k {
                        ReplyKind::TypedText => ClientNotice::Typed,
                        ReplyKind::NoSpeech => ClientNotice::NoSpeech,
                        ReplyKind::ParseFailure => ClientNotice::CouldNotParse,
                        ReplyKind::BackendFailure => ClientNotice::TranscriptionFailed,
                    },
                ),
                terminal: Some(
                    match k {
                        ReplyKind::TypedText => ClientTerminal::DaemonTyped,
                        ReplyKind::NoSpeech => ClientTerminal::DaemonNoSpeech,
                        ReplyKind::ParseFailure => ClientTerminal::DaemonParseFailure,
                        ReplyKind::BackendFailure => ClientTerminal::DaemonBackendFailure,
                    },
                ),
                ..no_effects()
            },
        },
        (ClientPhase::AwaitDaemon, ClientEvent::TransportFailed) => ClientStep {
            state: ClientController { phase: ClientPhase::AwaitFallback, ..s },
            effects: ClientEffects {
                run_fallback: true,
                notice: Some(ClientNotice::DaemonUnavailable),
                ..no_effects()
            },
        },
        (ClientPhase::AwaitFallback, ClientEvent::FallbackSucceeded) => ClientStep {
            state: ClientController { phase: ClientPhase::Done, deleted: true, ..s },
            effects: ClientEffects {
                delete_artifact: true,
                terminal: Some(ClientTerminal::FallbackOk),
                ..no_effects()
            },
        },
        (ClientPhase::AwaitFallback, ClientEvent::FallbackFailed) => ClientStep {
            state: ClientController { phase: ClientPhase::Done, deleted: true, ..s },
            effects: ClientEffects {
                delete_artifact: true,
                terminal: Some(ClientTerminal::FallbackFailed),
                ..no_effects()
            },
        },
        _ => ClientStep { state: s, effects: no_effects() },
    }
}

/// States the controller can actually be in.
pub open spec fn client_inv(s: ClientController) -> bool {
    &&& s.deleted ==> s.has_artifact
    &&& s.phase == ClientPhase::AwaitArtifact ==> !s.has_artifact && !s.deleted
    &&& s.phase == ClientPhase::AwaitDaemon ==> s.has_artifact && !s.deleted
    &&& s.phase == ClientPhase::AwaitFallback ==> s.has_artifact && !s.deleted
    &&& s.phase == ClientPhase::Done && s.has_artifact ==> s.deleted
}

impl ClientController {
    /// A fresh controller, before the artifact is resolved.
    pub fn new() -> (r: ClientController)
        ensures
            r == initial_client(),
            client_inv(r),
    {
        ClientController {
            phase: ClientPhase::AwaitArtifact,
            has_artifact: false,
            deleted: false,
        }
    }

    /// Feeds one event to the controller and says what must be done next.
    pub fn step(&mut self, ev: ClientEvent) -> (eff: ClientEffects)
        ensures
            *final(self) == client_step_spec(*old(self), ev).state,
            eff == client_step_spec(*old(self), ev).effects,
    {
        let none_eff = ClientEffects {
            delete_artifact: false,
            send_request: false,
            run_fallback: false,
            notice: None,
            terminal: None,
        };
        match (self.phase, ev) {
            (ClientPhase::AwaitArtifact, ClientEvent::NoRecording) => {
                self.phase = ClientPhase::Done;
                ClientEffects {
                    notice: Some(ClientNotice::NoRecordingFound),
                    terminal: Some(ClientTerminal::NoRecordingFound),
                    ..none_eff
                }
            },
            (ClientPhase::AwaitArtifact, ClientEvent::ArtifactMissing) => {
                self.phase = ClientPhase::Done;
                ClientEffects {
                    notice: Some(ClientNotice::NoAudioRecorded),
                    terminal: Some(ClientTerminal::NoAudioRecorded),
                    ..none_eff
                }
            },
            (ClientPhase::AwaitArtifact, ClientEvent::ArtifactEmpty) => {
                self.phase = ClientPhase::Done;
                self.has_artifact = true;
                self.deleted = true;
                ClientEffects {
                    delete_artifact: true,
                    notice: Some(ClientNotice::EmptyAudio),
                    terminal: Some(ClientTerminal::EmptyAudio),
                    ..none_eff
                }
            },
            (ClientPhase::AwaitArtifact, ClientEvent::ArtifactReady) => {
                self.phase = ClientPhase::AwaitDaemon;
                self.has_artifact = true;
                self.deleted = false;
                ClientEffects {
                    send_request: true,
                    notice: Some(ClientNotice::Transcribing),
                    ..none_eff
                }
            },
            (ClientPhase::AwaitDaemon, ClientEvent::DaemonReply(k)) => {
                self.phase = ClientPhase::Done;
                self.deleted = true;
                ClientEffects {
                    delete_artifact: true,
                    notice: Some(
                        match k {
                            ReplyKind::TypedText => ClientNotice::Typed,
                            ReplyKind::NoSpeech => ClientNotice::NoSpeech,
                            ReplyKind::ParseFailure => ClientNotice::CouldNotParse,
                            ReplyKind::BackendFailure => ClientNotice::TranscriptionFailed,
                        },
                    ),
                    terminal: Some(
                        match k {
                            ReplyKind::TypedText => ClientTerminal::DaemonTyped,
                            ReplyKind::NoSpeech => ClientTerminal::DaemonNoSpeech,
                            ReplyKind::ParseFailure => ClientTerminal::DaemonParseFailure,
                            ReplyKind::BackendFailure => ClientTerminal::DaemonBackendFailure,
                        },
                    ),
                    ..none_eff
                }
            },
            (ClientPhase::AwaitDaemon, ClientEvent::TransportFailed) => {
                self.phase = ClientPhase::AwaitFallback;
                ClientEffects {
                    run_fallback: true,
                    notice: Some(ClientNotice::DaemonUnavailable),
                    ..none_eff
                }
            },
            (ClientPhase::AwaitFallback, ClientEvent::FallbackSucceeded) => {
                self.phase = ClientPhase::Done;
                self.deleted = true;
                ClientEffects {
                    delete_artifact: true,
                    terminal: Some(ClientTerminal::FallbackOk),
                    ..none_eff
                }
            },
            (ClientPhase::AwaitFallback, ClientEvent::FallbackFailed) => {
                self.phase = ClientPhase::Done;
                self.deleted = true;
                ClientEffects {
                    delete_artifact: true,
                    terminal: Some(ClientTerminal::FallbackFailed),
                    ..none_eff
                }
            },
            _ => none_eff,
        }
    }
}

/// Every step preserves the controller's invariant, asks for a deletion only
/// while the artifact still exists undeleted, and never un-deletes: so over
/// any run, the artifact is deleted at most once, and once the controller is
/// done with an artifact in hand it has been deleted.
pub proof fn lemma_client_step_sound(s: ClientController, ev: ClientEvent)
    requires
        client_inv(s),
    ensures
        client_inv(client_step_spec(s, ev).state),
        client_step_spec(s, ev).effects.delete_artifact ==> !s.deleted && client_step_spec(
            s,
            ev,
        ).state.deleted,
        s.deleted ==> client_step_spec(s, ev).state.deleted && !client_step_spec(
            s,
            ev,
        ).effects.delete_artifact,
{
}

/// With an artifact ready and no listener on the socket, the controller
/// always enters fallback and still deletes the artifact exactly once,
/// whether the fallback itself succeeds or fails.
pub proof fn lemma_unreachable_daemon_cleanup(fb_ok: bool)
    ensures
        ({
            let r1 = client_step_spec(initial_client(), ClientEvent::ArtifactReady);
            let r2 = client_step_spec(r1.state, ClientEvent::TransportFailed);
            let ev3 = if fb_ok {
                ClientEvent::FallbackSucceeded
            } else {
                ClientEvent::FallbackFailed
            };
            let r3 = client_step_spec(r2.state, ev3);
            &&& r2.state.phase == ClientPhase::AwaitFallback
            &&& r2.effects.run_fallback
            &&& r3.state.phase == ClientPhase::Done
            &&& r3.state.deleted
            &&& !r1.effects.delete_artifact
            &&& !r2.effects.delete_artifact
            &&& r3.effects.delete_artifact
            &&& r3.state.has_artifact
        }),
{
}

} // verus!
