use whisp_away::client::{
    interpret_reply, ClientController, ClientEvent, ClientNotice, ClientPhase, ClientTerminal,
    ReplyKind,
};
use whisp_away::recording::{
    audio_path_marker, is_stale_artifact, override_artifact_path, parse_pid,
    recording_artifact_path, recording_pidfile_path, MarkerContent, StartEvent, StartTracker,
    StopEvent, StopOutcome, StopPhase, StopTracker,
};

#[test]
fn unreachable_daemon_falls_back_and_deletes_once() {
    for fallback_ok in [true, false] {
        let mut ctrl = ClientController::new();
        let e1 = ctrl.step(ClientEvent::ArtifactReady);
        assert!(e1.send_request);
        assert!(!e1.delete_artifact);
        let e2 = ctrl.step(ClientEvent::TransportFailed);
        assert!(e2.run_fallback);
        assert!(!e2.delete_artifact);
        assert_eq!(e2.notice, Some(ClientNotice::DaemonUnavailable));
        assert_eq!(ctrl.phase, ClientPhase::AwaitFallback);
        let e3 = ctrl.step(if fallback_ok {
            ClientEvent::FallbackSucceeded
        } else {
            ClientEvent::FallbackFailed
        });
        assert!(e3.delete_artifact);
        assert_eq!(
            e3.terminal,
            Some(if fallback_ok {
                ClientTerminal::FallbackOk
            } else {
                ClientTerminal::FallbackFailed
            })
        );
        assert_eq!(ctrl.phase, ClientPhase::Done);
        assert!(ctrl.deleted);
    }
}

#[test]
fn fallback_success_is_a_clean_terminal() {
    // socket absent, direct fallback succeeds: success terminal, artifact
    // removed exactly once, and no step ever asked for a daemon to be spawned
    let mut ctrl = ClientController::new();
    let mut deletes = 0;
    for ev in [
        ClientEvent::ArtifactReady,
        ClientEvent::TransportFailed,
        ClientEvent::FallbackSucceeded,
    ] {
        let eff = ctrl.step(ev);
        if eff.delete_artifact {
            deletes += 1;
        }
    }
    assert_eq!(deletes, 1);
    assert_eq!(ctrl.phase, ClientPhase::Done);
    assert!(ctrl.deleted);
}

#[test]
fn daemon_failure_does_not_fall_back() {
    let mut ctrl = ClientController::new();
    ctrl.step(ClientEvent::ArtifactReady);
    let eff = ctrl.step(ClientEvent::DaemonReply(ReplyKind::BackendFailure));
    assert!(!eff.run_fallback);
    assert!(eff.delete_artifact);
    assert_eq!(eff.terminal, Some(ClientTerminal::DaemonBackendFailure));
    assert_eq!(eff.notice, Some(ClientNotice::TranscriptionFailed));
}

#[test]
fn typed_reply_terminates_and_cleans() {
    let mut ctrl = ClientController::new();
    ctrl.step(ClientEvent::ArtifactReady);
    let eff = ctrl.step(ClientEvent::DaemonReply(ReplyKind::TypedText));
    assert!(eff.delete_artifact);
    assert_eq!(eff.terminal, Some(ClientTerminal::DaemonTyped));
    assert_eq!(eff.notice, Some(ClientNotice::Typed));
}

#[test]
fn empty_artifact_is_reported_and_deleted() {
    let mut ctrl = ClientController::new();
    let eff = ctrl.step(ClientEvent::ArtifactEmpty);
    assert!(eff.delete_artifact);
    assert_eq!(eff.terminal, Some(ClientTerminal::EmptyAudio));
    assert!(ctrl.deleted);
}

#[test]
fn missing_recording_is_silent_normal_outcome() {
    let mut ctrl = ClientController::new();
    let eff = ctrl.step(ClientEvent::NoRecording);
    assert!(!eff.delete_artifact);
    assert_eq!(eff.terminal, Some(ClientTerminal::NoRecordingFound));
    assert!(!ctrl.deleted);
}

#[test]
fn interpret_reply_kinds() {
    let (kind, text) = interpret_reply(r#"{"success":true,"text":" hello there "}"#);
    assert_eq!(kind, ReplyKind::TypedText);
    assert_eq!(text, Some("hello there".to_string()));

    let (kind, text) = interpret_reply(r#"{"success":true,"text":"   "}"#);
    assert_eq!(kind, ReplyKind::NoSpeech);
    assert_eq!(text, None);

    let (kind, _) = interpret_reply(r#"{"success":true}"#);
    assert_eq!(kind, ReplyKind::ParseFailure);

    let (kind, _) = interpret_reply(r#"{"success":false,"error":"broken"}"#);
    assert_eq!(kind, ReplyKind::BackendFailure);

    let (kind, _) = interpret_reply("rubbish");
    assert_eq!(kind, ReplyKind::BackendFailure);
}

#[test]
fn starting_over_active_recording_leaves_one_handle() {
    let mut tracker = StartTracker::new(true, true);
    let e1 = tracker.step(StartEvent::PriorMarker {
        content: MarkerContent::Pid { running: true },
    });
    assert!(e1.kill_prior);
    assert!(e1.remove_marker);
    assert!(e1.launch_capture);
    assert!(!tracker.prior_marker);
    let e2 = tracker.step(StartEvent::Spawned);
    assert!(e2.write_pid_marker);
    assert!(tracker.new_marker);
    assert!(tracker.launched);
    // exactly one handle: the new marker, the prior one removed
    assert!(!tracker.prior_marker && tracker.new_marker);
}

#[test]
fn starting_over_stale_marker_does_not_signal() {
    let mut tracker = StartTracker::new(true, false);
    let e1 = tracker.step(StartEvent::PriorMarker {
        content: MarkerContent::Pid { running: false },
    });
    assert!(!e1.kill_prior);
    assert!(e1.remove_marker);
}

#[test]
fn failed_spawn_leaves_no_handle() {
    let mut tracker = StartTracker::new(false, false);
    tracker.step(StartEvent::NoPriorMarker);
    let eff = tracker.step(StartEvent::SpawnFailed);
    assert!(eff.fail);
    assert!(!tracker.new_marker && !tracker.prior_marker);
}

#[test]
fn stop_waits_a_bounded_number_of_polls() {
    let mut tracker = StopTracker::new(false);
    for _ in 0..10 {
        let eff = tracker.step(StopEvent::MarkerMissing);
        assert!(eff.poll_again);
        assert_eq!(tracker.phase, StopPhase::WaitMarker);
    }
    // the eleventh miss gives up waiting and resolves
    let eff = tracker.step(StopEvent::MarkerMissing);
    assert!(!eff.poll_again);
    assert_eq!(tracker.phase, StopPhase::Resolve);
    let eff = tracker.step(StopEvent::PathMarkerRead { found: false });
    assert_eq!(eff.outcome, Some(StopOutcome::NoArtifact));
}

#[test]
fn stop_escalates_only_while_alive() {
    let mut tracker = StopTracker::new(false);
    tracker.step(StopEvent::MarkerAppeared);
    let eff = tracker.step(StopEvent::MarkerRead {
        content: MarkerContent::Pid { running: true },
    });
    assert!(eff.send_int);
    let eff = tracker.step(StopEvent::IntSettled {
        still_running: true,
    });
    assert!(eff.send_term);
    assert!(eff.remove_marker);
    let eff = tracker.step(StopEvent::PathMarkerRead { found: true });
    assert_eq!(eff.outcome, Some(StopOutcome::Artifact));
    assert!(eff.remove_path_marker);
}

#[test]
fn stop_of_dead_process_is_silent() {
    let mut tracker = StopTracker::new(false);
    tracker.step(StopEvent::MarkerAppeared);
    let eff = tracker.step(StopEvent::MarkerRead {
        content: MarkerContent::Pid { running: false },
    });
    assert!(!eff.send_int && !eff.send_term);
    assert!(eff.remove_marker && eff.remove_path_marker);
    assert_eq!(eff.outcome, Some(StopOutcome::NoArtifact));
}

#[test]
fn stop_with_blank_marker_is_silent() {
    let mut tracker = StopTracker::new(false);
    tracker.step(StopEvent::MarkerAppeared);
    let eff = tracker.step(StopEvent::MarkerRead {
        content: MarkerContent::Blank,
    });
    assert!(eff.remove_marker);
    assert_eq!(eff.outcome, Some(StopOutcome::NoArtifact));
}

#[test]
fn stop_with_override_copies_or_fails() {
    let mut tracker = StopTracker::new(true);
    tracker.step(StopEvent::MarkerAppeared);
    tracker.step(StopEvent::MarkerRead {
        content: MarkerContent::Garbage,
    });
    let eff = tracker.step(StopEvent::OverrideCopied { ok: true });
    assert_eq!(eff.outcome, Some(StopOutcome::Artifact));

    let mut tracker = StopTracker::new(true);
    tracker.step(StopEvent::MarkerAppeared);
    tracker.step(StopEvent::MarkerRead {
        content: MarkerContent::Garbage,
    });
    let eff = tracker.step(StopEvent::OverrideCopied { ok: false });
    assert_eq!(eff.outcome, Some(StopOutcome::CopyFailed));
}

#[test]
fn pid_marker_parsing() {
    assert_eq!(parse_pid("1234"), Some(1234));
    assert_eq!(parse_pid(" 1234\n"), Some(1234));
    assert_eq!(parse_pid(""), None);
    assert_eq!(parse_pid("  \n"), None);
    assert_eq!(parse_pid("12a4"), None);
    assert_eq!(parse_pid("99999999999999999999"), None);
    assert_eq!(parse_pid("4294967295"), Some(u32::MAX));
    assert_eq!(parse_pid("4294967296"), None);
}

#[test]
fn recording_paths() {
    assert_eq!(recording_pidfile_path(), "/tmp/whisp-away-recording.pid");
    assert_eq!(audio_path_marker(1000), "/run/user/1000/voice-audio-file.tmp");
    assert_eq!(
        recording_artifact_path("/run/user/1000", 17),
        "/run/user/1000/voice-recording-17.wav"
    );
    assert_eq!(
        override_artifact_path("/tmp/whisp-away-0", 99),
        "/tmp/whisp-away-0/voice-recording-override-99.wav"
    );
}

#[test]
fn stale_artifact_detection() {
    let current = "voice-recording-2.wav";
    assert!(is_stale_artifact("voice-recording-1.wav", current));
    assert!(!is_stale_artifact("voice-recording-2.wav", current));
    assert!(!is_stale_artifact("other.txt", current));
    assert!(!is_stale_artifact("voice-recording-3.mp3", current));
    assert!(!is_stale_artifact("recording-3.wav", current));
}
