//! The recording lifecycle tracker.  The active capture process is
//! represented on disk by a PID marker file at a well-known path, and the
//! chosen artifact path by a second marker in the runtime directory.  At most
//! one recording handle exists at a time: starting a new recording first
//! terminates and clears any previous one, and stopping resolves the
//! artifact path, treating "nothing was ever started" as a normal, silent
//! outcome rather than an error.

use vstd::prelude::*;
use vstd::string::StringExecFns;
use crate::strutil::{
    dec_rep, has_prefix, has_suffix, parse_u32_digits, push_dec, str_eq, to_chars, trim_spec,
    trim_str, ends_with_lit, starts_with_lit,
};

verus! {

/// Most polls the stop protocol makes while waiting for the marker file of a
/// just-issued start to appear.
pub const MAX_MARKER_POLLS: u32 = 10;

/// The well-known path of the PID marker of the active capture process.
pub fn recording_pidfile_path() -> (r: String)
    ensures
        r@ == "/tmp/whisp-away-recording.pid"@,
{
    String::from_str("/tmp/whisp-away-recording.pid")
}

/// The marker that records the chosen artifact path, keyed by the user.
pub fn audio_path_marker(uid: u64) -> (r: String)
    ensures
        r@ == "/run/user/"@ + dec_rep(uid as int) + "/voice-audio-file.tmp"@,
{
    let mut out = String::from_str("/run/user/");
    push_dec(uid, &mut out);
    out.append("/voice-audio-file.tmp");
    out
}

/// A fresh artifact path in the runtime directory, keyed by a timestamp.
pub fn recording_artifact_path(runtime_dir: &str, timestamp_ms: u64) -> (r: String)
    ensures
        r@ == runtime_dir@ + "/voice-recording-"@ + dec_rep(timestamp_ms as int) + ".wav"@,
{
    let mut out = String::from_str(runtime_dir);
    out.append("/voice-recording-");
    push_dec(timestamp_ms, &mut out);
    out.append(".wav");
    out
}

/// The disposable copy of an override artifact, so that later cleanup is
/// uniform over recorded and handed-in audio.
pub fn override_artifact_path(runtime_dir: &str, timestamp_ms: u64) -> (r: String)
    ensures
        r@ == runtime_dir@ + "/voice-recording-override-"@ + dec_rep(timestamp_ms as int)
            + ".wav"@,
{
    let mut out = String::from_str(runtime_dir);
    out.append("/voice-recording-override-");
    push_dec(timestamp_ms, &mut out);
    out.append(".wav");
    out
}

/// A leftover artifact of an earlier session: named like a recording, but
/// not the file chosen for the current one.
pub open spec fn stale_artifact_spec(name: Seq<char>, current: Seq<char>) -> bool {
    has_prefix(name, "voice-recording-"@) && has_suffix(name, ".wav"@) && name != current
}

/// Whether a directory entry is a stale artifact to purge before recording.
pub fn is_stale_artifact(name: &str, current: &str) -> (r: bool)
    ensures
        r == stale_artifact_spec(name@, current@),
{
    starts_with_lit(name, "voice-recording-") && ends_with_lit(name, ".wav") && !str_eq(
        name,
        current,
    )
}

/// Reads the content of a PID marker: trimmed decimal digits naming the
/// capture process.
pub open spec fn parse_pid_spec(s: Seq<char>) -> Option<u32> {
    let t = trim_spec(s);
    if t.len() > 0 && crate::strutil::all_digits(t) && crate::strutil::digits_val(t)
        <= u32::MAX {
        Some(crate::strutil::digits_val(t) as u32)
    } else {
        None
    }
}

/// Parses the PID named by a marker file's content.
pub fn parse_pid(s: &str) -> (r: Option<u32>)
    ensures
        r == parse_pid_spec(s@),
{
    let t = trim_str(s);
    let v = to_chars(t.as_str());
    parse_u32_digits(v.as_slice())
}

/// What a read of the PID marker showed.
#[derive(Clone, Copy, Debug, PartialEq, Eq, Structural)]
pub enum MarkerContent {
    /// The marker is empty after trimming.
    Blank,
    /// The marker holds something that is not a PID.
    Garbage,
    /// The marker names a process, live or not.
    Pid { running: bool },
}

/// Phases of the start protocol.
#[derive(Clone, Copy, Debug, PartialEq, Eq, Structural)]
pub enum StartPhase {
    /// Looking for a marker of a previous recording.
    CheckPrior,
    /// Prior handle cleared; choosing a path, purging stale artifacts,
    /// persisting the path and launching the capture process.
    Launch,
    /// The protocol ended.
    Done,
}

#[derive(Clone, Copy, Debug, PartialEq, Eq, Structural)]
pub enum StartEvent {
    /// A marker of a previous recording was read.
    PriorMarker { content: MarkerContent },
    /// No marker exists.
    NoPriorMarker,
    /// The capture process was spawned and its PID is known.
    Spawned,
    /// Spawning the capture process failed.
    SpawnFailed,
}

/// What the surrounding process must do after a start step.
#[derive(Clone, Copy, Debug, PartialEq, Eq, Structural)]
pub struct StartEffects {
    /// Terminate the previous capture process and wait briefly.
    pub kill_prior: bool,
    /// Remove the previous PID marker.
    pub remove_marker: bool,
    /// Purge stale artifacts, persist the new artifact path and spawn the
    /// capture process.
    pub launch_capture: bool,
    /// Persist the new capture PID and notify the user.
    pub write_pid_marker: bool,
    /// The start failed: report the spawn error.
    pub fail: bool,
}

/// The start protocol's state, with a model of the handles it governs.
#[derive(Clone, Copy, Debug, PartialEq, Eq, Structural)]
pub struct StartTracker {
    pub phase: StartPhase,
    /// A marker of a previous recording still exists.
    pub prior_marker: bool,
    /// The previous capture process may still be running.
    pub prior_running: bool,
    /// The new capture process is running.
    pub launched: bool,
    /// The new PID marker is on disk.
    pub new_marker: bool,
}

pub ghost struct StartStep {
    pub state: StartTracker,
    pub effects: StartEffects,
}

pub open spec fn no_start_effects() -> StartEffects {
    StartEffects {
        kill_prior: false,
        remove_marker: false,
        launch_capture: false,
        write_pid_marker: false,
        fail: false,
    }
}

/// A start begins before anything is known about a previous recording:
/// `prior_marker` and `prior_running` describe what may be left over.
pub open spec fn initial_start(prior_marker: bool, prior_running: bool) -> StartTracker {
    StartTracker {
        phase: StartPhase::CheckPrior,
        prior_marker,
        prior_running,
        launched: false,
        new_marker: false,
    }
}

/// The start protocol's transition function.  Events that do not belong to
/// the current phase change nothing.
pub open spec fn start_step_spec(s: StartTracker, ev: StartEvent) -> StartStep {
    match (s.phase, ev) {
        (StartPhase::CheckPrior, StartEvent::PriorMarker { content }) => {
            let kill = content == (MarkerContent::Pid { running: true });
            StartStep {
                state: StartTracker {
                    phase: StartPhase::Launch,
                    prior_marker: false,
                    prior_running: false,
                    ..s
                },
                effects: StartEffects {
                    kill_prior: kill,
                    remove_marker: true,
                    launch_capture: true,
                    ..no_start_effects()
                },
            }
        },
        (StartPhase::CheckPrior, StartEvent::NoPriorMarker) => StartStep {
            state: StartTracker {
                phase: StartPhase::Launch,
                prior_marker: false,
                prior_running: false,
                ..s
            },
            effects: StartEffects { launch_capture: true, ..no_start_effects() },
        },
        (StartPhase::Launch, StartEvent::Spawned) => StartStep {
            state: StartTracker {
                phase: StartPhase::Done,
                launched: true,
                new_marker: true,
                ..s
            },
            effects: StartEffects { write_pid_marker: true, ..no_start_effects() },
        },
        (StartPhase::Launch, StartEvent::SpawnFailed) => StartStep {
            state: StartTracker { phase: StartPhase::Done, ..s },
            effects: StartEffects { fail: true, ..no_start_effects() },
        },
        _ => StartStep { state: s, effects: no_start_effects() },
    }
}

impl StartTracker {
    /// A fresh start protocol over whatever a previous session left behind.
    pub fn new(prior_marker: bool, prior_running: bool) -> (r: StartTracker)
        ensures
            r == initial_start(prior_marker, prior_running),
    {
        StartTracker {
            phase: StartPhase::CheckPrior,
            prior_marker,
            prior_running,
            launched: false,
            new_marker: false,
        }
    }

    /// Feeds one event to the start protocol.
    pub fn step(&mut self, ev: StartEvent) -> (eff: StartEffects)
        ensures
            *final(self) == start_step_spec(*old(self), ev).state,
            eff == start_step_spec(*old(self), ev).effects,
    {
        let none_eff = StartEffects {
            kill_prior: false,
            remove_marker: false,
            launch_capture: false,
            write_pid_marker: false,
            fail: false,
        };
        match (self.phase, ev) {
            (StartPhase::CheckPrior, StartEvent::PriorMarker { content }) => {
                self.phase = StartPhase::Launch;
                self.prior_marker = false;
                self.prior_running = false;
                let kill = match content {
                    MarkerContent::Pid { running } => running,
                    _ => false,
                };
                StartEffects { kill_prior: kill, remove_marker: true, launch_capture: true, ..none_eff }
            },
            (StartPhase::CheckPrior, StartEvent::NoPriorMarker) => {
                self.phase = StartPhase::Launch;
                self.prior_marker = false;
                self.prior_running = false;
                StartEffects { launch_capture: true, ..none_eff }
            },
            (StartPhase::Launch, StartEvent::Spawned) => {
                self.phase = StartPhase::Done;
                self.launched = true;
                self.new_marker = true;
                StartEffects { write_pid_marker: true, ..none_eff }
            },
            (StartPhase::Launch, StartEvent::SpawnFailed) => {
                self.phase = StartPhase::Done;
                StartEffects { fail: true, ..none_eff }
            },
            _ => none_eff,
        }
    }
}

/// How many recording handles the state models.
pub open spec fn handle_count(s: StartTracker) -> int {
    (if s.prior_marker {
        1int
    } else {
        0int
    }) + (if s.new_marker {
        1int
    } else {
        0int
    })
}

/// Starting a new recording while one is already active: once the start
/// protocol completes successfully, exactly one recording handle exists --
/// the new one -- the prior capture was terminated and its marker removed.
/// A failed spawn leaves no handle at all.
pub proof fn lemma_single_active_handle(content: MarkerContent, spawn_ok: bool)
    ensures
        ({
            let s0 = initial_start(true, content == (MarkerContent::Pid { running: true }));
            let r1 = start_step_spec(s0, StartEvent::PriorMarker { content });
            let ev2 = if spawn_ok {
                StartEvent::Spawned
            } else {
                StartEvent::SpawnFailed
            };
            let r2 = start_step_spec(r1.state, ev2);
            &&& r1.effects.remove_marker
            &&& r1.effects.kill_prior == (content == (MarkerContent::Pid { running: true }))
            &&& !r1.state.prior_marker
            &&& !r1.state.prior_running
            &&& r2.state.phase == StartPhase::Done
            &&& spawn_ok ==> handle_count(r2.state) == 1 && r2.state.launched
                && r2.state.new_marker
            &&& !spawn_ok ==> handle_count(r2.state) == 0 && !r2.state.launched
        }),
{
}

/// Phases of the stop protocol.
#[derive(Clone, Copy, Debug, PartialEq, Eq, Structural)]
pub enum StopPhase {
    /// Waiting, with bounded polls, for the marker of a just-issued start.
    WaitMarker,
    /// The marker exists; inspecting its content.
    Inspect,
    /// The capture process is live; escalating signals until it stops.
    Escalate,
    /// Resolving the artifact path.
    Resolve,
    /// The protocol ended.
    Done,
}

#[derive(Clone, Copy, Debug, PartialEq, Eq, Structural)]
pub enum StopEvent {
    /// The marker file exists.
    MarkerAppeared,
    /// The marker file still does not exist.
    MarkerMissing,
    /// The marker was read.
    MarkerRead { content: MarkerContent },
    /// After the interrupt signal and a short grace wait, whether the
    /// capture process still runs.
    IntSettled { still_running: bool },
    /// An override artifact was handed in and its disposable copy was made,
    /// or failed to be made.
    OverrideCopied { ok: bool },
    /// The artifact-path marker was read, or does not exist.
    PathMarkerRead { found: bool },
}

/// The stop protocol's outcome.
#[derive(Clone, Copy, Debug, PartialEq, Eq, Structural)]
pub enum StopOutcome {
    /// An artifact path was resolved.
    Artifact,
    /// No recording was ever started: a normal, silent outcome.
    NoArtifact,
    /// Copying the override artifact failed: the one stop error.
    CopyFailed,
}

/// What the surrounding process must do after a stop step.
#[derive(Clone, Copy, Debug, PartialEq, Eq, Structural)]
pub struct StopEffects {
    /// Sleep briefly, then poll for the marker again.
    pub poll_again: bool,
    /// Send the interrupt signal to the capture process, after a short
    /// pre-signal delay.
    pub send_int: bool,
    /// Escalate: send the terminate signal to the capture process.
    pub send_term: bool,
    /// Remove the PID marker.
    pub remove_marker: bool,
    /// Remove the artifact-path marker.
    pub remove_path_marker: bool,
    /// The protocol ended with this outcome.
    pub outcome: Option<StopOutcome>,
}

/// The stop protocol's state.
#[derive(Clone, Copy, Debug, PartialEq, Eq, Structural)]
pub struct StopTracker {
    pub phase: StopPhase,
    /// Polls made so far while waiting for the marker.
    pub polls: u32,
    /// Whether an override artifact was handed in.
    pub has_override: bool,
}

pub ghost struct StopStep {
    pub state: StopTracker,
    pub effects: StopEffects,
}

pub open spec fn no_stop_effects() -> StopEffects {
    StopEffects {
        poll_again: false,
        send_int: false,
        send_term: false,
        remove_marker: false,
        remove_path_marker: false,
        outcome: None,
    }
}

pub open spec fn initial_stop(has_override: bool) -> StopTracker {
    StopTracker { phase: StopPhase::WaitMarker, polls: 0, has_override }
}

/// The stop protocol's transition function.  Events that do not belong to
/// the current phase change nothing.
pub open spec fn stop_step_spec(s: StopTracker, ev: StopEvent) -> StopStep {
    match (s.phase, ev) {
        (StopPhase::WaitMarker, StopEvent::MarkerAppeared) => StopStep {
            state: StopTracker { phase: StopPhase::Inspect, ..s },
            effects: no_stop_effects(),
        },
        (StopPhase::WaitMarker, StopEvent::MarkerMissing) => {
            if s.polls < MAX_MARKER_POLLS {
                StopStep {
                    state: StopTracker { polls: (s.polls + 1) as u32, ..s },
                    effects: StopEffects { poll_again: true, ..no_stop_effects() },
                }
            } else {
                // waited long enough: go resolve with whatever is on disk
                StopStep {
                    state: StopTracker { phase: StopPhase::Resolve, ..s },
                    effects: StopEffects { remove_marker: true, ..no_stop_effects() },
                }
            }
        },
        (StopPhase::Inspect, StopEvent::MarkerRead { content }) => match content {
            MarkerContent::Blank => StopStep {
                state: StopTracker { phase: StopPhase::Done, ..s },
                effects: StopEffects {
                    remove_marker: true,
                    outcome: Some(StopOutcome::NoArtifact),
                    ..no_stop_effects()
                },
            },
            MarkerContent::Garbage => StopStep {
                state: StopTracker { phase: StopPhase::Resolve, ..s },
                effects: StopEffects { remove_marker: true, ..no_stop_effects() },
            },
            MarkerContent::Pid { running } => {
                if running {
                    StopStep {
                        state: StopTracker { phase: StopPhase::Escalate, ..s },
                        effects: StopEffects { send_int: true, ..no_stop_effects() },
                    }
                } else {
                    StopStep {
                        state: StopTracker { phase: StopPhase::Done, ..s },
                        effects: StopEffects {
                            remove_marker: true,
                            remove_path_marker: true,
                            outcome: Some(StopOutcome::NoArtifact),
                            ..no_stop_effects()
                        },
                    }
                }
            },
        },
        (StopPhase::Escalate, StopEvent::IntSettled { still_running }) => StopStep {
            state: StopTracker { phase: StopPhase::Resolve, ..s },
            effects: StopEffects {
                send_term: still_running,
                remove_marker: true,
                ..no_stop_effects()
            },
        },
        (StopPhase::Resolve, StopEvent::OverrideCopied { ok }) => {
            if s.has_override {
                StopStep {
                    state: StopTracker { phase: StopPhase::Done, ..s },
                    effects: StopEffects {
                        outcome: Some(
                            if ok {
                                StopOutcome::Artifact
                            } else {
                                StopOutcome::CopyFailed
                            },
                        ),
                        ..no_stop_effects()
                    },
                }
            } else {
                StopStep { state: s, effects: no_stop_effects() }
            }
        },
        (StopPhase::Resolve, StopEvent::PathMarkerRead { found }) => {
            if !s.has_override {
                StopStep {
                    state: StopTracker { phase: StopPhase::Done, ..s },
                    effects: StopEffects {
                        remove_path_marker: found,
                        outcome: Some(
                            if found {
                                StopOutcome::Artifact
                            } else {
                                StopOutcome::NoArtifact
                            },
                        ),
                        ..no_stop_effects()
                    },
                }
            } else {
                StopStep { state: s, effects: no_stop_effects() }
            }
        },
        _ => StopStep { state: s, effects: no_stop_effects() },
    }
}

impl StopTracker {
    /// A fresh stop protocol; `has_override` says whether a caller handed in
    /// its own artifact instead of the recorded one.
    pub fn new(has_override: bool) -> (r: StopTracker)
        ensures
            r == initial_stop(has_override),
    {
        StopTracker { phase: StopPhase::WaitMarker, polls: 0, has_override }
    }

    /// Feeds one event to the stop protocol.
    pub fn step(&mut self, ev: StopEvent) -> (eff: StopEffects)
        ensures
            *final(self) == stop_step_spec(*old(self), ev).state,
            eff == stop_step_spec(*old(self), ev).effects,
    {
        let none_eff = StopEffects {
            poll_again: false,
            send_int: false,
            send_term: false,
            remove_marker: false,
            remove_path_marker: false,
            outcome: None,
        };
        match (self.phase, ev) {
            (StopPhase::WaitMarker, StopEvent::MarkerAppeared) => {
                self.phase = StopPhase::Inspect;
                none_eff
            },
            (StopPhase::WaitMarker, StopEvent::MarkerMissing) => {
                if self.polls < MAX_MARKER_POLLS {
                    self.polls = self.polls + 1;
                    StopEffects { poll_again: true, ..none_eff }
                } else {
                    self.phase = StopPhase::Resolve;
                    StopEffects { remove_marker: true, ..none_eff }
                }
            },
            (StopPhase::Inspect, StopEvent::MarkerRead { content }) => match content {
                MarkerContent::Blank => {
                    self.phase = StopPhase::Done;
                    StopEffects {
                        remove_marker: true,
                        outcome: Some(StopOutcome::NoArtifact),
                        ..none_eff
                    }
                },
                MarkerContent::Garbage => {
                    self.phase = StopPhase::Resolve;
                    StopEffects { remove_marker: true, ..none_eff }
                },
                MarkerContent::Pid { running } => {
                    if running {
                        self.phase = StopPhase::Escalate;
                        StopEffects { send_int: true, ..none_eff }
                    } else {
                        self.phase = StopPhase::Done;
                        StopEffects {
                            remove_marker: true,
                            remove_path_marker: true,
                            outcome: Some(StopOutcome::NoArtifact),
                            ..none_eff
                        }
                    }
                },
            },
            (StopPhase::Escalate, StopEvent::IntSettled { still_running }) => {
                self.phase = StopPhase::Resolve;
                StopEffects { send_term: still_running, remove_marker: true, ..none_eff }
            },
            (StopPhase::Resolve, StopEvent::OverrideCopied { ok }) => {
                if self.has_override {
                    self.phase = StopPhase::Done;
                    StopEffects {
                        outcome: Some(
                            if ok {
                                StopOutcome::Artifact
                            } else {
                                StopOutcome::CopyFailed
                            },
                        ),
                        ..none_eff
                    }
                } else {
                    none_eff
                }
            },
            (StopPhase::Resolve, StopEvent::PathMarkerRead { found }) => {
                if !self.has_override {
                    self.phase = StopPhase::Done;
                    StopEffects {
                        remove_path_marker: found,
                        outcome: Some(
                            if found {
                                StopOutcome::Artifact
                            } else {
                                StopOutcome::NoArtifact
                            },
                        ),
                        ..none_eff
                    }
                } else {
                    none_eff
                }
            },
            _ => none_eff,
        }
    }
}

/// The wait for the marker is bounded: a poll is only ever requested while
/// fewer than the maximum polls were made, and the poll counter never
/// exceeds the maximum.
pub proof fn lemma_stop_wait_bounded(s: StopTracker, ev: StopEvent)
    requires
        s.polls <= MAX_MARKER_POLLS,
    ensures
        stop_step_spec(s, ev).state.polls <= MAX_MARKER_POLLS,
        stop_step_spec(s, ev).effects.poll_again ==> s.polls < MAX_MARKER_POLLS,
{
}

/// The signal escalation is ordered: the terminate signal is only ever sent
/// by the step that follows an interrupt which left the process running.
pub proof fn lemma_stop_escalation_ordered(s: StopTracker, ev: StopEvent)
    ensures
        stop_step_spec(s, ev).effects.send_term ==> s.phase == StopPhase::Escalate && ev == (
        StopEvent::IntSettled { still_running: true }),
{
}

} // verus!
