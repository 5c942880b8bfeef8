//! The process supervisor: owns at most one daemon process handle.  Starting
//! reclaims orphans first, is a no-op while a live handle exists, and spawns
//! the daemon with an explicit environment allow-list and per-backend log
//! redirection.  Stopping checks liveness non-blockingly, signals the whole
//! process group gracefully and then forcefully only while the process still
//! runs, and always ends with an orphan-reclamation pass and a cleared
//! handle.

use vstd::prelude::*;
use vstd::string::StringExecFns;
use crate::config::{backend_label, backend_label_spec, Backend};
use crate::strutil::{ends_with_lit, has_suffix, str_eq};

verus! {

/// The variables the supervisor copies from its own environment to the
/// daemon: acceleration and device selectors, library search paths,
/// backend-specific interpreter and script locations, and the display and
/// runtime-directory handles.  Nothing else passes through.
pub open spec fn env_allowed_spec(name: Seq<char>) -> bool {
    ||| name == "CUDA_VISIBLE_DEVICES"@
    ||| name == "CUDA_HOME"@
    ||| name == "CUDA_PATH"@
    ||| name == "LD_LIBRARY_PATH"@
    ||| name == "LIBRARY_PATH"@
    ||| name == "FASTER_WHISPER_PYTHON"@
    ||| name == "FASTER_WHISPER_PYTHONPATH"@
    ||| name == "FASTER_WHISPER_SCRIPT"@
    ||| name == "FASTER_WHISPER_DAEMON_SCRIPT"@
    ||| name == "WHISPER_CPP_PATH"@
    ||| name == "DISPLAY"@
    ||| name == "WAYLAND_DISPLAY"@
    ||| name == "XDG_RUNTIME_DIR"@
}

/// Whether a variable of the supervisor's environment may pass to the
/// daemon.
pub fn env_allowed(name: &str) -> (r: bool)
    ensures
        r == env_allowed_spec(name@),
{
    str_eq(name, "CUDA_VISIBLE_DEVICES") || str_eq(name, "CUDA_HOME") || str_eq(name, "CUDA_PATH")
        || str_eq(name, "LD_LIBRARY_PATH") || str_eq(name, "LIBRARY_PATH") || str_eq(
        name,
        "FASTER_WHISPER_PYTHON",
    ) || str_eq(name, "FASTER_WHISPER_PYTHONPATH") || str_eq(name, "FASTER_WHISPER_SCRIPT")
        || str_eq(name, "FASTER_WHISPER_DAEMON_SCRIPT") || str_eq(name, "WHISPER_CPP_PATH")
        || str_eq(name, "DISPLAY") || str_eq(name, "WAYLAND_DISPLAY") || str_eq(
        name,
        "XDG_RUNTIME_DIR",
    )
}

/// Where the inference model file of the native backend lives under the
/// user's cache, given a model name or an explicit file name.
pub open spec fn whisper_model_path_spec(home: Seq<char>, model: Seq<char>) -> Seq<char> {
    let base = home + "/.cache/whisper-cpp/models/ggml-"@ + model;
    if has_suffix(model, ".bin"@) {
        base
    } else {
        base + ".bin"@
    }
}

pub fn whisper_model_path(home: &str, model: &str) -> (r: String)
    ensures
        r@ == whisper_model_path_spec(home@, model@),
{
    let mut out = String::from_str(home);
    out.append("/.cache/whisper-cpp/models/ggml-");
    out.append(model);
    if !ends_with_lit(model, ".bin") {
        out.append(".bin");
    }
    out
}

/// The relaunch arguments handed to the supervisor's own binary: the daemon
/// sub-invocation, the chosen backend and model, and, for the interpreter
/// backend, the socket path.
pub fn daemon_args(backend: Backend, model: &str, socket_path: &str) -> (r: Vec<String>)
    ensures
        backend == Backend::FasterWhisper ==> r@.len() == 7,
        backend == Backend::WhisperCpp ==> r@.len() == 5,
        r@[0]@ == "daemon"@,
        r@[1]@ == "--backend"@,
        r@[2]@ == backend_label_spec(backend),
        r@[3]@ == "--model"@,
        r@[4]@ == model@,
        backend == Backend::FasterWhisper ==> r@[5]@ == "--socket-path"@ && r@[6]@
            == socket_path@,
{
    let mut args: Vec<String> = Vec::new();
    args.push(String::from_str("daemon"));
    args.push(String::from_str("--backend"));
    args.push(backend_label(backend));
    args.push(String::from_str("--model"));
    args.push(String::from_str(model));
    match backend {
        Backend::FasterWhisper => {
            args.push(String::from_str("--socket-path"));
            args.push(String::from_str(socket_path));
        },
        Backend::WhisperCpp => {},
    }
    args
}

/// The per-backend log file that one of the daemon's standard streams is
/// redirected to: the output log, or the error log.
pub fn daemon_log_path(home: &str, backend: Backend, errors: bool) -> (r: String)
    ensures
        r@ == home@ + "/.cache/whisp-away/daemon-"@ + backend_label_spec(backend) + (
        if errors {
            ".err"@
        } else {
            ".log"@
        }),
{
    let mut out = String::from_str(home);
    out.append("/.cache/whisp-away/daemon-");
    let label = backend_label(backend);
    out.append(label.as_str());
    if errors {
        out.append(".err");
    } else {
        out.append(".log");
    }
    out
}

/// The fixed environment handed to the daemon child, beyond the allow-list
/// pass-through: the interpreter backend gets its socket and device
/// selection (device and compute type follow whether an accelerator is
/// visible), the native backend gets its model file path; both get the home
/// and model names.
pub fn daemon_fixed_env(
    backend: Backend,
    home: &str,
    model: &str,
    socket_path: &str,
    model_path: &str,
    accelerator_visible: bool,
) -> (r: Vec<(String, String)>)
    ensures
        backend == Backend::FasterWhisper ==> {
            &&& r@.len() == 5
            &&& r@[0].0@ == "WA_WHISPER_SOCKET"@ && r@[0].1@ == socket_path@
            &&& r@[1].0@ == "WHISPER_DEVICE"@ && r@[1].1@ == (if accelerator_visible {
                "cuda"@
            } else {
                "cpu"@
            })
            &&& r@[2].0@ == "WHISPER_COMPUTE"@ && r@[2].1@ == (if accelerator_visible {
                "float16"@
            } else {
                "int8"@
            })
            &&& r@[3].0@ == "HOME"@ && r@[3].1@ == home@
            &&& r@[4].0@ == "WA_WHISPER_MODEL"@ && r@[4].1@ == model@
        },
        backend == Backend::WhisperCpp ==> {
            &&& r@.len() == 3
            &&& r@[0].0@ == "WHISPER_CPP_MODEL_PATH"@ && r@[0].1@ == model_path@
            &&& r@[1].0@ == "HOME"@ && r@[1].1@ == home@
            &&& r@[2].0@ == "WA_WHISPER_MODEL"@ && r@[2].1@ == model@
        },
{
    let mut env: Vec<(String, String)> = Vec::new();
    match backend {
        Backend::FasterWhisper => {
            env.push((String::from_str("WA_WHISPER_SOCKET"), String::from_str(socket_path)));
            if accelerator_visible {
                env.push((String::from_str("WHISPER_DEVICE"), String::from_str("cuda")));
                env.push((String::from_str("WHISPER_COMPUTE"), String::from_str("float16")));
            } else {
                env.push((String::from_str("WHISPER_DEVICE"), String::from_str("cpu")));
                env.push((String::from_str("WHISPER_COMPUTE"), String::from_str("int8")));
            }
        },
        Backend::WhisperCpp => {
            env.push((String::from_str("WHISPER_CPP_MODEL_PATH"), String::from_str(model_path)));
        },
    }
    env.push((String::from_str("HOME"), String::from_str(home)));
    env.push((String::from_str("WA_WHISPER_MODEL"), String::from_str(model)));
    env
}

/// The environment the interpreter daemon process itself is launched with:
/// its module path, the chosen model and socket, and the accelerator and
/// library-path variables passed through (empty when unset).
pub fn python_daemon_env(
    pythonpath: &str,
    model: &str,
    socket_path: &str,
    cuda_devices: &str,
    library_path: &str,
) -> (r: Vec<(String, String)>)
    ensures
        r@.len() == 5,
        r@[0].0@ == "PYTHONPATH"@ && r@[0].1@ == pythonpath@,
        r@[1].0@ == "WA_WHISPER_MODEL"@ && r@[1].1@ == model@,
        r@[2].0@ == "WA_WHISPER_SOCKET"@ && r@[2].1@ == socket_path@,
        r@[3].0@ == "CUDA_VISIBLE_DEVICES"@ && r@[3].1@ == cuda_devices@,
        r@[4].0@ == "LD_LIBRARY_PATH"@ && r@[4].1@ == library_path@,
{
    let mut env: Vec<(String, String)> = Vec::new();
    env.push((String::from_str("PYTHONPATH"), String::from_str(pythonpath)));
    env.push((String::from_str("WA_WHISPER_MODEL"), String::from_str(model)));
    env.push((String::from_str("WA_WHISPER_SOCKET"), String::from_str(socket_path)));
    env.push((String::from_str("CUDA_VISIBLE_DEVICES"), String::from_str(cuda_devices)));
    env.push((String::from_str("LD_LIBRARY_PATH"), String::from_str(library_path)));
    env
}

/// Phases of the supervisor's start protocol.
#[derive(Clone, Copy, Debug, PartialEq, Eq, Structural)]
pub enum SupStartPhase {
    /// Nothing happened yet.
    Init,
    /// Reclaiming orphans of a previous supervisor life.
    Reclaim,
    /// Checking the held handle's liveness.
    Probe,
    /// The daemon is being spawned.
    Spawning,
    /// The daemon was spawned; letting it reach a ready state.
    Warmup,
    /// The protocol ended.
    Done,
}

#[derive(Clone, Copy, Debug, PartialEq, Eq, Structural)]
pub enum SupStartEvent {
    /// The start was requested.
    Begin,
    /// The orphan-reclamation pass finished.
    OrphansReclaimed,
    /// The held handle's liveness was checked non-blockingly; `live` is
    /// false when no handle is held or its process has exited.
    HandleStatus { live: bool },
    /// The spawn finished.
    SpawnResult { ok: bool },
    /// The post-spawn readiness delay elapsed.
    ReadyElapsed,
}

/// What the surrounding process must do after a start step.
#[derive(Clone, Copy, Debug, PartialEq, Eq, Structural)]
pub struct SupStartEffects {
    /// Kill stray daemon processes by pattern and remove a stale socket.
    pub reclaim_orphans: bool,
    /// Check the held handle's liveness, non-blockingly.
    pub probe_handle: bool,
    /// Drop the exited handle.
    pub clear_handle: bool,
    /// Build the relaunch command, the allow-listed environment and the log
    /// redirection, place the child in its own process group, and spawn it.
    pub spawn_daemon: bool,
    /// Block briefly so the daemon reaches a ready state.
    pub wait_ready: bool,
    /// Record the running state and notify.
    pub set_running: bool,
    /// The start succeeded (with a live handle held).
    pub done_ok: bool,
    /// The start failed: report the spawn error.
    pub fail: bool,
}

/// The start protocol's state: its phase, and whether a handle is held.
#[derive(Clone, Copy, Debug, PartialEq, Eq, Structural)]
pub struct SupStartTracker {
    pub phase: SupStartPhase,
    pub handle: bool,
}

pub ghost struct SupStartStep {
    pub state: SupStartTracker,
    pub effects: SupStartEffects,
}

pub open spec fn no_sup_start_effects() -> SupStartEffects {
    SupStartEffects {
        reclaim_orphans: false,
        probe_handle: false,
        clear_handle: false,
        spawn_daemon: false,
        wait_ready: false,
        set_running: false,
        done_ok: false,
        fail: false,
    }
}

pub open spec fn initial_sup_start(handle: bool) -> SupStartTracker {
    SupStartTracker { phase: SupStartPhase::Init, handle }
}

/// The start protocol's transition function.  Events that do not belong to
/// the current phase change nothing.
pub open spec fn sup_start_step_spec(s: SupStartTracker, ev: SupStartEvent) -> SupStartStep {
    match (s.phase, ev) {
        (SupStartPhase::Init, SupStartEvent::Begin) => SupStartStep {
            state: SupStartTracker { phase: SupStartPhase::Reclaim, ..s },
            effects: SupStartEffects { reclaim_orphans: true, ..no_sup_start_effects() },
        },
        (SupStartPhase::Reclaim, SupStartEvent::OrphansReclaimed) => SupStartStep {
            state: SupStartTracker { phase: SupStartPhase::Probe, ..s },
            effects: SupStartEffects { probe_handle: true, ..no_sup_start_effects() },
        },
        (SupStartPhase::Probe, SupStartEvent::HandleStatus { live }) => {
            if live {
                // a live daemon already runs: the start is a no-op
                SupStartStep {
                    state: SupStartTracker { phase: SupStartPhase::Done, ..s },
                    effects: SupStartEffects { done_ok: true, ..no_sup_start_effects() },
                }
            } else {
                SupStartStep {
                    state: SupStartTracker { phase: SupStartPhase::Spawning, handle: false },
                    effects: SupStartEffects {
                        clear_handle: s.handle,
                        spawn_daemon: true,
                        ..no_sup_start_effects()
                    },
                }
            }
        },
        (SupStartPhase::Spawning, SupStartEvent::SpawnResult { ok }) => {
            if ok {
                SupStartStep {
                    state: SupStartTracker { phase: SupStartPhase::Warmup, handle: true },
                    effects: SupStartEffects { wait_ready: true, ..no_sup_start_effects() },
                }
            } else {
                SupStartStep {
                    state: SupStartTracker { phase: SupStartPhase::Done, handle: false },
                    effects: SupStartEffects { fail: true, ..no_sup_start_effects() },
                }
            }
        },
        (SupStartPhase::Warmup, SupStartEvent::ReadyElapsed) => SupStartStep {
            state: SupStartTracker { phase: SupStartPhase::Done, ..s },
            effects: SupStartEffects { set_running: true, done_ok: true, ..no_sup_start_effects() },
        },
        _ => SupStartStep { state: s, effects: no_sup_start_effects() },
    }
}

impl SupStartTracker {
    /// A fresh start protocol; `handle` says whether one is currently held.
    pub fn new(handle: bool) -> (r: SupStartTracker)
        ensures
            r == initial_sup_start(handle),
    {
        SupStartTracker { phase: SupStartPhase::Init, handle }
    }

    /// Feeds one event to the start protocol.
    pub fn step(&mut self, ev: SupStartEvent) -> (eff: SupStartEffects)
        ensures
            *final(self) == sup_start_step_spec(*old(self), ev).state,
            eff == sup_start_step_spec(*old(self), ev).effects,
    {
        let none_eff = SupStartEffects {
            reclaim_orphans: false,
            probe_handle: false,
            clear_handle: false,
            spawn_daemon: false,
            wait_ready: false,
            set_running: false,
            done_ok: false,
            fail: false,
        };
        match (self.phase, ev) {
            (SupStartPhase::Init, SupStartEvent::Begin) => {
                self.phase = SupStartPhase::Reclaim;
                SupStartEffects { reclaim_orphans: true, ..none_eff }
            },
            (SupStartPhase::Reclaim, SupStartEvent::OrphansReclaimed) => {
                self.phase = SupStartPhase::Probe;
                SupStartEffects { probe_handle: true, ..none_eff }
            },
            (SupStartPhase::Probe, SupStartEvent::HandleStatus { live }) => {
                if live {
                    self.phase = SupStartPhase::Done;
                    SupStartEffects { done_ok: true, ..none_eff }
                } else {
                    let had = self.handle;
                    self.phase = SupStartPhase::Spawning;
                    self.handle = false;
                    SupStartEffects { clear_handle: had, spawn_daemon: true, ..none_eff }
                }
            },
            (SupStartPhase::Spawning, SupStartEvent::SpawnResult { ok }) => {
                if ok {
                    self.phase = SupStartPhase::Warmup;
                    self.handle = true;
                    SupStartEffects { wait_ready: true, ..none_eff }
                } else {
                    self.phase = SupStartPhase::Done;
                    self.handle = false;
                    SupStartEffects { fail: true, ..none_eff }
                }
            },
            (SupStartPhase::Warmup, SupStartEvent::ReadyElapsed) => {
                self.phase = SupStartPhase::Done;
                SupStartEffects { set_running: true, done_ok: true, ..none_eff }
            },
            _ => none_eff,
        }
    }
}

/// A start over a live handle is a no-op: orphans are still reclaimed, but
/// nothing is spawned, the handle is kept, and the start reports success.
pub proof fn lemma_start_noop_when_live()
    ensures
        ({
            let s0 = initial_sup_start(true);
            let r1 = sup_start_step_spec(s0, SupStartEvent::Begin);
            let r2 = sup_start_step_spec(r1.state, SupStartEvent::OrphansReclaimed);
            let r3 = sup_start_step_spec(r2.state, SupStartEvent::HandleStatus { live: true });
            &&& r1.effects.reclaim_orphans
            &&& r3.effects.done_ok
            &&& !r1.effects.spawn_daemon && !r2.effects.spawn_daemon && !r3.effects.spawn_daemon
            &&& r3.state.handle
            &&& r3.state.phase == SupStartPhase::Done
        }),
{
}

/// Phases of the supervisor's stop protocol.
#[derive(Clone, Copy, Debug, PartialEq, Eq, Structural)]
pub enum SupStopPhase {
    /// Checking whether a handle is held and whether its process runs.
    CheckHandle,
    /// The graceful signal was sent; waiting out the grace period.
    Grace,
    /// The protocol ended.
    Done,
}

#[derive(Clone, Copy, Debug, PartialEq, Eq, Structural)]
pub enum SupStopEvent {
    /// No handle is held.
    NoHandle,
    /// The held handle's process liveness, checked non-blockingly.
    HandleStatus { running: bool },
    /// The grace period elapsed; whether the process still runs.
    GraceElapsed { still_running: bool },
}

/// What the surrounding process must do after a stop step.
#[derive(Clone, Copy, Debug, PartialEq, Eq, Structural)]
pub struct SupStopEffects {
    /// Send the terminate signal to the negated PID: the whole group.
    pub send_term_group: bool,
    /// Escalate: kill the group and the direct child, then join it.
    pub send_kill: bool,
    /// Kill stray daemon processes by pattern and remove the socket file.
    pub orphan_pass: bool,
    /// Drop the handle.
    pub clear_handle: bool,
    /// Record the stopped state and notify.
    pub update_status: bool,
    /// The stop succeeded.
    pub done_ok: bool,
}

/// The stop protocol's state: its phase, and whether a handle is held.
#[derive(Clone, Copy, Debug, PartialEq, Eq, Structural)]
pub struct SupStopTracker {
    pub phase: SupStopPhase,
    pub handle: bool,
}

pub ghost struct SupStopStep {
    pub state: SupStopTracker,
    pub effects: SupStopEffects,
}

pub open spec fn no_sup_stop_effects() -> SupStopEffects {
    SupStopEffects {
        send_term_group: false,
        send_kill: false,
        orphan_pass: false,
        clear_handle: false,
        update_status: false,
        done_ok: false,
    }
}

pub open spec fn initial_sup_stop(handle: bool) -> SupStopTracker {
    SupStopTracker { phase: SupStopPhase::CheckHandle, handle }
}

/// The stop protocol's transition function.  Events that do not belong to
/// the current phase change nothing.
pub open spec fn sup_stop_step_spec(s: SupStopTracker, ev: SupStopEvent) -> SupStopStep {
    match (s.phase, ev) {
        (SupStopPhase::CheckHandle, SupStopEvent::NoHandle) => SupStopStep {
            state: SupStopTracker { phase: SupStopPhase::Done, ..s },
            effects: SupStopEffects { done_ok: true, ..no_sup_stop_effects() },
        },
        (SupStopPhase::CheckHandle, SupStopEvent::HandleStatus { running }) => {
            if running {
                SupStopStep {
                    state: SupStopTracker { phase: SupStopPhase::Grace, ..s },
                    effects: SupStopEffects { send_term_group: true, ..no_sup_stop_effects() },
                }
            } else {
                // already exited: no signals, but still reclaim orphans
                SupStopStep {
                    state: SupStopTracker { phase: SupStopPhase::Done, handle: false },
                    effects: SupStopEffects {
                        orphan_pass: true,
                        clear_handle: true,
                        update_status: true,
                        done_ok: true,
                        ..no_sup_stop_effects()
                    },
                }
            }
        },
        (SupStopPhase::Grace, SupStopEvent::GraceElapsed { still_running }) => SupStopStep {
            state: SupStopTracker { phase: SupStopPhase::Done, handle: false },
            effects: SupStopEffects {
                send_kill: still_running,
                orphan_pass: true,
                clear_handle: true,
                update_status: true,
                done_ok: true,
                ..no_sup_stop_effects()
            },
        },
        _ => SupStopStep { state: s, effects: no_sup_stop_effects() },
    }
}

impl SupStopTracker {
    /// A fresh stop protocol; `handle` says whether one is currently held.
    pub fn new(handle: bool) -> (r: SupStopTracker)
        ensures
            r == initial_sup_stop(handle),
    {
        SupStopTracker { phase: SupStopPhase::CheckHandle, handle }
    }

    /// Feeds one event to the stop protocol.
    pub fn step(&mut self, ev: SupStopEvent) -> (eff: SupStopEffects)
        ensures
            *final(self) == sup_stop_step_spec(*old(self), ev).state,
            eff == sup_stop_step_spec(*old(self), ev).effects,
    {
        let none_eff = SupStopEffects {
            send_term_group: false,
            send_kill: false,
            orphan_pass: false,
            clear_handle: false,
            update_status: false,
            done_ok: false,
        };
        match (self.phase, ev) {
            (SupStopPhase::CheckHandle, SupStopEvent::NoHandle) => {
                self.phase = SupStopPhase::Done;
                SupStopEffects { done_ok: true, ..none_eff }
            },
            (SupStopPhase::CheckHandle, SupStopEvent::HandleStatus { running }) => {
                if running {
                    self.phase = SupStopPhase::Grace;
                    SupStopEffects { send_term_group: true, ..none_eff }
                } else {
                    self.phase = SupStopPhase::Done;
                    self.handle = false;
                    SupStopEffects {
                        orphan_pass: true,
                        clear_handle: true,
                        update_status: true,
                        done_ok: true,
                        ..none_eff
                    }
                }
            },
            (SupStopPhase::Grace, SupStopEvent::GraceElapsed { still_running }) => {
                self.phase = SupStopPhase::Done;
                self.handle = false;
                SupStopEffects {
                    send_kill: still_running,
                    orphan_pass: true,
                    clear_handle: true,
                    update_status: true,
                    done_ok: true,
                    ..none_eff
                }
            },
            _ => none_eff,
        }
    }
}

/// Stopping an already-exited handle succeeds, issues no signals, still
/// performs the orphan-reclamation pass, and clears the handle.
pub proof fn lemma_stop_already_exited()
    ensures
        ({
            let s0 = initial_sup_stop(true);
            let r = sup_stop_step_spec(s0, SupStopEvent::HandleStatus { running: false });
            &&& r.effects.done_ok
            &&& !r.effects.send_term_group
            &&& !r.effects.send_kill
            &&& r.effects.orphan_pass
            &&& r.effects.clear_handle
            &&& !r.state.handle
            &&& r.state.phase == SupStopPhase::Done
        }),
{
}

/// The forced kill is only ever sent after the graceful signal's grace
/// period found the process still running; and every completed stop clears
/// the handle.
pub proof fn lemma_stop_escalation_ordered(s: SupStopTracker, ev: SupStopEvent)
    ensures
        sup_stop_step_spec(s, ev).effects.send_kill ==> s.phase == SupStopPhase::Grace && ev == (
        SupStopEvent::GraceElapsed { still_running: true }),
        sup_stop_step_spec(s, ev).effects.done_ok && ev != SupStopEvent::NoHandle
            ==> !sup_stop_step_spec(s, ev).state.handle,
{
}

} // verus!
