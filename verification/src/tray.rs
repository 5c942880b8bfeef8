//! The tray state machine: running/stopped/processing status, the toggle
//! action, and the backend switch.  A switch is only permitted once a full
//! stop has succeeded; if the stop fails the switch is aborted and the
//! backend identity and status are left unchanged.  The menu, icon and
//! tooltip are described as plain data for a host tray framework to render.

use vstd::prelude::*;
use vstd::string::StringExecFns;
use crate::config::{
    backend_label, backend_label_spec, other_backend, other_backend_spec, Backend, TrayState,
    TrayStateModel,
};

verus! {

/// The shared status surface: running/processing flags and the model label.
pub struct DaemonStatus {
    pub running: bool,
    pub model: String,
    pub processing: bool,
}

/// Mathematical model of the status surface.
pub ghost struct DaemonStatusModel {
    pub running: bool,
    pub model: Seq<char>,
    pub processing: bool,
}

impl View for DaemonStatus {
    type V = DaemonStatusModel;

    open spec fn view(&self) -> DaemonStatusModel {
        DaemonStatusModel { running: self.running, model: self.model@, processing: self.processing }
    }
}

impl DaemonStatus {
    /// The initial status: stopped, not processing, with the given model.
    pub fn new(model: String) -> (r: DaemonStatus)
        ensures
            r@ == (DaemonStatusModel { running: false, model: model@, processing: false }),
    {
        DaemonStatus { running: false, model, processing: false }
    }
}

/// The tray's whole state: the backend identity and the status surface.
pub struct TrayMachine {
    pub backend: Backend,
    pub status: DaemonStatus,
}

/// Mathematical model of the tray's state.
pub ghost struct TrayMachineModel {
    pub backend: Backend,
    pub status: DaemonStatusModel,
}

impl View for TrayMachine {
    type V = TrayMachineModel;

    open spec fn view(&self) -> TrayMachineModel {
        TrayMachineModel { backend: self.backend, status: self.status@ }
    }
}

/// Which supervisor operation the user's activation asks for.
#[derive(Clone, Copy, Debug, PartialEq, Eq, Structural)]
pub enum TrayOp {
    StartDaemon,
    StopDaemon,
}

/// Relies on str::to_uppercase: the result depends on the characters alone.
pub uninterp spec fn upper_of(s: Seq<char>) -> Seq<char>;

#[verifier::external_body]
fn to_upper(s: &str) -> (r: String)
    ensures
        r@ == upper_of(s@),
{
    s.to_uppercase()
}

impl TrayMachine {
    /// A fresh tray for the given backend and model: stopped, not
    /// processing.
    pub fn new(backend: Backend, model: String) -> (r: TrayMachine)
        ensures
            r@ == (TrayMachineModel {
                backend,
                status: DaemonStatusModel { running: false, model: model@, processing: false },
            }),
    {
        TrayMachine { backend, status: DaemonStatus::new(model) }
    }

    /// The persisted record for the current configuration.
    pub fn persisted_state(&self) -> (r: TrayState)
        ensures
            r@ == (TrayStateModel {
                model: self@.status.model,
                backend: backend_label_spec(self@.backend),
            }),
    {
        TrayState { model: self.status.model.clone(), backend: backend_label(self.backend) }
    }

    /// What the user's activation asks the supervisor to do: stop while
    /// running, start while stopped.
    pub fn activate_decision(&self) -> (r: TrayOp)
        ensures
            r == (if self@.status.running {
                TrayOp::StopDaemon
            } else {
                TrayOp::StartDaemon
            }),
    {
        if self.status.running {
            TrayOp::StopDaemon
        } else {
            TrayOp::StartDaemon
        }
    }

    /// Applies the outcome of a requested stop: success clears the running
    /// and processing flags, failure changes nothing.
    pub fn apply_stop_result(&mut self, ok: bool)
        ensures
            ok ==> final(self)@ == (TrayMachineModel {
                backend: old(self)@.backend,
                status: DaemonStatusModel {
                    running: false,
                    model: old(self)@.status.model,
                    processing: false,
                },
            }),
            !ok ==> final(self)@ == old(self)@,
    {
        if ok {
            self.status.running = false;
            self.status.processing = false;
        }
    }

    /// Applies the outcome of a requested start: success sets the running
    /// flag, failure changes nothing.
    pub fn apply_start_result(&mut self, ok: bool)
        ensures
            ok ==> final(self)@ == (TrayMachineModel {
                backend: old(self)@.backend,
                status: DaemonStatusModel {
                    running: true,
                    model: old(self)@.status.model,
                    processing: old(self)@.status.processing,
                },
            }),
            !ok ==> final(self)@ == old(self)@,
    {
        if ok {
            self.status.running = true;
        }
    }

    /// Sets or clears the processing flag; only request-handling code calls
    /// this, and it never touches the running flag or the backend.
    pub fn set_processing(&mut self, processing: bool)
        ensures
            final(self)@ == (TrayMachineModel {
                backend: old(self)@.backend,
                status: DaemonStatusModel { processing, ..old(self)@.status },
            }),
    {
        self.status.processing = processing;
    }

    /// Attempts the backend switch after any required stop.  `stop_ok` is
    /// the stop's outcome, or `None` when no daemon was running so none was
    /// attempted.  While running, a failed stop aborts the switch: the
    /// backend identity and the whole status are left unchanged.  Otherwise
    /// the backend flips and the switch proceeds (the caller persists the
    /// new configuration and starts the new daemon).
    pub fn apply_switch(&mut self, stop_ok: Option<bool>) -> (proceeded: bool)
        ensures
            proceeded == switch_proceeds(old(self)@, stop_ok),
            final(self)@ == switch_result(old(self)@, stop_ok),
    {
        match stop_ok {
            Some(false) => false,
            Some(true) => {
                self.status.running = false;
                self.status.processing = false;
                self.backend = other_backend(self.backend);
                true
            },
            None => {
                self.status.running = false;
                self.backend = other_backend(self.backend);
                true
            },
        }
    }

    /// The icon that renders the current status.
    pub fn icon_name(&self) -> (r: String)
        ensures
            !self@.status.running ==> r@ == "microphone-disabled-symbolic"@,
            self@.status.running && self@.status.processing ==> r@
                == "microphone-sensitivity-high-symbolic"@,
            self@.status.running && !self@.status.processing ==> r@
                == "microphone-sensitivity-medium-symbolic"@,
    {
        if !self.status.running {
            String::from_str("microphone-disabled-symbolic")
        } else if self.status.processing {
            String::from_str("microphone-sensitivity-high-symbolic")
        } else {
            String::from_str("microphone-sensitivity-medium-symbolic")
        }
    }

    /// The tooltip that renders the current status.
    pub fn tooltip(&self) -> (r: String)
        ensures
            !self@.status.running ==> r@ == "Voice Input ("@ + backend_label_spec(self@.backend)
                + ") - Stopped\nLeft-click to start"@,
            self@.status.running && self@.status.processing ==> r@ == "Voice Input ("@
                + backend_label_spec(self@.backend) + ") - Processing..."@,
            self@.status.running && !self@.status.processing ==> r@ == "Voice Input ("@
                + backend_label_spec(self@.backend) + ") - Ready\nModel: "@ + self@.status.model
                + "\nLeft-click to stop"@,
    {
        let mut out = String::from_str("Voice Input (");
        let label = backend_label(self.backend);
        out.append(label.as_str());
        if !self.status.running {
            out.append(") - Stopped\nLeft-click to start");
        } else if self.status.processing {
            out.append(") - Processing...");
        } else {
            out.append(") - Ready\nModel: ");
            out.append(self.status.model.as_str());
            out.append("\nLeft-click to stop");
        }
        out
    }
}

/// Whether a switch goes ahead: always when no stop was needed; after a
/// stop, only when it succeeded.
pub open spec fn switch_proceeds(m: TrayMachineModel, stop_ok: Option<bool>) -> bool {
    match stop_ok {
        None => true,
        Some(ok) => ok,
    }
}

/// The tray's state after a switch attempt whose stop (if one was needed)
/// ended as `stop_ok` says: either the backend flipped with the daemon
/// stopped, or -- when the stop failed -- exactly the state before.
pub open spec fn switch_result(m: TrayMachineModel, stop_ok: Option<bool>) -> TrayMachineModel {
    if switch_proceeds(m, stop_ok) {
        TrayMachineModel {
            backend: other_backend_spec(m.backend),
            status: DaemonStatusModel {
                running: false,
                model: m.status.model,
                processing: if stop_ok is Some {
                    false
                } else {
                    m.status.processing
                },
            },
        }
    } else {
        m
    }
}

/// A backend switch requested while running whose stop fails is aborted:
/// the backend identity is unchanged and the status is still running.
pub proof fn lemma_switch_abort_keeps_identity(m: TrayMachineModel)
    requires
        m.status.running,
    ensures
        !switch_proceeds(m, Some(false)),
        switch_result(m, Some(false)) == m,
        switch_result(m, Some(false)).backend == m.backend,
        switch_result(m, Some(false)).status.running,
{
}

/// The human-readable name of a backend.
pub open spec fn backend_display_spec(b: Backend) -> Seq<char> {
    match b {
        Backend::WhisperCpp => "Whisper.cpp"@,
        Backend::FasterWhisper => "Faster Whisper"@,
    }
}

pub fn backend_display(b: Backend) -> (r: String)
    ensures
        r@ == backend_display_spec(b),
{
    match b {
        Backend::WhisperCpp => String::from_str("Whisper.cpp"),
        Backend::FasterWhisper => String::from_str("Faster Whisper"),
    }
}

/// One entry of the menu handed to the host tray framework.
pub enum MenuEntry {
    /// A non-activatable label.
    Disabled(String),
    Separator,
    /// Asks the supervisor to stop the daemon.
    StopDaemon(String),
    /// Asks the supervisor to start the daemon.
    StartDaemon(String),
    /// Asks for the backend switch.
    SwitchBackend(String),
    /// Ends the tray process.
    Quit(String),
}

impl TrayMachine {
    /// The menu describing the current state: status, backend and
    /// acceleration lines, the start/stop action, the model line, the
    /// switch action and quit.
    pub fn menu_entries(&self, acceleration: &str) -> (r: Vec<MenuEntry>)
        ensures
            r@.len() == 11,
            (r@[0] matches MenuEntry::Disabled(t) && t@ == (if self@.status.running {
                "Status: \u{2705} Running"@
            } else {
                "Status: \u{23f8}\u{fe0f}  Stopped"@
            })),
            (r@[1] matches MenuEntry::Disabled(t) && t@ == "Backend: "@ + backend_display_spec(
                self@.backend,
            )),
            (r@[2] matches MenuEntry::Disabled(t) && t@ == "Acceleration: "@ + upper_of(
                acceleration@,
            )),
            r@[3] is Separator,
            self@.status.running ==> (r@[4] matches MenuEntry::StopDaemon(t) && t@
                == "Stop Daemon"@),
            !self@.status.running ==> (r@[4] matches MenuEntry::StartDaemon(t) && t@
                == "Start Daemon"@),
            r@[5] is Separator,
            (r@[6] matches MenuEntry::Disabled(t) && t@ == "Model: "@ + self@.status.model),
            r@[7] is Separator,
            (r@[8] matches MenuEntry::SwitchBackend(t) && t@ == "Switch to "@
                + backend_display_spec(other_backend_spec(self@.backend))),
            r@[9] is Separator,
            (r@[10] matches MenuEntry::Quit(t) && t@ == "Quit"@),
    {
        let mut items: Vec<MenuEntry> = Vec::new();
        if self.status.running {
            items.push(MenuEntry::Disabled(String::from_str("Status: \u{2705} Running")));
        } else {
            items.push(
                MenuEntry::Disabled(String::from_str("Status: \u{23f8}\u{fe0f}  Stopped")),
            );
        }
        let mut backend_line = String::from_str("Backend: ");
        let display = backend_display(self.backend);
        backend_line.append(display.as_str());
        items.push(MenuEntry::Disabled(backend_line));
        let mut accel_line = String::from_str("Acceleration: ");
        let upper = to_upper(acceleration);
        accel_line.append(upper.as_str());
        items.push(MenuEntry::Disabled(accel_line));
        items.push(MenuEntry::Separator);
        if self.status.running {
            items.push(MenuEntry::StopDaemon(String::from_str("Stop Daemon")));
        } else {
            items.push(MenuEntry::StartDaemon(String::from_str("Start Daemon")));
        }
        items.push(MenuEntry::Separator);
        let mut model_line = String::from_str("Model: ");
        model_line.append(self.status.model.as_str());
        items.push(MenuEntry::Disabled(model_line));
        items.push(MenuEntry::Separator);
        let mut switch_line = String::from_str("Switch to ");
        let other_display = backend_display(other_backend(self.backend));
        switch_line.append(other_display.as_str());
        items.push(MenuEntry::SwitchBackend(switch_line));
        items.push(MenuEntry::Separator);
        items.push(MenuEntry::Quit(String::from_str("Quit")));
        items
    }
}

} // verus!
