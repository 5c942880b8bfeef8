use whisp_away::config::{
    backend_label, decode_tray_state, encode_tray_state, get_acceleration_type, get_state_file,
    other_backend, parse_backend, resolve_backend, resolve_model, runtime_dir_fallback, Backend,
    TrayState,
};
use whisp_away::supervisor::{
    daemon_args, daemon_fixed_env, daemon_log_path, env_allowed, python_daemon_env,
    whisper_model_path, SupStartEvent, SupStartPhase, SupStartTracker, SupStopEvent, SupStopPhase,
    SupStopTracker,
};
use whisp_away::tray::{backend_display, MenuEntry, TrayMachine, TrayOp};

#[test]
fn stop_of_already_exited_handle() {
    let mut sup = SupStopTracker::new(true);
    let eff = sup.step(SupStopEvent::HandleStatus { running: false });
    assert!(eff.done_ok);
    assert!(!eff.send_term_group);
    assert!(!eff.send_kill);
    assert!(eff.orphan_pass);
    assert!(eff.clear_handle);
    assert!(!sup.handle);
    assert_eq!(sup.phase, SupStopPhase::Done);
}

#[test]
fn stop_without_handle_succeeds() {
    let mut sup = SupStopTracker::new(false);
    let eff = sup.step(SupStopEvent::NoHandle);
    assert!(eff.done_ok);
    assert!(!eff.send_term_group && !eff.send_kill);
}

#[test]
fn stop_escalates_gracefully_then_forcefully() {
    let mut sup = SupStopTracker::new(true);
    let eff = sup.step(SupStopEvent::HandleStatus { running: true });
    assert!(eff.send_term_group);
    assert!(!eff.send_kill);
    let eff = sup.step(SupStopEvent::GraceElapsed {
        still_running: true,
    });
    assert!(eff.send_kill);
    assert!(eff.orphan_pass && eff.clear_handle && eff.done_ok);
    assert!(!sup.handle);
}

#[test]
fn stop_skips_force_when_grace_sufficed() {
    let mut sup = SupStopTracker::new(true);
    sup.step(SupStopEvent::HandleStatus { running: true });
    let eff = sup.step(SupStopEvent::GraceElapsed {
        still_running: false,
    });
    assert!(!eff.send_kill);
    assert!(eff.orphan_pass && eff.clear_handle && eff.done_ok);
}

#[test]
fn start_is_noop_over_live_handle() {
    let mut sup = SupStartTracker::new(true);
    let e1 = sup.step(SupStartEvent::Begin);
    assert!(e1.reclaim_orphans);
    let e2 = sup.step(SupStartEvent::OrphansReclaimed);
    assert!(e2.probe_handle);
    let e3 = sup.step(SupStartEvent::HandleStatus { live: true });
    assert!(e3.done_ok);
    assert!(!e1.spawn_daemon && !e2.spawn_daemon && !e3.spawn_daemon);
    assert!(sup.handle);
    assert_eq!(sup.phase, SupStartPhase::Done);
}

#[test]
fn start_spawns_when_no_live_handle() {
    let mut sup = SupStartTracker::new(false);
    sup.step(SupStartEvent::Begin);
    sup.step(SupStartEvent::OrphansReclaimed);
    let eff = sup.step(SupStartEvent::HandleStatus { live: false });
    assert!(eff.spawn_daemon);
    let eff = sup.step(SupStartEvent::SpawnResult { ok: true });
    assert!(eff.wait_ready);
    assert!(sup.handle);
    let eff = sup.step(SupStartEvent::ReadyElapsed);
    assert!(eff.set_running && eff.done_ok);
}

#[test]
fn start_reports_spawn_failure() {
    let mut sup = SupStartTracker::new(false);
    sup.step(SupStartEvent::Begin);
    sup.step(SupStartEvent::OrphansReclaimed);
    sup.step(SupStartEvent::HandleStatus { live: false });
    let eff = sup.step(SupStartEvent::SpawnResult { ok: false });
    assert!(eff.fail);
    assert!(!sup.handle);
}

#[test]
fn environment_allow_list() {
    for name in [
        "CUDA_VISIBLE_DEVICES",
        "CUDA_HOME",
        "CUDA_PATH",
        "LD_LIBRARY_PATH",
        "LIBRARY_PATH",
        "FASTER_WHISPER_PYTHON",
        "FASTER_WHISPER_PYTHONPATH",
        "FASTER_WHISPER_SCRIPT",
        "FASTER_WHISPER_DAEMON_SCRIPT",
        "WHISPER_CPP_PATH",
        "DISPLAY",
        "WAYLAND_DISPLAY",
        "XDG_RUNTIME_DIR",
    ] {
        assert!(env_allowed(name), "{} should pass", name);
    }
    for name in ["PATH", "HOME", "USER", "SSH_AUTH_SOCK", "CUDA", ""] {
        assert!(!env_allowed(name), "{} should not pass", name);
    }
}

#[test]
fn model_path_resolution() {
    assert_eq!(
        whisper_model_path("/home/u", "base.en"),
        "/home/u/.cache/whisper-cpp/models/ggml-base.en.bin"
    );
    assert_eq!(
        whisper_model_path("/home/u", "custom.bin"),
        "/home/u/.cache/whisper-cpp/models/ggml-custom.bin"
    );
}

#[test]
fn relaunch_arguments() {
    let args = daemon_args(Backend::WhisperCpp, "base.en", "/tmp/s.sock");
    let refs: Vec<&str> = args.iter().map(|a| a.as_str()).collect();
    assert_eq!(refs, vec!["daemon", "--backend", "whisper-cpp", "--model", "base.en"]);
    let args = daemon_args(Backend::FasterWhisper, "small", "/tmp/s.sock");
    let refs: Vec<&str> = args.iter().map(|a| a.as_str()).collect();
    assert_eq!(
        refs,
        vec![
            "daemon",
            "--backend",
            "faster-whisper",
            "--model",
            "small",
            "--socket-path",
            "/tmp/s.sock"
        ]
    );
}

#[test]
fn log_redirection_paths() {
    assert_eq!(
        daemon_log_path("/home/u", Backend::WhisperCpp, false),
        "/home/u/.cache/whisp-away/daemon-whisper-cpp.log"
    );
    assert_eq!(
        daemon_log_path("/home/u", Backend::FasterWhisper, true),
        "/home/u/.cache/whisp-away/daemon-faster-whisper.err"
    );
}

#[test]
fn fixed_child_environment() {
    let env = daemon_fixed_env(
        Backend::FasterWhisper,
        "/home/u",
        "small",
        "/tmp/s.sock",
        "",
        true,
    );
    let pairs: Vec<(&str, &str)> = env.iter().map(|p| (p.0.as_str(), p.1.as_str())).collect();
    assert_eq!(
        pairs,
        vec![
            ("WA_WHISPER_SOCKET", "/tmp/s.sock"),
            ("WHISPER_DEVICE", "cuda"),
            ("WHISPER_COMPUTE", "float16"),
            ("HOME", "/home/u"),
            ("WA_WHISPER_MODEL", "small"),
        ]
    );
    let env = daemon_fixed_env(
        Backend::WhisperCpp,
        "/home/u",
        "base.en",
        "/tmp/s.sock",
        "/home/u/.cache/whisper-cpp/models/ggml-base.en.bin",
        false,
    );
    let pairs: Vec<(&str, &str)> = env.iter().map(|p| (p.0.as_str(), p.1.as_str())).collect();
    assert_eq!(
        pairs,
        vec![
            (
                "WHISPER_CPP_MODEL_PATH",
                "/home/u/.cache/whisper-cpp/models/ggml-base.en.bin"
            ),
            ("HOME", "/home/u"),
            ("WA_WHISPER_MODEL", "base.en"),
        ]
    );
}

#[test]
fn interpreter_daemon_environment() {
    let env = python_daemon_env("/opt/py", "small", "/tmp/s.sock", "0", "/usr/lib");
    let pairs: Vec<(&str, &str)> = env.iter().map(|p| (p.0.as_str(), p.1.as_str())).collect();
    assert_eq!(
        pairs,
        vec![
            ("PYTHONPATH", "/opt/py"),
            ("WA_WHISPER_MODEL", "small"),
            ("WA_WHISPER_SOCKET", "/tmp/s.sock"),
            ("CUDA_VISIBLE_DEVICES", "0"),
            ("LD_LIBRARY_PATH", "/usr/lib"),
        ]
    );
}

#[test]
fn switch_aborts_when_stop_fails() {
    // switch requested while running and the stop fails: backend identity
    // unchanged, status still running
    let mut tray = TrayMachine::new(Backend::WhisperCpp, "base.en".to_string());
    tray.apply_start_result(true);
    assert!(tray.status.running);
    let proceeded = tray.apply_switch(Some(false));
    assert!(!proceeded);
    assert_eq!(tray.backend, Backend::WhisperCpp);
    assert!(tray.status.running);
    assert_eq!(tray.status.model, "base.en");
}

#[test]
fn switch_proceeds_after_successful_stop() {
    let mut tray = TrayMachine::new(Backend::WhisperCpp, "base.en".to_string());
    tray.apply_start_result(true);
    let proceeded = tray.apply_switch(Some(true));
    assert!(proceeded);
    assert_eq!(tray.backend, Backend::FasterWhisper);
    assert!(!tray.status.running);
    let st = tray.persisted_state();
    assert_eq!(st.backend, "faster-whisper");
    assert_eq!(st.model, "base.en");
    tray.apply_start_result(true);
    assert!(tray.status.running);
}

#[test]
fn switch_from_stopped_needs_no_stop() {
    let mut tray = TrayMachine::new(Backend::FasterWhisper, "small".to_string());
    assert!(!tray.status.running);
    let proceeded = tray.apply_switch(None);
    assert!(proceeded);
    assert_eq!(tray.backend, Backend::WhisperCpp);
}

#[test]
fn activation_toggles() {
    let mut tray = TrayMachine::new(Backend::WhisperCpp, "base.en".to_string());
    assert_eq!(tray.activate_decision(), TrayOp::StartDaemon);
    tray.apply_start_result(false);
    assert!(!tray.status.running);
    tray.apply_start_result(true);
    assert_eq!(tray.activate_decision(), TrayOp::StopDaemon);
    tray.set_processing(true);
    tray.apply_stop_result(false);
    assert!(tray.status.running && tray.status.processing);
    tray.apply_stop_result(true);
    assert!(!tray.status.running && !tray.status.processing);
}

#[test]
fn icons_and_tooltips_follow_status() {
    let mut tray = TrayMachine::new(Backend::WhisperCpp, "base.en".to_string());
    assert_eq!(tray.icon_name(), "microphone-disabled-symbolic");
    assert_eq!(
        tray.tooltip(),
        "Voice Input (whisper-cpp) - Stopped\nLeft-click to start"
    );
    tray.apply_start_result(true);
    assert_eq!(tray.icon_name(), "microphone-sensitivity-medium-symbolic");
    assert_eq!(
        tray.tooltip(),
        "Voice Input (whisper-cpp) - Ready\nModel: base.en\nLeft-click to stop"
    );
    tray.set_processing(true);
    assert_eq!(tray.icon_name(), "microphone-sensitivity-high-symbolic");
    assert_eq!(tray.tooltip(), "Voice Input (whisper-cpp) - Processing...");
}

#[test]
fn menu_describes_the_state() {
    let mut tray = TrayMachine::new(Backend::WhisperCpp, "base.en".to_string());
    let menu = tray.menu_entries("cuda");
    assert_eq!(menu.len(), 11);
    assert!(matches!(&menu[0], MenuEntry::Disabled(t) if t.contains("Stopped")));
    assert!(matches!(&menu[1], MenuEntry::Disabled(t) if t == "Backend: Whisper.cpp"));
    assert!(matches!(&menu[2], MenuEntry::Disabled(t) if t == "Acceleration: CUDA"));
    assert!(matches!(&menu[3], MenuEntry::Separator));
    assert!(matches!(&menu[4], MenuEntry::StartDaemon(t) if t == "Start Daemon"));
    assert!(matches!(&menu[6], MenuEntry::Disabled(t) if t == "Model: base.en"));
    assert!(matches!(&menu[8], MenuEntry::SwitchBackend(t) if t == "Switch to Faster Whisper"));
    assert!(matches!(&menu[10], MenuEntry::Quit(t) if t == "Quit"));
    tray.apply_start_result(true);
    let menu = tray.menu_entries("cpu");
    assert!(matches!(&menu[0], MenuEntry::Disabled(t) if t.contains("Running")));
    assert!(matches!(&menu[4], MenuEntry::StopDaemon(t) if t == "Stop Daemon"));
}

#[test]
fn persisted_record_round_trip() {
    let state = TrayState {
        model: "base.en".to_string(),
        backend: "whisper-cpp".to_string(),
    };
    let encoded = encode_tray_state(&state);
    assert_eq!(encoded, r#"{"model": "base.en", "backend": "whisper-cpp"}"#);
    let back = decode_tray_state(&encoded).expect("decodes");
    assert_eq!(back.model, "base.en");
    assert_eq!(back.backend, "whisper-cpp");
}

#[test]
fn persisted_record_tolerates_pretty_layout() {
    let pretty = "{\n  \"model\": \"small\",\n  \"backend\": \"faster-whisper\"\n}";
    let back = decode_tray_state(pretty).expect("decodes");
    assert_eq!(back.model, "small");
    assert_eq!(back.backend, "faster-whisper");
}

#[test]
fn persisted_record_rejects_garbage() {
    assert!(decode_tray_state("").is_none());
    assert!(decode_tray_state("{\"model\": \"x\"}").is_none());
    assert!(decode_tray_state("{\"backend\": \"x\", \"model\": \"y\"}").is_none());
}

#[test]
fn model_resolution_priority() {
    let state = TrayState {
        model: "from-state".to_string(),
        backend: "whisper-cpp".to_string(),
    };
    assert_eq!(
        resolve_model(Some("arg".to_string()), Some(&state), Some("env".to_string())),
        "arg"
    );
    assert_eq!(
        resolve_model(None, Some(&state), Some("env".to_string())),
        "from-state"
    );
    assert_eq!(resolve_model(None, None, Some("env".to_string())), "env");
    assert_eq!(resolve_model(None, None, None), "base.en");
}

#[test]
fn backend_resolution_priority() {
    let state = TrayState {
        model: "m".to_string(),
        backend: "whisper-cpp".to_string(),
    };
    assert_eq!(
        resolve_backend(Some(Backend::FasterWhisper), Some(&state), None),
        "faster-whisper"
    );
    assert_eq!(resolve_backend(None, Some(&state), None), "whisper-cpp");
    assert_eq!(
        resolve_backend(None, None, Some("whisper-cpp".to_string())),
        "whisper-cpp"
    );
    assert_eq!(resolve_backend(None, None, None), "faster-whisper");
}

#[test]
fn backend_labels() {
    assert_eq!(backend_label(Backend::WhisperCpp), "whisper-cpp");
    assert_eq!(backend_label(Backend::FasterWhisper), "faster-whisper");
    assert_eq!(parse_backend("whisper-cpp"), Some(Backend::WhisperCpp));
    assert_eq!(parse_backend("faster-whisper"), Some(Backend::FasterWhisper));
    assert_eq!(parse_backend("unknown"), None);
    assert_eq!(other_backend(Backend::WhisperCpp), Backend::FasterWhisper);
    assert_eq!(backend_display(Backend::WhisperCpp), "Whisper.cpp");
    assert_eq!(backend_display(Backend::FasterWhisper), "Faster Whisper");
}

#[test]
fn runtime_paths() {
    assert_eq!(runtime_dir_fallback(1000), "/tmp/whisp-away-1000");
    assert_eq!(
        get_state_file("/run/user/1000"),
        "/run/user/1000/whisp-away-state.json"
    );
}

#[test]
fn acceleration_label() {
    assert_eq!(get_acceleration_type(Some("cuda".to_string())), "cuda");
    assert_eq!(get_acceleration_type(None), "unknown");
}
