use std::collections::HashMap;

use std::cell::RefCell;

use mpris_mqtt_adapter::probe::{
    detect_capabilities_with_backend, is_missing_template_value, parse_playerctl_bool,
    probe_feed, probe_next, probe_result, CapField, PlayerctlBackend, ProbeQuery, ProbeState,
};
use mpris_mqtt_adapter::types::{Capabilities, CapabilityProbeReport};

struct FakePlayerctl {
    responses: HashMap<String, Result<String, String>>,
    calls: RefCell<Vec<(String, Vec<String>)>>,
}

impl FakePlayerctl {
    fn new() -> Self {
        FakePlayerctl { responses: HashMap::new(), calls: RefCell::new(Vec::new()) }
    }

    fn key(player: &str, args: &[&str]) -> String {
        format!("{}|{}", player, args.join("\u{1f}"))
    }

    fn with(mut self, player: &str, args: &[&str], value: Result<&str, &str>) -> Self {
        let stored = value.map(|v| v.to_string()).map_err(|e| e.to_string());
        self.responses.insert(Self::key(player, args), stored);
        self
    }
}

impl PlayerctlBackend for FakePlayerctl {
    fn output(&self, player: &str, args: &[&str]) -> Result<String, String> {
        self.calls
            .borrow_mut()
            .push((player.to_string(), args.iter().map(|a| a.to_string()).collect()));
        self.responses
            .get(&Self::key(player, args))
            .cloned()
            .unwrap_or_else(|| Err(format!("missing response for {:?}", args)))
    }
}

fn full_backend() -> FakePlayerctl {
    FakePlayerctl::new()
        .with("p", &["status"], Ok("Playing"))
        .with("p", &["metadata", "--format", "{{playerName}}"], Ok("spotify"))
        .with("p", &["metadata", "--format", "{{mpris:canPlay}}"], Ok("true"))
        .with("p", &["metadata", "--format", "{{mpris:canPause}}"], Ok("true"))
        .with("p", &["metadata", "--format", "{{mpris:canGoNext}}"], Ok("true"))
        .with("p", &["metadata", "--format", "{{mpris:canGoPrevious}}"], Ok("true"))
        .with("p", &["metadata", "--format", "{{mpris:canSeek}}"], Ok("false"))
        .with("p", &["metadata", "--format", "{{mpris:canStop}}"], Err("unsupported"))
        .with("p", &["metadata", "--format", "{{canStop}}"], Ok("{{canStop}}"))
        .with("p", &["volume"], Ok("0.2"))
        .with("p", &["shuffle"], Ok("Off"))
        .with("p", &["loop"], Ok("None"))
}

fn check<'a>(report: &'a CapabilityProbeReport, name: &str) -> &'a mpris_mqtt_adapter::types::CapabilityProbeCheck {
    report.checks.iter().find(|c| c.capability == name).expect("check exists")
}

#[test]
fn parse_playerctl_bool_accepts_common_values() {
    assert_eq!(parse_playerctl_bool("true"), Some(true));
    assert_eq!(parse_playerctl_bool("1"), Some(true));
    assert_eq!(parse_playerctl_bool("On"), Some(true));
    assert_eq!(parse_playerctl_bool("false"), Some(false));
    assert_eq!(parse_playerctl_bool("0"), Some(false));
    assert_eq!(parse_playerctl_bool("off"), Some(false));
    assert_eq!(parse_playerctl_bool("unknown"), None);
}

#[test]
fn parse_playerctl_bool_trims_quotes_and_case() {
    assert_eq!(parse_playerctl_bool("  \"YES\"\n"), Some(true));
    assert_eq!(parse_playerctl_bool("\"No\""), Some(false));
    assert_eq!(parse_playerctl_bool(""), None);
    assert_eq!(parse_playerctl_bool("tru e"), None);
}

#[test]
fn missing_template_helper_detects_empty_and_echo() {
    assert!(is_missing_template_value("", "{{canPlay}}"));
    assert!(is_missing_template_value("{{canPlay}}", "{{canPlay}}"));
    assert!(!is_missing_template_value("true", "{{canPlay}}"));
}

#[test]
fn can_stop_uses_non_destructive_fallback() {
    let backend = full_backend();
    let (caps, report) = detect_capabilities_with_backend(&backend, "p");
    assert!(caps.can_stop);
    assert!(!report.fallback);
    let stop_check = check(&report, "can_stop");
    assert_eq!(stop_check.source, "fallback");
}

#[test]
fn probe_reports_every_capability_in_order() {
    let backend = full_backend();
    let (caps, report) = detect_capabilities_with_backend(&backend, "p");
    assert_eq!(
        caps,
        Capabilities {
            can_play: true,
            can_pause: true,
            can_stop: true,
            can_next: true,
            can_previous: true,
            can_seek: false,
            can_set_volume: true,
            can_shuffle: true,
            can_loop: true,
        }
    );
    assert_eq!(report.capabilities, caps);
    assert_eq!(report.status, "capabilities-probe");
    assert_eq!(report.player_selector, "p");
    assert_eq!(report.resolved_player, Some("spotify".to_string()));
    let names: Vec<&str> = report.checks.iter().map(|c| c.capability.as_str()).collect();
    assert_eq!(
        names,
        vec![
            "can_control", "can_play", "can_pause", "can_next", "can_previous", "can_seek",
            "can_set_volume", "can_shuffle", "can_loop", "can_stop"
        ]
    );
    let control = check(&report, "can_control");
    assert!(control.passed);
    assert_eq!(control.reason, "status=Playing");
    let seek = check(&report, "can_seek");
    assert_eq!(seek.source, "metadata");
    assert_eq!(seek.reason, "{{mpris:canSeek}}=false");
    let volume = check(&report, "can_set_volume");
    assert_eq!(volume.source, "query");
    assert_eq!(volume.reason, "playerctl volume succeeded");
    let stop = check(&report, "can_stop");
    assert_eq!(
        stop.reason,
        "non-destructive fallback using can_play/can_pause/status; status=Playing; \
         {{mpris:canStop}} error: unsupported; {{canStop}} unavailable"
    );
}

#[test]
fn unreachable_player_is_reported_unavailable() {
    let backend = FakePlayerctl::new().with("p", &["status"], Err("No players \"found\""));
    let (caps, report) = detect_capabilities_with_backend(&backend, "p");
    assert_eq!(caps, Capabilities::unavailable());
    assert_eq!(
        report,
        CapabilityProbeReport::unavailable("p", "status query failed: No players \"found\"")
    );
    assert!(report.fallback);
    assert_eq!(report.resolved_player, None);
    assert_eq!(report.checks.len(), 1);
    assert!(!report.checks[0].passed);
}

#[test]
fn stopped_player_without_play_or_pause_cannot_stop() {
    let backend = FakePlayerctl::new()
        .with("p", &["status"], Ok("  STOPPED "))
        .with("p", &["metadata", "--format", "{{mpris:canPlay}}"], Ok("false"))
        .with("p", &["metadata", "--format", "{{mpris:canPause}}"], Ok("\"0\""));
    let (caps, report) = detect_capabilities_with_backend(&backend, "p");
    assert!(!caps.can_play);
    assert!(!caps.can_pause);
    assert!(!caps.can_stop);
    assert_eq!(check(&report, "can_stop").source, "fallback");
    assert_eq!(report.resolved_player, None);
}

#[test]
fn metadata_flags_fall_back_to_true_and_plain_template_is_second() {
    let backend = FakePlayerctl::new()
        .with("p", &["status"], Ok("Paused"))
        .with("p", &["metadata", "--format", "{{mpris:canPlay}}"], Ok("maybe"))
        .with("p", &["metadata", "--format", "{{canPlay}}"], Ok("no"))
        .with("p", &["metadata", "--format", "{{mpris:canGoNext}}"], Ok(""));
    let (caps, report) = detect_capabilities_with_backend(&backend, "p");
    assert!(!caps.can_play);
    let play = check(&report, "can_play");
    assert_eq!(play.source, "metadata");
    assert_eq!(play.reason, "{{canPlay}}=no");
    assert!(caps.can_next);
    let next = check(&report, "can_next");
    assert_eq!(next.source, "fallback");
    assert_eq!(
        next.reason,
        "fallback to can_control=true; {{mpris:canGoNext}} unavailable; {{canGoNext}} error: \
         missing response for [\"metadata\", \"--format\", \"{{canGoNext}}\"]"
    );
    assert!(!caps.can_set_volume);
    assert_eq!(check(&report, "can_set_volume").reason, "playerctl volume failed");
}

#[test]
fn seek_falls_back_to_position_probe() {
    let backend = FakePlayerctl::new()
        .with("p", &["status"], Ok("Playing"))
        .with("p", &["metadata", "--format", "{{position}}"], Ok(" 1234 "));
    let (caps, report) = detect_capabilities_with_backend(&backend, "p");
    assert!(caps.can_seek);
    let seek = check(&report, "can_seek");
    assert_eq!(seek.source, "probe");
    assert!(seek.reason.starts_with("fallback by metadata value probe; "));
    assert!(seek.reason.contains("{{position}}=1234"));
    assert!(seek.reason.contains("{{mpris:length}} error: "));
}

fn metadata(template: &str) -> Vec<String> {
    vec!["metadata".to_string(), "--format".to_string(), template.to_string()]
}

#[test]
fn probe_asks_only_reading_queries_of_the_selected_player() {
    let backend = full_backend();
    detect_capabilities_with_backend(&backend, "p");
    let calls = backend.calls.borrow();
    assert!(calls.iter().all(|(player, _)| player == "p"));
    let args: Vec<Vec<String>> = calls.iter().map(|(_, a)| a.clone()).collect();
    assert_eq!(
        args,
        vec![
            vec!["status".to_string()],
            metadata("{{playerName}}"),
            metadata("{{mpris:canPlay}}"),
            metadata("{{mpris:canPause}}"),
            metadata("{{mpris:canGoNext}}"),
            metadata("{{mpris:canGoPrevious}}"),
            metadata("{{mpris:canSeek}}"),
            vec!["volume".to_string()],
            vec!["shuffle".to_string()],
            vec!["loop".to_string()],
            metadata("{{mpris:canStop}}"),
            metadata("{{canStop}}"),
        ]
    );
}

#[test]
fn failed_status_is_the_only_query() {
    let backend = FakePlayerctl::new();
    let (caps, report) = detect_capabilities_with_backend(&backend, "p");
    assert_eq!(backend.calls.borrow().len(), 1);
    assert_eq!(caps, Capabilities::unavailable());
    assert!(report.fallback);
}

#[test]
fn probe_state_machine_steps() {
    let mut state = ProbeState::new();
    assert_eq!(probe_next(&state), Some(ProbeQuery::Status));
    probe_feed(&mut state, ProbeQuery::Status, Ok("Stopped".to_string()));
    assert_eq!(probe_next(&state), Some(ProbeQuery::PlayerName));
    probe_feed(&mut state, ProbeQuery::PlayerName, Err("no name".to_string()));
    assert_eq!(probe_next(&state), Some(ProbeQuery::CapMpris(CapField::CanPlay)));
    probe_feed(&mut state, ProbeQuery::CapMpris(CapField::CanPlay), Ok("true".to_string()));
    assert_eq!(probe_next(&state), Some(ProbeQuery::CapMpris(CapField::CanPause)));
    probe_feed(&mut state, ProbeQuery::CapMpris(CapField::CanPause), Ok("false".to_string()));
    let mut steps = 0;
    while let Some(q) = probe_next(&state) {
        probe_feed(&mut state, q, Err("fails".to_string()));
        steps += 1;
    }
    // canGoNext, canGoPrevious, canSeek (two templates each), position,
    // length, volume, shuffle, loop, canStop (two templates).
    assert_eq!(steps, 13);
    let (caps, report) = probe_result(&state, "p");
    assert_eq!(
        caps,
        Capabilities {
            can_play: true,
            can_pause: false,
            can_stop: true,
            can_next: true,
            can_previous: true,
            can_seek: false,
            can_set_volume: false,
            can_shuffle: false,
            can_loop: false,
        }
    );
    assert_eq!(report.capabilities, caps);
    assert!(!report.fallback);
    let stop = check(&report, "can_stop");
    assert!(stop.passed);
    assert_eq!(stop.source, "fallback");
}

#[test]
fn probe_result_of_failed_status() {
    let mut state = ProbeState::new();
    probe_feed(&mut state, ProbeQuery::Status, Err("No players found".to_string()));
    assert_eq!(probe_next(&state), None);
    let (caps, report) = probe_result(&state, "sel");
    assert_eq!(caps, Capabilities::unavailable());
    assert_eq!(
        report,
        CapabilityProbeReport::unavailable("sel", "status query failed: No players found")
    );
}

#[test]
fn unreachable_player_report_keeps_playerctl_message() {
    let message = mpris_mqtt_adapter::playerctl::playerctl_output_result(
        false,
        "",
        "No players found",
        "[\"status\"]",
    )
    .expect_err("failed run");
    let backend = FakePlayerctl::new().with("playerctld,%any", &["status"], Err(&message));
    let (caps, report) = detect_capabilities_with_backend(&backend, "playerctld,%any");
    assert_eq!(caps, Capabilities::unavailable());
    assert_eq!(report.checks.len(), 1);
    assert_eq!(
        report.checks[0].reason,
        "status query failed: playerctl [\"status\"] failed: No players found"
    );
    assert_eq!(report.player_selector, "playerctld,%any");
}
