use mpris_mqtt_adapter::adapter::{capabilities_ttl_seconds, event_message, topic, AdapterMemory};
use mpris_mqtt_adapter::playerctl::{
    parse_state_fields, playerctl_output_result, playerctl_status_result, state_template,
};
use mpris_mqtt_adapter::text::{sanitize, split, to_ascii_lowercase, trim, trim_quotes};
use mpris_mqtt_adapter::types::Capabilities;

#[test]
fn trim_removes_unicode_whitespace() {
    assert_eq!(trim("  a b\t\n"), "a b");
    assert_eq!(trim("\u{3000}x\u{a0}"), "x");
    assert_eq!(trim("   "), "");
    assert_eq!(trim_quotes("\"\"v\""), "v");
}

#[test]
fn sanitize_and_lowercase() {
    assert_eq!(sanitize("a\"b\\c\nd\u{7f}"), "a\"b\\c d ");
    assert_eq!(to_ascii_lowercase("ÄbC"), "Äbc");
}

#[test]
fn split_keeps_empty_pieces() {
    assert_eq!(split("a\t\tb", '\t'), vec!["a", "", "b"]);
    assert_eq!(split("", '\t'), vec![""]);
    assert_eq!(split("a\t", '\t'), vec!["a", ""]);
}

#[test]
fn state_fields_are_parsed() {
    let out = "Playing\t Artist \tTi\"tle\tAlbum\turl\t0.52\t31200000\t244000000\tNone\tOff\tspotify";
    let f = parse_state_fields(out).expect("eleven fields");
    assert_eq!(f.state, "playing");
    assert_eq!(f.artist, "Artist");
    assert_eq!(f.title, "Ti\"tle");
    assert_eq!(f.volume, "0.52");
    assert_eq!(f.position, "31200000");
    assert_eq!(f.length, "244000000");
    assert_eq!(f.loop_status, "none");
    assert_eq!(f.shuffle, "off");
    assert_eq!(f.player, "spotify");
    let f = parse_state_fields("ÉTÉ\t\t\t\t\t\t\t\tPLAYLIST\tON\tx\textra").expect("more fields");
    assert_eq!(f.state, "été");
    assert_eq!(f.loop_status, "playlist");
    let err = parse_state_fields("Playing\tArtist").expect_err("too few fields");
    assert_eq!(err, "metadata output has unexpected format");
    assert_eq!(state_template().split('\t').count(), 11);
}

#[test]
fn playerctl_results() {
    assert_eq!(playerctl_output_result(true, " 0.5\n", "", "[\"volume\"]"), Ok("0.5".to_string()));
    assert_eq!(
        playerctl_output_result(false, "", "No players found\n", "[\"status\"]"),
        Err("playerctl [\"status\"] failed: No players found".to_string())
    );
    assert_eq!(playerctl_status_result(true), Ok(()));
    assert_eq!(playerctl_status_result(false), Err("playerctl command failed".to_string()));
}

#[test]
fn adapter_publishes_only_changes() {
    let caps = Capabilities::unavailable();
    let mut m = AdapterMemory::new(caps, None, None);
    assert!(!m.accept_capabilities(caps));
    let mut other = caps;
    other.can_play = true;
    assert!(m.accept_capabilities(other));
    assert!(!m.accept_capabilities(other));
    assert!(m.accept_probe_payload(b"{}"));
    assert!(!m.accept_probe_payload(b"{}"));
    assert!(m.accept_probe_payload(b"{ }"));
    assert!(m.observe_player("spotify"));
    assert!(!m.observe_player("spotify"));
    assert!(m.refresh_due(false, true));
    assert!(!m.refresh_due(false, false));
    assert!(m.refresh_due(true, false));
    m.record_command_player("vlc");
    assert_eq!(m.last_active_player, Some("vlc".to_string()));
    assert_eq!(capabilities_ttl_seconds(0), 1);
    assert_eq!(capabilities_ttl_seconds(15), 15);
    assert_eq!(topic("workstation/media", "state"), "workstation/media/state");
    assert_eq!(
        event_message("error", "bad\nline"),
        "{\"status\":\"error\",\"message\":\"bad line\"}"
    );
}
