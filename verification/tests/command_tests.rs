use serde_json::Value;

use mpris_mqtt_adapter::commands::{
    handle_command, parse_numeric_value, CmdMsg, CommandError, NumericValue,
};

fn num(text: &str, non_negative: bool) -> NumericValue {
    NumericValue { text: text.to_string(), non_negative }
}

fn cmd(action: &str, value: Option<NumericValue>) -> CmdMsg {
    CmdMsg { action: action.to_string(), value }
}

fn argv(player: &str, args: &[&str]) -> Vec<String> {
    let mut v = vec!["--player".to_string(), player.to_string()];
    v.extend(args.iter().map(|a| a.to_string()));
    v
}

/// A command's JSON value as the library gets it: its number, if it is one.
fn numeric(value: &Value) -> Option<NumericValue> {
    value.as_f64().map(|n| num(&n.to_string(), n >= 0.0))
}

#[test]
fn parse_numeric_value_validates_required_numbers() {
    let one_and_a_quarter = numeric(&Value::from(1.25));
    let ok = parse_numeric_value(one_and_a_quarter.as_ref(), true, "position_set")
        .expect("number should pass");
    assert_eq!(ok, Some(num("1.25", true)));

    let missing_optional =
        parse_numeric_value(None, false, "volume_up").expect("optional missing should pass");
    assert_eq!(missing_optional, None);

    let loud = numeric(&Value::String("loud".to_string()));
    let err = parse_numeric_value(loud.as_ref(), true, "volume_set")
        .expect_err("required non-number should fail");
    assert!(err.message().contains("volume_set requires numeric value"));
}

#[test]
fn simple_actions_map_to_playerctl_commands() {
    let cases: [(&str, &[&str]); 12] = [
        ("play", &["play"]),
        ("pause", &["pause"]),
        ("play_pause", &["play-pause"]),
        ("toggle", &["play-pause"]),
        ("next", &["next"]),
        ("prev", &["previous"]),
        ("previous", &["previous"]),
        ("stop", &["stop"]),
        ("mute", &["volume", "0"]),
        ("loop_none", &["loop", "None"]),
        ("loop_track", &["loop", "Track"]),
        ("shuffle_on", &["shuffle", "On"]),
    ];
    for (action, args) in cases.iter() {
        assert_eq!(handle_command("spotify", &cmd(action, None)), Ok(argv("spotify", args)));
    }
    assert_eq!(
        handle_command("p", &cmd("loop_playlist", Some(num("3", true)))),
        Ok(argv("p", &["loop", "Playlist"]))
    );
    assert_eq!(
        handle_command("p", &cmd("shuffle_off", None)),
        Ok(argv("p", &["shuffle", "Off"]))
    );
}

#[test]
fn numeric_actions_format_their_value() {
    assert_eq!(
        handle_command("p", &cmd("volume_set", Some(num("0.6", true)))),
        Ok(argv("p", &["volume", "0.6"]))
    );
    assert_eq!(
        handle_command("p", &cmd("volume_up", Some(num("0.1", true)))),
        Ok(argv("p", &["volume", "+0.1"]))
    );
    assert_eq!(handle_command("p", &cmd("volume_up", None)), Ok(argv("p", &["volume", "+0.05"])));
    assert_eq!(
        handle_command("p", &cmd("volume_down", Some(num("0.2", true)))),
        Ok(argv("p", &["volume", "-0.2"]))
    );
    assert_eq!(
        handle_command("p", &cmd("volume_down", None)),
        Ok(argv("p", &["volume", "-0.05"]))
    );
    assert_eq!(
        handle_command("p", &cmd("position_set", Some(num("31.5", true)))),
        Ok(argv("p", &["position", "31.5"]))
    );
    assert_eq!(
        handle_command("p", &cmd("position_seek", Some(num("5", true)))),
        Ok(argv("p", &["position", "+5"]))
    );
    assert_eq!(
        handle_command("p", &cmd("position_seek", Some(num("-5", false)))),
        Ok(argv("p", &["position", "-5"]))
    );
}

#[test]
fn missing_required_number_is_refused() {
    for action in ["volume_set", "position_set", "position_seek"] {
        let err = handle_command("p", &cmd(action, None)).expect_err("number required");
        assert_eq!(err, CommandError::MissingNumericValue(action.to_string()));
        assert_eq!(err.message(), format!("{action} requires numeric value"));
    }
}

#[test]
fn unknown_action_is_refused() {
    let err = handle_command("p", &cmd("rewind", Some(num("1", true)))).expect_err("unknown");
    assert_eq!(err, CommandError::UnknownAction("rewind".to_string()));
    assert_eq!(err.message(), "unknown action: rewind");
    assert!(handle_command("p", &cmd("", None)).is_err());
    assert!(handle_command("p", &cmd("Play", None)).is_err());
}
