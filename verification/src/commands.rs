//! MQTT commands: which `playerctl` invocation each command asks for.
use vstd::prelude::*;

use crate::text::{concat, owned, str_eq, string_views};

verus! {

/// A numeric command value, as `playerctl` is given it: the text that Rust
/// prints for the number, and whether the number is at least zero.
#[derive(Debug, Clone, PartialEq)]
pub struct NumericValue {
    pub text: String,
    pub non_negative: bool,
}

pub struct NumericView {
    pub text: Seq<char>,
    pub non_negative: bool,
}

impl View for NumericValue {
    type V = NumericView;

    open spec fn view(&self) -> NumericView {
        NumericView { text: self.text@, non_negative: self.non_negative }
    }
}

impl NumericValue {
    pub fn copy(&self) -> (res: Self)
        ensures
            res@ == self@,
    {
        NumericValue { text: owned(self.text.as_str()), non_negative: self.non_negative }
    }
}

/// A command received on the command topic. `value` holds the command's
/// `value` field when that field is a number, and is `None` when the field is
/// absent or not a number.
#[derive(Debug, Clone, PartialEq)]
pub struct CmdMsg {
    pub action: String,
    pub value: Option<NumericValue>,
}

/// Why a command was refused.
#[derive(Debug, Clone, PartialEq)]
pub enum CommandError {
    UnknownAction(String),
    MissingNumericValue(String),
}

pub enum CommandFailure {
    UnknownAction(Seq<char>),
    MissingNumericValue(Seq<char>),
}

impl View for CommandError {
    type V = CommandFailure;

    open spec fn view(&self) -> CommandFailure {
        match self {
            CommandError::UnknownAction(a) => CommandFailure::UnknownAction(a@),
            CommandError::MissingNumericValue(f) => CommandFailure::MissingNumericValue(f@),
        }
    }
}

pub open spec fn failure_message(f: CommandFailure) -> Seq<char> {
    match f {
        CommandFailure::UnknownAction(a) => "unknown action: "@ + a,
        CommandFailure::MissingNumericValue(field) => field + " requires numeric value"@,
    }
}

impl CommandError {
    /// The text of the error, as the event topic reports it.
    pub fn message(&self) -> (res: String)
        ensures
            res@ == failure_message(self@),
    {
        match self {
            CommandError::UnknownAction(a) => concat("unknown action: ", a.as_str()),
            CommandError::MissingNumericValue(f) => concat(f.as_str(), " requires numeric value"),
        }
    }
}

pub open spec fn numeric_view(v: Option<NumericValue>) -> Option<NumericView> {
    match v {
        Some(n) => Some(n@),
        None => None,
    }
}

/// A numeric value where one is given; its absence is an error only when it
/// is `required`.
pub open spec fn spec_parse_numeric_value(
    value: Option<NumericView>,
    required: bool,
    field_name: Seq<char>,
) -> Result<Option<NumericView>, CommandFailure> {
    match value {
        Some(v) => Ok(Some(v)),
        None => if required {
            Err(CommandFailure::MissingNumericValue(field_name))
        } else {
            Ok(None)
        },
    }
}

pub open spec fn numeric_result_view(r: Result<Option<NumericValue>, CommandError>) -> Result<
    Option<NumericView>,
    CommandFailure,
> {
    match r {
        Ok(v) => Ok(numeric_view(v)),
        Err(e) => Err(e@),
    }
}

pub fn parse_numeric_value(value: Option<&NumericValue>, required: bool, field_name: &str) -> (res:
    Result<Option<NumericValue>, CommandError>)
    ensures
        numeric_result_view(res) == spec_parse_numeric_value(
            match value {
                Some(v) => Some(v@),
                None => None,
            },
            required,
            field_name@,
        ),
{
    match value {
        Some(num) => Ok(Some(num.copy())),
        None => if required {
            Err(CommandError::MissingNumericValue(owned(field_name)))
        } else {
            Ok(None)
        },
    }
}

/// The actions that the adapter knows.
pub open spec fn is_known_action(action: Seq<char>) -> bool {
    ||| action == "play"@
    ||| action == "pause"@
    ||| action == "play_pause"@
    ||| action == "toggle"@
    ||| action == "next"@
    ||| action == "prev"@
    ||| action == "previous"@
    ||| action == "stop"@
    ||| action == "volume_set"@
    ||| action == "volume_up"@
    ||| action == "volume_down"@
    ||| action == "mute"@
    ||| action == "position_set"@
    ||| action == "position_seek"@
    ||| action == "loop_none"@
    ||| action == "loop_track"@
    ||| action == "loop_playlist"@
    ||| action == "shuffle_on"@
    ||| action == "shuffle_off"@
}

/// The actions that cannot run without a numeric value.
pub open spec fn requires_number(action: Seq<char>) -> bool {
    action == "volume_set"@ || action == "position_set"@ || action == "position_seek"@
}

/// The `playerctl` arguments (after `--player <player>`) that a command
/// asks for, or why it is refused.
pub open spec fn spec_command_args(action: Seq<char>, value: Option<NumericView>) -> Result<
    Seq<Seq<char>>,
    CommandFailure,
> {
    if action == "play"@ {
        Ok(seq!["play"@])
    } else if action == "pause"@ {
        Ok(seq!["pause"@])
    } else if action == "play_pause"@ || action == "toggle"@ {
        Ok(seq!["play-pause"@])
    } else if action == "next"@ {
        Ok(seq!["next"@])
    } else if action == "prev"@ || action == "previous"@ {
        Ok(seq!["previous"@])
    } else if action == "stop"@ {
        Ok(seq!["stop"@])
    } else if action == "volume_set"@ {
        match value {
            Some(v) => Ok(seq!["volume"@, v.text]),
            None => Err(CommandFailure::MissingNumericValue("volume_set"@)),
        }
    } else if action == "volume_up"@ {
        match value {
            Some(v) => Ok(seq!["volume"@, "+"@ + v.text]),
            None => Ok(seq!["volume"@, "+0.05"@]),
        }
    } else if action == "volume_down"@ {
        match value {
            Some(v) => Ok(seq!["volume"@, "-"@ + v.text]),
            None => Ok(seq!["volume"@, "-0.05"@]),
        }
    } else if action == "mute"@ {
        Ok(seq!["volume"@, "0"@])
    } else if action == "position_set"@ {
        match value {
            Some(v) => Ok(seq!["position"@, v.text]),
            None => Err(CommandFailure::MissingNumericValue("position_set"@)),
        }
    } else if action == "position_seek"@ {
        match value {
            Some(v) => if v.non_negative {
                Ok(seq!["position"@, "+"@ + v.text])
            } else {
                Ok(seq!["position"@, v.text])
            },
            None => Err(CommandFailure::MissingNumericValue("position_seek"@)),
        }
    } else if action == "loop_none"@ {
        Ok(seq!["loop"@, "None"@])
    } else if action == "loop_track"@ {
        Ok(seq!["loop"@, "Track"@])
    } else if action == "loop_playlist"@ {
        Ok(seq!["loop"@, "Playlist"@])
    } else if action == "shuffle_on"@ {
        Ok(seq!["shuffle"@, "On"@])
    } else if action == "shuffle_off"@ {
        Ok(seq!["shuffle"@, "Off"@])
    } else {
        Err(CommandFailure::UnknownAction(action))
    }
}

/// The whole `playerctl` command line (without the program name) for
/// `args` sent to `player`.
pub open spec fn spec_playerctl_argv(player: Seq<char>, args: Seq<Seq<char>>) -> Seq<Seq<char>> {
    seq!["--player"@, player] + args
}

pub open spec fn argv_result_view(r: Result<Vec<String>, CommandError>) -> Result<
    Seq<Seq<char>>,
    CommandFailure,
> {
    match r {
        Ok(v) => Ok(string_views(v@)),
        Err(e) => Err(e@),
    }
}

fn argv1(player: &str, a: &str) -> (res: Vec<String>)
    ensures
        string_views(res@) == spec_playerctl_argv(player@, seq![a@]),
{
    let res = vec![owned("--player"), owned(player), owned(a)];
    assert(string_views(res@) =~= spec_playerctl_argv(player@, seq![a@]));
    res
}

fn argv2(player: &str, a: &str, b: String) -> (res: Vec<String>)
    ensures
        string_views(res@) == spec_playerctl_argv(player@, seq![a@, b@]),
{
    let res = vec![owned("--player"), owned(player), owned(a), b];
    assert(string_views(res@) =~= spec_playerctl_argv(player@, seq![a@, b@]));
    res
}

/// Decides what a command asks of `player`: the full `playerctl` argument
/// list to run, or why the command is refused.
pub fn handle_command(player: &str, cmd: &CmdMsg) -> (res: Result<Vec<String>, CommandError>)
    ensures
        argv_result_view(res) == match spec_command_args(cmd.action@, numeric_view(cmd.value)) {
            Ok(args) => Ok(spec_playerctl_argv(player@, args)),
            Err(f) => Err::<Seq<Seq<char>>, CommandFailure>(f),
        },
{
    let action = cmd.action.as_str();
    let value = match &cmd.value {
        Some(v) => Some(v),
        None => None,
    };
    if str_eq(action, "play") {
        Ok(argv1(player, "play"))
    } else if str_eq(action, "pause") {
        Ok(argv1(player, "pause"))
    } else if str_eq(action, "play_pause") || str_eq(action, "toggle") {
        Ok(argv1(player, "play-pause"))
    } else if str_eq(action, "next") {
        Ok(argv1(player, "next"))
    } else if str_eq(action, "prev") || str_eq(action, "previous") {
        Ok(argv1(player, "previous"))
    } else if str_eq(action, "stop") {
        Ok(argv1(player, "stop"))
    } else if str_eq(action, "volume_set") {
        match parse_numeric_value(value, true, "volume_set") {
            Ok(Some(v)) => Ok(argv2(player, "volume", v.text)),
            Ok(None) => Err(CommandError::MissingNumericValue(owned("volume_set"))),
            Err(e) => Err(e),
        }
    } else if str_eq(action, "volume_up") {
        match parse_numeric_value(value, false, "volume_up") {
            Ok(Some(v)) => Ok(argv2(player, "volume", concat("+", v.text.as_str()))),
            Ok(None) => Ok(argv2(player, "volume", owned("+0.05"))),
            Err(e) => Err(e),
        }
    } else if str_eq(action, "volume_down") {
        match parse_numeric_value(value, false, "volume_down") {
            Ok(Some(v)) => Ok(argv2(player, "volume", concat("-", v.text.as_str()))),
            Ok(None) => Ok(argv2(player, "volume", owned("-0.05"))),
            Err(e) => Err(e),
        }
    } else if str_eq(action, "mute") {
        Ok(argv2(player, "volume", owned("0")))
    } else if str_eq(action, "position_set") {
        match parse_numeric_value(value, true, "position_set") {
            Ok(Some(v)) => Ok(argv2(player, "position", v.text)),
            Ok(None) => Err(CommandError::MissingNumericValue(owned("position_set"))),
            Err(e) => Err(e),
        }
    } else if str_eq(action, "position_seek") {
        match parse_numeric_value(value, true, "position_seek") {
            Ok(Some(v)) => if v.non_negative {
                Ok(argv2(player, "position", concat("+", v.text.as_str())))
            } else {
                Ok(argv2(player, "position", v.text))
            },
            Ok(None) => Err(CommandError::MissingNumericValue(owned("position_seek"))),
            Err(e) => Err(e),
        }
    } else if str_eq(action, "loop_none") {
        Ok(argv2(player, "loop", owned("None")))
    } else if str_eq(action, "loop_track") {
        Ok(argv2(player, "loop", owned("Track")))
    } else if str_eq(action, "loop_playlist") {
        Ok(argv2(player, "loop", owned("Playlist")))
    } else if str_eq(action, "shuffle_on") {
        Ok(argv2(player, "shuffle", owned("On")))
    } else if str_eq(action, "shuffle_off") {
        Ok(argv2(player, "shuffle", owned("Off")))
    } else {
        Err(CommandError::UnknownAction(owned(action)))
    }
}

// ---------------------------------------------------------------------------
// Laws
// ---------------------------------------------------------------------------

/// `toggle` is `play_pause` and `prev` is `previous`, whatever the value.
pub proof fn lemma_action_aliases(value: Option<NumericView>)
    ensures
        spec_command_args("toggle"@, value) == spec_command_args("play_pause"@, value),
        spec_command_args("prev"@, value) == spec_command_args("previous"@, value),
{
    reveal_strlit("toggle");
    reveal_strlit("play_pause");
    reveal_strlit("prev");
    reveal_strlit("previous");
    reveal_strlit("play");
    reveal_strlit("pause");
    reveal_strlit("next");
    assert("toggle"@ != "play"@ && "toggle"@ != "pause"@) by {
        assert("toggle"@.len() == 6);
    }
    assert("play_pause"@ != "play"@ && "play_pause"@ != "pause"@) by {
        assert("play_pause"@.len() == 10);
    }
    assert("prev"@ != "play"@ && "prev"@ != "next"@) by {
        assert("prev"@[1] == 'r');
    }
    assert("prev"@ != "pause"@ && "prev"@ != "play_pause"@ && "prev"@ != "toggle"@) by {
        assert("prev"@.len() == 4);
    }
    assert("previous"@ != "play"@ && "previous"@ != "pause"@ && "previous"@ != "play_pause"@
        && "previous"@ != "toggle"@ && "previous"@ != "next"@) by {
        assert("previous"@.len() == 8);
    }
}

/// A command whose action the adapter does not know is refused with that
/// action, whatever its value.
pub proof fn lemma_unknown_action_refused(action: Seq<char>, value: Option<NumericView>)
    requires
        !is_known_action(action),
    ensures
        spec_command_args(action, value) == Err::<Seq<Seq<char>>, CommandFailure>(
            CommandFailure::UnknownAction(action),
        ),
{
}

/// Every known action is carried out, unless it needs a number and none is
/// given.
pub proof fn lemma_known_action_accepted(action: Seq<char>, value: Option<NumericView>)
    requires
        is_known_action(action),
        requires_number(action) ==> value is Some,
    ensures
        spec_command_args(action, value) is Ok,
{
}

/// An action that needs a number, given none, is refused and names itself.
pub proof fn lemma_missing_number_refused(action: Seq<char>)
    requires
        requires_number(action),
    ensures
        spec_command_args(action, None) == Err::<Seq<Seq<char>>, CommandFailure>(
            CommandFailure::MissingNumericValue(action),
        ),
{
    reveal_strlit("play");
    reveal_strlit("pause");
    reveal_strlit("play_pause");
    reveal_strlit("toggle");
    reveal_strlit("next");
    reveal_strlit("prev");
    reveal_strlit("previous");
    reveal_strlit("stop");
    reveal_strlit("volume_set");
    reveal_strlit("volume_up");
    reveal_strlit("volume_down");
    reveal_strlit("mute");
    reveal_strlit("position_set");
    reveal_strlit("position_seek");
    assert("play"@.len() == 4);
    assert("pause"@.len() == 5);
    assert("play_pause"@.len() == 10);
    assert("toggle"@.len() == 6);
    assert("next"@.len() == 4);
    assert("prev"@.len() == 4);
    assert("previous"@.len() == 8);
    assert("stop"@.len() == 4);
    assert("volume_set"@.len() == 10);
    assert("volume_up"@.len() == 9);
    assert("volume_down"@.len() == 11);
    assert("mute"@.len() == 4);
    assert("position_set"@.len() == 12);
    assert("position_seek"@.len() == 13);
    assert("volume_set"@ != "play_pause"@) by {
        assert("volume_set"@[0] != "play_pause"@[0]);
    }
}

/// Only the volume and position actions read the value.
pub proof fn lemma_value_ignored_elsewhere(
    action: Seq<char>,
    v1: Option<NumericView>,
    v2: Option<NumericView>,
)
    requires
        action != "volume_set"@,
        action != "volume_up"@,
        action != "volume_down"@,
        action != "position_set"@,
        action != "position_seek"@,
    ensures
        spec_command_args(action, v1) == spec_command_args(action, v2),
{
}

/// The action names are pairwise different.
pub proof fn lemma_action_names_distinct()
    ensures
        "pause"@ != "play"@,
        "play_pause"@ != "play"@,
        "toggle"@ != "play"@,
        "next"@ != "play"@,
        "prev"@ != "play"@,
        "previous"@ != "play"@,
        "stop"@ != "play"@,
        "volume_set"@ != "play"@,
        "volume_up"@ != "play"@,
        "volume_down"@ != "play"@,
        "mute"@ != "play"@,
        "position_set"@ != "play"@,
        "position_seek"@ != "play"@,
        "loop_none"@ != "play"@,
        "loop_track"@ != "play"@,
        "loop_playlist"@ != "play"@,
        "shuffle_on"@ != "play"@,
        "shuffle_off"@ != "play"@,
        "play_pause"@ != "pause"@,
        "toggle"@ != "pause"@,
        "next"@ != "pause"@,
        "prev"@ != "pause"@,
        "previous"@ != "pause"@,
        "stop"@ != "pause"@,
        "volume_set"@ != "pause"@,
        "volume_up"@ != "pause"@,
        "volume_down"@ != "pause"@,
        "mute"@ != "pause"@,
        "position_set"@ != "pause"@,
        "position_seek"@ != "pause"@,
        "loop_none"@ != "pause"@,
        "loop_track"@ != "pause"@,
        "loop_playlist"@ != "pause"@,
        "shuffle_on"@ != "pause"@,
        "shuffle_off"@ != "pause"@,
        "toggle"@ != "play_pause"@,
        "next"@ != "play_pause"@,
        "prev"@ != "play_pause"@,
        "previous"@ != "play_pause"@,
        "stop"@ != "play_pause"@,
        "volume_set"@ != "play_pause"@,
        "volume_up"@ != "play_pause"@,
        "volume_down"@ != "play_pause"@,
        "mute"@ != "play_pause"@,
        "position_set"@ != "play_pause"@,
        "position_seek"@ != "play_pause"@,
        "loop_none"@ != "play_pause"@,
        "loop_track"@ != "play_pause"@,
        "loop_playlist"@ != "play_pause"@,
        "shuffle_on"@ != "play_pause"@,
        "shuffle_off"@ != "play_pause"@,
        "next"@ != "toggle"@,
        "prev"@ != "toggle"@,
        "previous"@ != "toggle"@,
        "stop"@ != "toggle"@,
        "volume_set"@ != "toggle"@,
        "volume_up"@ != "toggle"@,
        "volume_down"@ != "toggle"@,
        "mute"@ != "toggle"@,
        "position_set"@ != "toggle"@,
        "position_seek"@ != "toggle"@,
        "loop_none"@ != "toggle"@,
        "loop_track"@ != "toggle"@,
        "loop_playlist"@ != "toggle"@,
        "shuffle_on"@ != "toggle"@,
        "shuffle_off"@ != "toggle"@,
        "prev"@ != "next"@,
        "previous"@ != "next"@,
        "stop"@ != "next"@,
        "volume_set"@ != "next"@,
        "volume_up"@ != "next"@,
        "volume_down"@ != "next"@,
        "mute"@ != "next"@,
        "position_set"@ != "next"@,
        "position_seek"@ != "next"@,
        "loop_none"@ != "next"@,
        "loop_track"@ != "next"@,
        "loop_playlist"@ != "next"@,
        "shuffle_on"@ != "next"@,
        "shuffle_off"@ != "next"@,
        "previous"@ != "prev"@,
        "stop"@ != "prev"@,
        "volume_set"@ != "prev"@,
        "volume_up"@ != "prev"@,
        "volume_down"@ != "prev"@,
        "mute"@ != "prev"@,
        "position_set"@ != "prev"@,
        "position_seek"@ != "prev"@,
        "loop_none"@ != "prev"@,
        "loop_track"@ != "prev"@,
        "loop_playlist"@ != "prev"@,
        "shuffle_on"@ != "prev"@,
        "shuffle_off"@ != "prev"@,
        "stop"@ != "previous"@,
        "volume_set"@ != "previous"@,
        "volume_up"@ != "previous"@,
        "volume_down"@ != "previous"@,
        "mute"@ != "previous"@,
        "position_set"@ != "previous"@,
        "position_seek"@ != "previous"@,
        "loop_none"@ != "previous"@,
        "loop_track"@ != "previous"@,
        "loop_playlist"@ != "previous"@,
        "shuffle_on"@ != "previous"@,
        "shuffle_off"@ != "previous"@,
        "volume_set"@ != "stop"@,
        "volume_up"@ != "stop"@,
        "volume_down"@ != "stop"@,
        "mute"@ != "stop"@,
        "position_set"@ != "stop"@,
        "position_seek"@ != "stop"@,
        "loop_none"@ != "stop"@,
        "loop_track"@ != "stop"@,
        "loop_playlist"@ != "stop"@,
        "shuffle_on"@ != "stop"@,
        "shuffle_off"@ != "stop"@,
        "volume_up"@ != "volume_set"@,
        "volume_down"@ != "volume_set"@,
        "mute"@ != "volume_set"@,
        "position_set"@ != "volume_set"@,
        "position_seek"@ != "volume_set"@,
        "loop_none"@ != "volume_set"@,
        "loop_track"@ != "volume_set"@,
        "loop_playlist"@ != "volume_set"@,
        "shuffle_on"@ != "volume_set"@,
        "shuffle_off"@ != "volume_set"@,
        "volume_down"@ != "volume_up"@,
        "mute"@ != "volume_up"@,
        "position_set"@ != "volume_up"@,
        "position_seek"@ != "volume_up"@,
        "loop_none"@ != "volume_up"@,
        "loop_track"@ != "volume_up"@,
        "loop_playlist"@ != "volume_up"@,
        "shuffle_on"@ != "volume_up"@,
        "shuffle_off"@ != "volume_up"@,
        "mute"@ != "volume_down"@,
        "position_set"@ != "volume_down"@,
        "position_seek"@ != "volume_down"@,
        "loop_none"@ != "volume_down"@,
        "loop_track"@ != "volume_down"@,
        "loop_playlist"@ != "volume_down"@,
        "shuffle_on"@ != "volume_down"@,
        "shuffle_off"@ != "volume_down"@,
        "position_set"@ != "mute"@,
        "position_seek"@ != "mute"@,
        "loop_none"@ != "mute"@,
        "loop_track"@ != "mute"@,
        "loop_playlist"@ != "mute"@,
        "shuffle_on"@ != "mute"@,
        "shuffle_off"@ != "mute"@,
        "position_seek"@ != "position_set"@,
        "loop_none"@ != "position_set"@,
        "loop_track"@ != "position_set"@,
        "loop_playlist"@ != "position_set"@,
        "shuffle_on"@ != "position_set"@,
        "shuffle_off"@ != "position_set"@,
        "loop_none"@ != "position_seek"@,
        "loop_track"@ != "position_seek"@,
        "loop_playlist"@ != "position_seek"@,
        "shuffle_on"@ != "position_seek"@,
        "shuffle_off"@ != "position_seek"@,
        "loop_track"@ != "loop_none"@,
        "loop_playlist"@ != "loop_none"@,
        "shuffle_on"@ != "loop_none"@,
        "shuffle_off"@ != "loop_none"@,
        "loop_playlist"@ != "loop_track"@,
        "shuffle_on"@ != "loop_track"@,
        "shuffle_off"@ != "loop_track"@,
        "shuffle_on"@ != "loop_playlist"@,
        "shuffle_off"@ != "loop_playlist"@,
        "shuffle_off"@ != "shuffle_on"@,
{
    reveal_strlit("play");
    reveal_strlit("pause");
    reveal_strlit("play_pause");
    reveal_strlit("toggle");
    reveal_strlit("next");
    reveal_strlit("prev");
    reveal_strlit("previous");
    reveal_strlit("stop");
    reveal_strlit("volume_set");
    reveal_strlit("volume_up");
    reveal_strlit("volume_down");
    reveal_strlit("mute");
    reveal_strlit("position_set");
    reveal_strlit("position_seek");
    reveal_strlit("loop_none");
    reveal_strlit("loop_track");
    reveal_strlit("loop_playlist");
    reveal_strlit("shuffle_on");
    reveal_strlit("shuffle_off");
    assert("play"@.len() == 4);
    assert("pause"@.len() == 5);
    assert("play_pause"@.len() == 10);
    assert("toggle"@.len() == 6);
    assert("next"@.len() == 4);
    assert("prev"@.len() == 4);
    assert("previous"@.len() == 8);
    assert("stop"@.len() == 4);
    assert("volume_set"@.len() == 10);
    assert("volume_up"@.len() == 9);
    assert("volume_down"@.len() == 11);
    assert("mute"@.len() == 4);
    assert("position_set"@.len() == 12);
    assert("position_seek"@.len() == 13);
    assert("loop_none"@.len() == 9);
    assert("loop_track"@.len() == 10);
    assert("loop_playlist"@.len() == 13);
    assert("shuffle_on"@.len() == 10);
    assert("shuffle_off"@.len() == 11);
    assert("play"@[0] != "next"@[0]);
    assert("play"@[1] != "prev"@[1]);
    assert("play"@[0] != "stop"@[0]);
    assert("play"@[0] != "mute"@[0]);
    assert("play_pause"@[0] != "volume_set"@[0]);
    assert("play_pause"@[0] != "loop_track"@[0]);
    assert("play_pause"@[0] != "shuffle_on"@[0]);
    assert("next"@[0] != "prev"@[0]);
    assert("next"@[0] != "stop"@[0]);
    assert("next"@[0] != "mute"@[0]);
    assert("prev"@[0] != "stop"@[0]);
    assert("prev"@[0] != "mute"@[0]);
    assert("stop"@[0] != "mute"@[0]);
    assert("volume_set"@[0] != "loop_track"@[0]);
    assert("volume_set"@[0] != "shuffle_on"@[0]);
    assert("volume_up"@[0] != "loop_none"@[0]);
    assert("volume_down"@[0] != "shuffle_off"@[0]);
    assert("position_seek"@[0] != "loop_playlist"@[0]);
    assert("loop_track"@[0] != "shuffle_on"@[0]);
}

/// The transport actions each run one `playerctl` command word, whatever
/// the value: play, pause, play-pause (also for `toggle`), next, previous
/// (also for `prev`) and stop.
pub proof fn lemma_transport_actions(v: Option<NumericView>)
    ensures
        spec_command_args("play"@, v) == Ok::<Seq<Seq<char>>, CommandFailure>(seq!["play"@]),
        spec_command_args("pause"@, v) == Ok::<Seq<Seq<char>>, CommandFailure>(seq!["pause"@]),
        spec_command_args("play_pause"@, v) == Ok::<Seq<Seq<char>>, CommandFailure>(seq!["play-pause"@]),
        spec_command_args("toggle"@, v) == Ok::<Seq<Seq<char>>, CommandFailure>(seq!["play-pause"@]),
        spec_command_args("next"@, v) == Ok::<Seq<Seq<char>>, CommandFailure>(seq!["next"@]),
        spec_command_args("prev"@, v) == Ok::<Seq<Seq<char>>, CommandFailure>(seq!["previous"@]),
        spec_command_args("previous"@, v) == Ok::<Seq<Seq<char>>, CommandFailure>(seq!["previous"@]),
        spec_command_args("stop"@, v) == Ok::<Seq<Seq<char>>, CommandFailure>(seq!["stop"@]),
{
    lemma_action_names_distinct();
}

/// `volume_set` and `position_set` are absolute: they pass the value's text
/// unchanged, with no sign added, and need a value.
pub proof fn lemma_absolute_actions(n: NumericView)
    ensures
        spec_command_args("volume_set"@, Some(n)) == Ok::<Seq<Seq<char>>, CommandFailure>(seq!["volume"@, n.text]),
        spec_command_args("position_set"@, Some(n)) == Ok::<Seq<Seq<char>>, CommandFailure>(seq!["position"@, n.text]),
        spec_command_args("volume_set"@, None) == Err::<Seq<Seq<char>>, CommandFailure>(CommandFailure::MissingNumericValue("volume_set"@)),
        spec_command_args("position_set"@, None) == Err::<Seq<Seq<char>>, CommandFailure>(CommandFailure::MissingNumericValue("position_set"@)),
{
    lemma_action_names_distinct();
}

/// `volume_up` and `volume_down` are relative: `+` or `-` before the value's
/// text, or a step of 0.05 without a value; `mute` sets the volume to 0.
pub proof fn lemma_volume_steps(v: Option<NumericView>, n: NumericView)
    ensures
        spec_command_args("volume_up"@, Some(n)) == Ok::<Seq<Seq<char>>, CommandFailure>(seq!["volume"@, "+"@ + n.text]),
        spec_command_args("volume_down"@, Some(n)) == Ok::<Seq<Seq<char>>, CommandFailure>(seq!["volume"@, "-"@ + n.text]),
        spec_command_args("volume_up"@, None) == Ok::<Seq<Seq<char>>, CommandFailure>(seq!["volume"@, "+0.05"@]),
        spec_command_args("volume_down"@, None) == Ok::<Seq<Seq<char>>, CommandFailure>(seq!["volume"@, "-0.05"@]),
        spec_command_args("mute"@, v) == Ok::<Seq<Seq<char>>, CommandFailure>(seq!["volume"@, "0"@]),
{
    lemma_action_names_distinct();
}

/// `position_seek` is relative: a value at least zero gets a `+`, a negative
/// one keeps its own `-`; it needs a value.
pub proof fn lemma_position_seek(n: NumericView)
    ensures
        n.non_negative ==> spec_command_args("position_seek"@, Some(n)) == Ok::<Seq<Seq<char>>, CommandFailure>(seq!["position"@, "+"@ + n.text]),
        !n.non_negative ==> spec_command_args("position_seek"@, Some(n)) == Ok::<Seq<Seq<char>>, CommandFailure>(seq!["position"@, n.text]),
        spec_command_args("position_seek"@, None) == Err::<Seq<Seq<char>>, CommandFailure>(CommandFailure::MissingNumericValue("position_seek"@)),
{
    lemma_action_names_distinct();
}

/// The loop and shuffle actions set playerctl's loop status and shuffle,
/// whatever the value.
pub proof fn lemma_loop_and_shuffle(v: Option<NumericView>)
    ensures
        spec_command_args("loop_none"@, v) == Ok::<Seq<Seq<char>>, CommandFailure>(seq!["loop"@, "None"@]),
        spec_command_args("loop_track"@, v) == Ok::<Seq<Seq<char>>, CommandFailure>(seq!["loop"@, "Track"@]),
        spec_command_args("loop_playlist"@, v) == Ok::<Seq<Seq<char>>, CommandFailure>(seq!["loop"@, "Playlist"@]),
        spec_command_args("shuffle_on"@, v) == Ok::<Seq<Seq<char>>, CommandFailure>(seq!["shuffle"@, "On"@]),
        spec_command_args("shuffle_off"@, v) == Ok::<Seq<Seq<char>>, CommandFailure>(seq!["shuffle"@, "Off"@]),
{
    lemma_action_names_distinct();
}

} // verus!
