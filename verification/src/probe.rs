//! Runtime detection of player capabilities from `playerctl` queries.
use vstd::prelude::*;

use crate::types::{
    new_check, report_status, spec_check, spec_unavailable_capabilities, spec_unavailable_report,
    Capabilities, CapabilityProbeCheck, CapabilityProbeReport, CheckView, ReportView,
};
use crate::text::{
    is_whitespace, lemma_ascii_lower_idempotent, lemma_trim_end_lower, lemma_trim_end_suffix,
    lemma_trim_outer_whitespace, lemma_trim_start_append, lemma_trim_start_lower,
    lemma_trim_start_prefix, strip_pred, trim_end_by, trim_start_by,
    append, ascii_lower, concat, owned, sanitize, spec_sanitize, spec_trim, spec_trim_quotes, str_eq,
    to_ascii_lowercase, trim, trim_quotes,
};

verus! {

/// What a backend answered to a query: its output, or the message of its
/// failure.
pub type Answer = Result<Seq<char>, Seq<char>>;

/// The answers that a backend gives to the probe's queries.
pub type Oracle = spec_fn(ProbeQuery) -> Answer;

/// A capability flag that MPRIS metadata may carry.
#[derive(Debug, Clone, Copy, PartialEq, Eq, Structural)]
pub enum CapField {
    CanPlay,
    CanPause,
    CanGoNext,
    CanGoPrevious,
    CanSeek,
    CanStop,
}

pub open spec fn field_name(f: CapField) -> Seq<char> {
    match f {
        CapField::CanPlay => "canPlay"@,
        CapField::CanPause => "canPause"@,
        CapField::CanGoNext => "canGoNext"@,
        CapField::CanGoPrevious => "canGoPrevious"@,
        CapField::CanSeek => "canSeek"@,
        CapField::CanStop => "canStop"@,
    }
}

/// A query that the probe asks `playerctl`.
#[derive(Debug, Clone, Copy, PartialEq, Eq, Structural)]
pub enum ProbeQuery {
    Status,
    PlayerName,
    CapMpris(CapField),
    CapPlain(CapField),
    Position,
    Length,
    Volume,
    Shuffle,
    Loop,
}

/// The `metadata --format` template of a metadata query.
pub open spec fn query_template(q: ProbeQuery) -> Seq<char> {
    match q {
        ProbeQuery::PlayerName => "{{playerName}}"@,
        ProbeQuery::CapMpris(f) => "{{mpris:"@ + field_name(f) + "}}"@,
        ProbeQuery::CapPlain(f) => "{{"@ + field_name(f) + "}}"@,
        ProbeQuery::Position => "{{position}}"@,
        ProbeQuery::Length => "{{mpris:length}}"@,
        _ => Seq::empty(),
    }
}

/// The arguments (after `--player <selector>`) that `playerctl` gets for `q`.
pub open spec fn query_args(q: ProbeQuery) -> Seq<Seq<char>> {
    match q {
        ProbeQuery::Status => seq!["status"@],
        ProbeQuery::Volume => seq!["volume"@],
        ProbeQuery::Shuffle => seq!["shuffle"@],
        ProbeQuery::Loop => seq!["loop"@],
        _ => seq!["metadata"@, "--format"@, query_template(q)],
    }
}

/// The queries that a backend may be asked: those of the probe, which only
/// read the player's state.
pub open spec fn is_probe_query(args: Seq<Seq<char>>) -> bool {
    exists|q: ProbeQuery| args == query_args(q)
}

pub open spec fn arg_views(args: Seq<&str>) -> Seq<Seq<char>> {
    args.map_values(|a: &str| a@)
}

/// Runs `playerctl --player <player> <args>` and hands back its trimmed
/// standard output, or the message of what went wrong.
///
/// `gives(player, args, a)` is each implementation's own account of which
/// answers it may give to `args` about `player`. By default it says nothing
/// (`true`), as for the real process; an implementation that answers from a
/// table can state that table's entry.
pub trait PlayerctlBackend {
    open spec fn gives(&self, player: Seq<char>, args: Seq<Seq<char>>, a: Answer) -> bool {
        true
    }

    fn output(&self, player: &str, args: &[&str]) -> (res: Result<String, String>)
        requires
            is_probe_query(arg_views(args@)),
        ensures
            self.gives(player@, arg_views(args@), answer_view(res)),
    ;
}

/// What a backend answered to one query, by view.
pub open spec fn answer_view(r: Result<String, String>) -> Answer {
    match r {
        Ok(s) => Ok(s@),
        Err(e) => Err(e@),
    }
}

fn field_str(f: CapField) -> (res: &'static str)
    ensures
        res@ == field_name(f),
{
    match f {
        CapField::CanPlay => "canPlay",
        CapField::CanPause => "canPause",
        CapField::CanGoNext => "canGoNext",
        CapField::CanGoPrevious => "canGoPrevious",
        CapField::CanSeek => "canSeek",
        CapField::CanStop => "canStop",
    }
}

fn template_string(q: ProbeQuery) -> (res: String)
    ensures
        res@ == query_template(q),
{
    match q {
        ProbeQuery::PlayerName => owned("{{playerName}}"),
        ProbeQuery::CapMpris(f) => {
            let mut t = concat("{{mpris:", field_str(f));
            append(&mut t, "}}");
            t
        },
        ProbeQuery::CapPlain(f) => {
            let mut t = concat("{{", field_str(f));
            append(&mut t, "}}");
            t
        },
        ProbeQuery::Position => owned("{{position}}"),
        ProbeQuery::Length => owned("{{mpris:length}}"),
        _ => String::new(),
    }
}

/// Asks `backend` query `q` about `player`.
fn ask<B: PlayerctlBackend>(backend: &B, player: &str, q: ProbeQuery) -> (res: Result<String, String>)
    ensures
        backend.gives(player@, query_args(q), answer_view(res)),
{
    match q {
        ProbeQuery::Status => {
            let args: [&str; 1] = ["status"];
            assert(arg_views(args@) =~= query_args(q));
            backend.output(player, &args)
        },
        ProbeQuery::Volume => {
            let args: [&str; 1] = ["volume"];
            assert(arg_views(args@) =~= query_args(q));
            backend.output(player, &args)
        },
        ProbeQuery::Shuffle => {
            let args: [&str; 1] = ["shuffle"];
            assert(arg_views(args@) =~= query_args(q));
            backend.output(player, &args)
        },
        ProbeQuery::Loop => {
            let args: [&str; 1] = ["loop"];
            assert(arg_views(args@) =~= query_args(q));
            backend.output(player, &args)
        },
        _ => {
            let t = template_string(q);
            let args: [&str; 3] = ["metadata", "--format", t.as_str()];
            assert(arg_views(args@) =~= query_args(q));
            backend.output(player, &args)
        },
    }
}

// ---------------------------------------------------------------------------
// Reading one answer
// ---------------------------------------------------------------------------

/// A template's output counts as missing when it is empty or when playerctl
/// echoed the template back.
pub open spec fn spec_is_missing_template_value(trimmed: Seq<char>, template: Seq<char>) -> bool {
    trimmed.len() == 0 || trimmed == template
}

pub fn is_missing_template_value(trimmed: &str, template: &str) -> (res: bool)
    ensures
        res == spec_is_missing_template_value(trimmed@, template@),
{
    trimmed.unicode_len() == 0 || str_eq(trimmed, template)
}

/// The text that playerctl prints for a boolean, trimmed of whitespace and
/// of double quotes and lowercased (ASCII).
pub open spec fn normalized_bool_text(s: Seq<char>) -> Seq<char> {
    ascii_lower(spec_trim_quotes(spec_trim(s)))
}

/// `true`, `1`, `yes`, `on` read as true; `false`, `0`, `no`, `off` as
/// false (after `normalized_bool_text`); anything else is no boolean.
pub open spec fn spec_parse_playerctl_bool(s: Seq<char>) -> Option<bool> {
    let n = normalized_bool_text(s);
    if n == "true"@ || n == "1"@ || n == "yes"@ || n == "on"@ {
        Some(true)
    } else if n == "false"@ || n == "0"@ || n == "no"@ || n == "off"@ {
        Some(false)
    } else {
        None
    }
}

pub fn parse_playerctl_bool(s: &str) -> (res: Option<bool>)
    ensures
        res == spec_parse_playerctl_bool(s@),
{
    let normalized = to_ascii_lowercase(trim_quotes(trim(s)));
    let n = normalized.as_str();
    if str_eq(n, "true") || str_eq(n, "1") || str_eq(n, "yes") || str_eq(n, "on") {
        Some(true)
    } else if str_eq(n, "false") || str_eq(n, "0") || str_eq(n, "no") || str_eq(n, "off") {
        Some(false)
    } else {
        None
    }
}

/// What a metadata template gave: `Ok(None)` when the value is missing,
/// else the trimmed value; or the backend's error.
pub open spec fn spec_run_template(a: Answer, template: Seq<char>) -> Result<Option<Seq<char>>, Seq<char>> {
    match a {
        Err(e) => Err(e),
        Ok(out) => {
            let t = spec_trim(out);
            if spec_is_missing_template_value(t, template) {
                Ok(None)
            } else {
                Ok(Some(t))
            }
        },
    }
}

pub open spec fn template_result_view(r: Result<Option<String>, String>) -> Result<Option<Seq<char>>, Seq<char>> {
    match r {
        Ok(Some(s)) => Ok(Some(s@)),
        Ok(None) => Ok(None),
        Err(e) => Err(e@),
    }
}

fn run_template(a: &Result<String, String>, q: ProbeQuery) -> (res: Result<Option<String>, String>)
    ensures
        template_result_view(res) == spec_run_template(answer_view(*a), query_template(q)),
{
    match a {
        Err(e) => Err(owned(e.as_str())),
        Ok(out) => {
            let template = template_string(q);
            let trimmed = trim(out.as_str());
            if is_missing_template_value(trimmed, template.as_str()) {
                Ok(None)
            } else {
                Ok(Some(owned(trimmed)))
            }
        },
    }
}

/// One template of a capability query: `Ok((value, reason))` when it gave a
/// boolean, else `Err(reason)`.
pub open spec fn spec_template_bool(a: Answer, t: Seq<char>) -> Result<(bool, Seq<char>), Seq<char>> {
    match spec_run_template(a, t) {
        Ok(Some(out)) => match spec_parse_playerctl_bool(out) {
            Some(b) => Ok((b, t + "="@ + out)),
            None => Err(t + " returned non-bool value '"@ + out + "'"@),
        },
        Ok(None) => Err(t + " unavailable"@),
        Err(e) => Err(t + " error: "@ + spec_sanitize(e)),
    }
}

/// A capability flag from metadata: `{{mpris:<field>}}` first, then
/// `{{<field>}}`; the value of the first that gives a boolean, with source
/// `metadata` and its reason; else no value and the two failure reasons
/// joined by `; `.
pub open spec fn spec_query_cap_bool(o: Oracle, f: CapField) -> (Option<bool>, Seq<char>, Seq<char>) {
    let q1 = ProbeQuery::CapMpris(f);
    let q2 = ProbeQuery::CapPlain(f);
    match spec_template_bool(o(q1), query_template(q1)) {
        Ok((b, r)) => (Some(b), "metadata"@, r),
        Err(r1) => match spec_template_bool(o(q2), query_template(q2)) {
            Ok((b, r)) => (Some(b), "metadata"@, r),
            Err(r2) => (None, "metadata"@, r1 + "; "@ + r2),
        },
    }
}

fn template_bool(a: &Result<String, String>, q: ProbeQuery) -> (res: Result<(bool, String), String>)
    ensures
        match res {
            Ok((b, r)) => spec_template_bool(answer_view(*a), query_template(q)) == Ok::<
                (bool, Seq<char>),
                Seq<char>,
            >((b, r@)),
            Err(r) => spec_template_bool(answer_view(*a), query_template(q)) == Err::<
                (bool, Seq<char>),
                Seq<char>,
            >(r@),
        },
{
    let template = template_string(q);
    match run_template(a, q) {
        Ok(Some(out)) => match parse_playerctl_bool(out.as_str()) {
            Some(b) => {
                let mut reason = concat(template.as_str(), "=");
                append(&mut reason, out.as_str());
                Ok((b, reason))
            },
            None => {
                let mut reason = concat(template.as_str(), " returned non-bool value '");
                append(&mut reason, out.as_str());
                append(&mut reason, "'");
                Err(reason)
            },
        },
        Ok(None) => Err(concat(template.as_str(), " unavailable")),
        Err(e) => {
            let mut reason = concat(template.as_str(), " error: ");
            append(&mut reason, sanitize(e.as_str()).as_str());
            Err(reason)
        },
    }
}

/// The view of what a capability query returns.
pub open spec fn cap_query_view(r: (Option<bool>, String, String)) -> (Option<bool>, Seq<char>, Seq<char>) {
    (r.0, r.1@, r.2@)
}

// ---------------------------------------------------------------------------
// The probe's state: the answers received so far
// ---------------------------------------------------------------------------

/// The answers that the probe has received, in the order of its queries.
pub struct ProbeState {
    pub answers: Vec<(ProbeQuery, Result<String, String>)>,
}

pub open spec fn entry_view(e: (ProbeQuery, Result<String, String>)) -> (ProbeQuery, Answer) {
    (e.0, answer_view(e.1))
}

impl View for ProbeState {
    type V = Seq<(ProbeQuery, Answer)>;

    open spec fn view(&self) -> Seq<(ProbeQuery, Answer)> {
        self.answers@.map_values(|e: (ProbeQuery, Result<String, String>)| entry_view(e))
    }
}

/// The answer recorded last for `q`, if `q` was asked.
pub open spec fn spec_lookup(t: Seq<(ProbeQuery, Answer)>, q: ProbeQuery) -> Option<Answer>
    decreases t.len(),
{
    if t.len() == 0 {
        None
    } else if t.last().0 == q {
        Some(t.last().1)
    } else {
        spec_lookup(t.drop_last(), q)
    }
}

pub open spec fn asked(t: Seq<(ProbeQuery, Answer)>, q: ProbeQuery) -> bool {
    spec_lookup(t, q) is Some
}

/// The recorded answers as an oracle; a query that was not asked reads as an
/// empty error.
pub open spec fn spec_oracle(t: Seq<(ProbeQuery, Answer)>) -> Oracle {
    |q: ProbeQuery|
        match spec_lookup(t, q) {
            Some(a) => a,
            None => Err(Seq::<char>::empty()),
        }
}

pub proof fn lemma_lookup_push(t: Seq<(ProbeQuery, Answer)>, e: (ProbeQuery, Answer), x: ProbeQuery)
    ensures
        spec_lookup(t.push(e), x) == if e.0 == x {
            Some(e.1)
        } else {
            spec_lookup(t, x)
        },
{
    assert(t.push(e).drop_last() =~= t);
    assert(t.push(e).last() == e);
}

fn lookup(s: &ProbeState, q: ProbeQuery) -> (res: Option<usize>)
    ensures
        match res {
            Some(i) => i < s@.len() && spec_lookup(s@, q) == Some(s@[i as int].1),
            None => spec_lookup(s@, q) is None,
        },
{
    let ghost t = s@;
    let mut i = s.answers.len();
    assert(t.take(i as int) =~= t);
    while i > 0
        invariant
            i <= t.len(),
            t == s@,
            t.len() == s.answers@.len(),
            spec_lookup(t, q) == spec_lookup(t.take(i as int), q),
        decreases i,
    {
        assert(t.take(i as int).last() == t[i - 1]);
        assert(t.take(i as int).drop_last() =~= t.take(i - 1));
        if s.answers[i - 1].0 == q {
            return Some(i - 1);
        }
        i = i - 1;
    }
    None
}

fn copy_answer(a: &Result<String, String>) -> (res: Result<String, String>)
    ensures
        answer_view(res) == answer_view(*a),
{
    match a {
        Ok(v) => Ok(owned(v.as_str())),
        Err(e) => Err(owned(e.as_str())),
    }
}

fn is_asked(s: &ProbeState, q: ProbeQuery) -> (res: bool)
    ensures
        res == asked(s@, q),
{
    lookup(s, q).is_some()
}

fn answer_of(s: &ProbeState, q: ProbeQuery) -> (res: Result<String, String>)
    ensures
        answer_view(res) == spec_oracle(s@)(q),
{
    match lookup(s, q) {
        Some(i) => copy_answer(&s.answers[i].1),
        None => Err(String::new()),
    }
}

fn query_cap_bool(s: &ProbeState, f: CapField) -> (res: (Option<bool>, String, String))
    ensures
        cap_query_view(res) == spec_query_cap_bool(spec_oracle(s@), f),
{
    let first = template_bool(&answer_of(s, ProbeQuery::CapMpris(f)), ProbeQuery::CapMpris(f));
    match first {
        Ok((b, r)) => (Some(b), owned("metadata"), r),
        Err(r1) => {
            let second = template_bool(&answer_of(s, ProbeQuery::CapPlain(f)), ProbeQuery::CapPlain(f));
            match second {
                Ok((b, r)) => (Some(b), owned("metadata"), r),
                Err(r2) => {
                    let mut reason = concat(r1.as_str(), "; ");
                    append(&mut reason, r2.as_str());
                    (None, owned("metadata"), reason)
                },
            }
        },
    }
}

// ---------------------------------------------------------------------------
// One check per capability
// ---------------------------------------------------------------------------

/// Whether a metadata template has a value, and why.
pub open spec fn spec_probe_has_value(a: Answer, t: Seq<char>) -> (bool, Seq<char>) {
    match spec_run_template(a, t) {
        Ok(Some(v)) => (true, t + "="@ + v),
        Ok(None) => (false, t + " unavailable"@),
        Err(e) => (false, t + " error: "@ + spec_sanitize(e)),
    }
}

fn probe_has_value(a: &Result<String, String>, q: ProbeQuery) -> (res: (bool, String))
    ensures
        (res.0, res.1@) == spec_probe_has_value(answer_view(*a), query_template(q)),
{
    let template = template_string(q);
    match run_template(a, q) {
        Ok(Some(value)) => {
            let mut reason = concat(template.as_str(), "=");
            append(&mut reason, value.as_str());
            (true, reason)
        },
        Ok(None) => (false, concat(template.as_str(), " unavailable")),
        Err(e) => {
            let mut reason = concat(template.as_str(), " error: ");
            append(&mut reason, sanitize(e.as_str()).as_str());
            (false, reason)
        },
    }
}

/// A flag that falls back to `true` (the player answered `status`) when
/// metadata does not say.
pub open spec fn flag_value(q: (Option<bool>, Seq<char>, Seq<char>)) -> bool {
    match q.0 {
        Some(b) => b,
        None => true,
    }
}

pub open spec fn spec_flag_check(capability: Seq<char>, q: (Option<bool>, Seq<char>, Seq<char>)) -> CheckView {
    match q.0 {
        Some(b) => spec_check(capability, b, q.1, q.2),
        None => spec_check(capability, true, "fallback"@, "fallback to can_control=true; "@ + q.2),
    }
}

fn flag_check(capability: &str, q: (Option<bool>, String, String)) -> (res: (bool, CapabilityProbeCheck))
    ensures
        res.0 == flag_value(cap_query_view(q)),
        res.1@ == spec_flag_check(capability@, cap_query_view(q)),
{
    let (raw, source, reason) = q;
    match raw {
        Some(b) => (b, new_check(capability, b, source.as_str(), reason)),
        None => {
            let reason = concat("fallback to can_control=true; ", reason.as_str());
            (true, new_check(capability, true, "fallback", reason))
        },
    }
}

/// `can_seek`: the metadata flag if there is one; else whether either
/// `{{position}}` or `{{mpris:length}}` has a value.
pub open spec fn spec_seek(o: Oracle) -> (bool, CheckView) {
    let q = spec_query_cap_bool(o, CapField::CanSeek);
    match q.0 {
        Some(b) => (b, spec_check("can_seek"@, b, q.1, q.2)),
        None => {
            let pos = spec_probe_has_value(o(ProbeQuery::Position), query_template(ProbeQuery::Position));
            let len = spec_probe_has_value(o(ProbeQuery::Length), query_template(ProbeQuery::Length));
            let fallback = pos.0 || len.0;
            (
                fallback,
                spec_check(
                    "can_seek"@,
                    fallback,
                    "probe"@,
                    "fallback by metadata value probe; "@ + q.2 + "; "@ + pos.1 + "; "@ + len.1,
                ),
            )
        },
    }
}

fn seek_capability(s: &ProbeState) -> (res: (bool, CapabilityProbeCheck))
    ensures
        (res.0, res.1@) == spec_seek(spec_oracle(s@)),
{
    let (raw, source, reason) = query_cap_bool(s, CapField::CanSeek);
    match raw {
        Some(b) => (b, new_check("can_seek", b, source.as_str(), reason)),
        None => {
            let (has_position, position_reason) = probe_has_value(
                &answer_of(s, ProbeQuery::Position),
                ProbeQuery::Position,
            );
            let (has_length, length_reason) = probe_has_value(
                &answer_of(s, ProbeQuery::Length),
                ProbeQuery::Length,
            );
            let fallback = has_position || has_length;
            let mut text = concat("fallback by metadata value probe; ", reason.as_str());
            append(&mut text, "; ");
            append(&mut text, position_reason.as_str());
            append(&mut text, "; ");
            append(&mut text, length_reason.as_str());
            (fallback, new_check("can_seek", fallback, "probe", text))
        },
    }
}

/// A capability that holds when its plain `playerctl` query succeeds.
pub open spec fn spec_query_check(
    capability: Seq<char>,
    a: Answer,
    succeeded: Seq<char>,
    failed: Seq<char>,
) -> CheckView {
    spec_check(capability, a is Ok, "query"@, if a is Ok { succeeded } else { failed })
}

fn query_capability(
    s: &ProbeState,
    q: ProbeQuery,
    capability: &str,
    succeeded: &str,
    failed: &str,
) -> (res: (bool, CapabilityProbeCheck))
    ensures
        res.0 == spec_oracle(s@)(q) is Ok,
        res.1@ == spec_query_check(capability@, spec_oracle(s@)(q), succeeded@, failed@),
{
    let ok = answer_of(s, q).is_ok();
    let reason = if ok {
        owned(succeeded)
    } else {
        owned(failed)
    };
    (ok, new_check(capability, ok, "query", reason))
}

/// Whether a `status` answer says that the player is stopped.
pub open spec fn is_stopped(status: Seq<char>) -> bool {
    ascii_lower(spec_trim(status)) == "stopped"@
}

/// `can_stop`: the metadata flag if there is one; else, without ever sending
/// `stop`, true when the player can play or pause or is not stopped.
pub open spec fn spec_stop(o: Oracle, can_play: bool, can_pause: bool, status: Seq<char>) -> (
    bool,
    CheckView,
) {
    let q = spec_query_cap_bool(o, CapField::CanStop);
    match q.0 {
        Some(b) => (b, spec_check("can_stop"@, b, q.1, q.2)),
        None => {
            let fallback = can_pause || can_play || !is_stopped(status);
            (
                fallback,
                spec_check(
                    "can_stop"@,
                    fallback,
                    "fallback"@,
                    "non-destructive fallback using can_play/can_pause/status; status="@
                        + spec_trim(status) + "; "@ + q.2,
                ),
            )
        },
    }
}

fn stop_capability(s: &ProbeState, can_play: bool, can_pause: bool, status: &str) -> (res: (
    bool,
    CapabilityProbeCheck,
))
    ensures
        (res.0, res.1@) == spec_stop(spec_oracle(s@), can_play, can_pause, status@),
{
    let (raw, source, reason) = query_cap_bool(s, CapField::CanStop);
    match raw {
        Some(b) => (b, new_check("can_stop", b, source.as_str(), reason)),
        None => {
            let trimmed = trim(status);
            let stopped = str_eq(to_ascii_lowercase(trimmed).as_str(), "stopped");
            let fallback = can_pause || can_play || !stopped;
            let mut text = concat(
                "non-destructive fallback using can_play/can_pause/status; status=",
                trimmed,
            );
            append(&mut text, "; ");
            append(&mut text, reason.as_str());
            (fallback, new_check("can_stop", fallback, "fallback", text))
        },
    }
}

// ---------------------------------------------------------------------------
// The whole probe
// ---------------------------------------------------------------------------

/// The name of the player that answered, from `{{playerName}}`.
pub open spec fn spec_resolved_player(a: Answer) -> Option<Seq<char>> {
    match spec_run_template(a, query_template(ProbeQuery::PlayerName)) {
        Ok(Some(name)) => Some(spec_sanitize(spec_trim(name))),
        _ => None,
    }
}

/// The probe of a player that answered `status` with `status`.
pub open spec fn spec_detect_reachable(player: Seq<char>, o: Oracle, status: Seq<char>) -> (
    Capabilities,
    ReportView,
) {
    let play = spec_query_cap_bool(o, CapField::CanPlay);
    let pause = spec_query_cap_bool(o, CapField::CanPause);
    let next = spec_query_cap_bool(o, CapField::CanGoNext);
    let previous = spec_query_cap_bool(o, CapField::CanGoPrevious);
    let seek = spec_seek(o);
    let stop = spec_stop(o, flag_value(play), flag_value(pause), status);
    let capabilities = Capabilities {
        can_play: flag_value(play),
        can_pause: flag_value(pause),
        can_stop: stop.0,
        can_next: flag_value(next),
        can_previous: flag_value(previous),
        can_seek: seek.0,
        can_set_volume: o(ProbeQuery::Volume) is Ok,
        can_shuffle: o(ProbeQuery::Shuffle) is Ok,
        can_loop: o(ProbeQuery::Loop) is Ok,
    };
    let checks = seq![
        spec_check("can_control"@, true, "status"@, "status="@ + spec_trim(status)),
        spec_flag_check("can_play"@, play),
        spec_flag_check("can_pause"@, pause),
        spec_flag_check("can_next"@, next),
        spec_flag_check("can_previous"@, previous),
        seek.1,
        spec_query_check(
            "can_set_volume"@,
            o(ProbeQuery::Volume),
            "playerctl volume succeeded"@,
            "playerctl volume failed"@,
        ),
        spec_query_check(
            "can_shuffle"@,
            o(ProbeQuery::Shuffle),
            "playerctl shuffle succeeded"@,
            "playerctl shuffle failed"@,
        ),
        spec_query_check(
            "can_loop"@,
            o(ProbeQuery::Loop),
            "playerctl loop succeeded"@,
            "playerctl loop failed"@,
        ),
        stop.1,
    ];
    (
        capabilities,
        ReportView {
            status: report_status(),
            player_selector: player,
            resolved_player: spec_resolved_player(o(ProbeQuery::PlayerName)),
            fallback: false,
            checks,
            capabilities,
        },
    )
}

/// The capabilities and the report that the probe of `player` gives when the
/// backend answers each query `q` with `o(q)`.
pub open spec fn spec_detect(player: Seq<char>, o: Oracle) -> (Capabilities, ReportView) {
    match o(ProbeQuery::Status) {
        Err(e) => (
            spec_unavailable_capabilities(),
            spec_unavailable_report(player, "status query failed: "@ + spec_sanitize(e)),
        ),
        Ok(status) => spec_detect_reachable(player, o, status),
    }
}

// ---------------------------------------------------------------------------
// The probe as a sequence of queries
// ---------------------------------------------------------------------------

pub open spec fn or_next(a: Option<ProbeQuery>, b: Option<ProbeQuery>) -> Option<ProbeQuery> {
    if a is Some {
        a
    } else {
        b
    }
}

/// `q`, unless it was asked already.
pub open spec fn ask_once(t: Seq<(ProbeQuery, Answer)>, q: ProbeQuery) -> Option<ProbeQuery> {
    if asked(t, q) {
        None
    } else {
        Some(q)
    }
}

/// The next query about a capability flag: `{{mpris:<field>}}`, then
/// `{{<field>}}` unless the first gave a boolean.
pub open spec fn spec_cap_next(t: Seq<(ProbeQuery, Answer)>, f: CapField) -> Option<ProbeQuery> {
    let q1 = ProbeQuery::CapMpris(f);
    if !asked(t, q1) {
        Some(q1)
    } else if spec_template_bool(spec_oracle(t)(q1), query_template(q1)) is Ok {
        None
    } else {
        ask_once(t, ProbeQuery::CapPlain(f))
    }
}

/// The next query for `can_seek`: its flag, then, when the flag gives no
/// boolean, the position and the length.
pub open spec fn spec_seek_next(t: Seq<(ProbeQuery, Answer)>) -> Option<ProbeQuery> {
    let c = spec_cap_next(t, CapField::CanSeek);
    if c is Some {
        c
    } else if spec_query_cap_bool(spec_oracle(t), CapField::CanSeek).0 is Some {
        None
    } else {
        or_next(ask_once(t, ProbeQuery::Position), ask_once(t, ProbeQuery::Length))
    }
}

/// The query that the probe asks next, given the answers `t` so far; `None`
/// when the probe is done. `status` comes first, and when it fails nothing
/// else is asked; then the player's name, the flags for play, pause, next,
/// previous and seek, the volume, shuffle and loop queries, and the stop
/// flag.
pub open spec fn spec_probe_next(t: Seq<(ProbeQuery, Answer)>) -> Option<ProbeQuery> {
    if !asked(t, ProbeQuery::Status) {
        Some(ProbeQuery::Status)
    } else if spec_oracle(t)(ProbeQuery::Status) is Err {
        None
    } else {
        or_next(
            ask_once(t, ProbeQuery::PlayerName),
            or_next(
                spec_cap_next(t, CapField::CanPlay),
                or_next(
                    spec_cap_next(t, CapField::CanPause),
                    or_next(
                        spec_cap_next(t, CapField::CanGoNext),
                        or_next(
                            spec_cap_next(t, CapField::CanGoPrevious),
                            or_next(
                                spec_seek_next(t),
                                or_next(
                                    ask_once(t, ProbeQuery::Volume),
                                    or_next(
                                        ask_once(t, ProbeQuery::Shuffle),
                                        or_next(
                                            ask_once(t, ProbeQuery::Loop),
                                            spec_cap_next(t, CapField::CanStop),
                                        ),
                                    ),
                                ),
                            ),
                        ),
                    ),
                ),
            ),
        )
    }
}

fn next_once(s: &ProbeState, q: ProbeQuery) -> (res: Option<ProbeQuery>)
    ensures
        res == ask_once(s@, q),
{
    if is_asked(s, q) {
        None
    } else {
        Some(q)
    }
}

fn cap_next(s: &ProbeState, f: CapField) -> (res: Option<ProbeQuery>)
    ensures
        res == spec_cap_next(s@, f),
{
    let q1 = ProbeQuery::CapMpris(f);
    if !is_asked(s, q1) {
        Some(q1)
    } else if template_bool(&answer_of(s, q1), q1).is_ok() {
        None
    } else {
        next_once(s, ProbeQuery::CapPlain(f))
    }
}

fn seek_next(s: &ProbeState) -> (res: Option<ProbeQuery>)
    ensures
        res == spec_seek_next(s@),
{
    let c = cap_next(s, CapField::CanSeek);
    if c.is_some() {
        c
    } else if query_cap_bool(s, CapField::CanSeek).0.is_some() {
        None
    } else {
        let p = next_once(s, ProbeQuery::Position);
        if p.is_some() {
            p
        } else {
            next_once(s, ProbeQuery::Length)
        }
    }
}

impl ProbeState {
    /// A probe that has received no answer yet.
    pub fn new() -> (res: Self)
        ensures
            res@ == Seq::<(ProbeQuery, Answer)>::empty(),
    {
        let res = ProbeState { answers: Vec::new() };
        assert(res@ =~= Seq::<(ProbeQuery, Answer)>::empty());
        res
    }
}

/// The query to ask next, or `None` when the probe is done.
pub fn probe_next(s: &ProbeState) -> (res: Option<ProbeQuery>)
    ensures
        res == spec_probe_next(s@),
{
    if !is_asked(s, ProbeQuery::Status) {
        return Some(ProbeQuery::Status);
    }
    if answer_of(s, ProbeQuery::Status).is_err() {
        return None;
    }
    let n = next_once(s, ProbeQuery::PlayerName);
    if n.is_some() {
        return n;
    }
    let n = cap_next(s, CapField::CanPlay);
    if n.is_some() {
        return n;
    }
    let n = cap_next(s, CapField::CanPause);
    if n.is_some() {
        return n;
    }
    let n = cap_next(s, CapField::CanGoNext);
    if n.is_some() {
        return n;
    }
    let n = cap_next(s, CapField::CanGoPrevious);
    if n.is_some() {
        return n;
    }
    let n = seek_next(s);
    if n.is_some() {
        return n;
    }
    let n = next_once(s, ProbeQuery::Volume);
    if n.is_some() {
        return n;
    }
    let n = next_once(s, ProbeQuery::Shuffle);
    if n.is_some() {
        return n;
    }
    let n = next_once(s, ProbeQuery::Loop);
    if n.is_some() {
        return n;
    }
    cap_next(s, CapField::CanStop)
}

/// Records the answer `a` to query `q`.
pub fn probe_feed(s: &mut ProbeState, q: ProbeQuery, a: Result<String, String>)
    ensures
        final(s)@ == old(s)@.push((q, answer_view(a))),
{
    let ghost a_view = answer_view(a);
    s.answers.push((q, a));
    assert(s@ =~= old(s)@.push((q, a_view)));
}

/// The capabilities and the report for the answers recorded in `s`, about
/// the player selected by `player`.
pub fn probe_result(s: &ProbeState, player: &str) -> (res: (Capabilities, CapabilityProbeReport))
    ensures
        (res.0, res.1@) == spec_detect(player@, spec_oracle(s@)),
        res.1.capabilities == res.0,
{
    let ghost o = spec_oracle(s@);
    let status = answer_of(s, ProbeQuery::Status);
    let status_value = match status {
        Ok(value) => value,
        Err(err) => {
            let reason = concat("status query failed: ", sanitize(err.as_str()).as_str());
            let report = CapabilityProbeReport::unavailable(player, reason.as_str());
            let caps = Capabilities::unavailable();
            return (caps, report);
        },
    };

    let resolved_player = match run_template(
        &answer_of(s, ProbeQuery::PlayerName),
        ProbeQuery::PlayerName,
    ) {
        Ok(Some(name)) => Some(sanitize(trim(name.as_str()))),
        _ => None,
    };

    let mut checks: Vec<CapabilityProbeCheck> = Vec::new();
    let control_reason = concat("status=", trim(status_value.as_str()));
    checks.push(new_check("can_control", true, "status", control_reason));

    let play_q = query_cap_bool(s, CapField::CanPlay);
    let (can_play, play_check) = flag_check("can_play", play_q);
    checks.push(play_check);

    let pause_q = query_cap_bool(s, CapField::CanPause);
    let (can_pause, pause_check) = flag_check("can_pause", pause_q);
    checks.push(pause_check);

    let next_q = query_cap_bool(s, CapField::CanGoNext);
    let (can_next, next_check) = flag_check("can_next", next_q);
    checks.push(next_check);

    let previous_q = query_cap_bool(s, CapField::CanGoPrevious);
    let (can_previous, previous_check) = flag_check("can_previous", previous_q);
    checks.push(previous_check);

    let (can_seek, seek_check) = seek_capability(s);
    checks.push(seek_check);

    let (can_set_volume, volume_check) = query_capability(
        s,
        ProbeQuery::Volume,
        "can_set_volume",
        "playerctl volume succeeded",
        "playerctl volume failed",
    );
    checks.push(volume_check);

    let (can_shuffle, shuffle_check) = query_capability(
        s,
        ProbeQuery::Shuffle,
        "can_shuffle",
        "playerctl shuffle succeeded",
        "playerctl shuffle failed",
    );
    checks.push(shuffle_check);

    let (can_loop, loop_check) = query_capability(
        s,
        ProbeQuery::Loop,
        "can_loop",
        "playerctl loop succeeded",
        "playerctl loop failed",
    );
    checks.push(loop_check);

    let (can_stop, stop_check) = stop_capability(s, can_play, can_pause, status_value.as_str());
    checks.push(stop_check);

    let capabilities = Capabilities {
        can_play,
        can_pause,
        can_stop,
        can_next,
        can_previous,
        can_seek,
        can_set_volume,
        can_shuffle,
        can_loop,
    };
    let report = CapabilityProbeReport {
        status: owned("capabilities-probe"),
        player_selector: owned(player),
        resolved_player,
        fallback: false,
        checks,
        capabilities,
    };
    assert(crate::types::check_views(report.checks@) =~= spec_detect(player@, o).1.checks);
    (capabilities, report)
}

/// `t` is a run of the probe: each answer is to the query that the probe
/// asks after the answers before it.
pub open spec fn is_probe_run(t: Seq<(ProbeQuery, Answer)>) -> bool {
    forall|i: int| 0 <= i < t.len() ==> spec_probe_next(#[trigger] t.take(i)) == Some(t[i].0)
}

/// A whole run of the probe: after it, the probe asks nothing more.
pub open spec fn is_complete_run(t: Seq<(ProbeQuery, Answer)>) -> bool {
    is_probe_run(t) && spec_probe_next(t) is None
}

pub open spec fn unasked(t: Seq<(ProbeQuery, Answer)>, q: ProbeQuery) -> nat {
    if asked(t, q) {
        0
    } else {
        1
    }
}

/// How many of the probe's queries are not asked yet.
pub open spec fn remaining(t: Seq<(ProbeQuery, Answer)>) -> nat {
    unasked(t, ProbeQuery::Status) + unasked(t, ProbeQuery::PlayerName) + unasked(
        t,
        ProbeQuery::CapMpris(CapField::CanPlay),
    ) + unasked(t, ProbeQuery::CapMpris(CapField::CanPause)) + unasked(
        t,
        ProbeQuery::CapMpris(CapField::CanGoNext),
    ) + unasked(t, ProbeQuery::CapMpris(CapField::CanGoPrevious)) + unasked(
        t,
        ProbeQuery::CapMpris(CapField::CanSeek),
    ) + unasked(t, ProbeQuery::CapMpris(CapField::CanStop)) + unasked(
        t,
        ProbeQuery::CapPlain(CapField::CanPlay),
    ) + unasked(t, ProbeQuery::CapPlain(CapField::CanPause)) + unasked(
        t,
        ProbeQuery::CapPlain(CapField::CanGoNext),
    ) + unasked(t, ProbeQuery::CapPlain(CapField::CanGoPrevious)) + unasked(
        t,
        ProbeQuery::CapPlain(CapField::CanSeek),
    ) + unasked(t, ProbeQuery::CapPlain(CapField::CanStop)) + unasked(t, ProbeQuery::Position)
        + unasked(t, ProbeQuery::Length) + unasked(t, ProbeQuery::Volume) + unasked(
        t,
        ProbeQuery::Shuffle,
    ) + unasked(t, ProbeQuery::Loop)
}

/// The probe never asks a query twice.
pub proof fn lemma_next_is_unasked(t: Seq<(ProbeQuery, Answer)>)
    ensures
        spec_probe_next(t) matches Some(q) ==> !asked(t, q),
{
}

pub proof fn lemma_remaining_decreases(t: Seq<(ProbeQuery, Answer)>, e: (ProbeQuery, Answer))
    requires
        !asked(t, e.0),
    ensures
        remaining(t.push(e)) < remaining(t),
{
    lemma_lookup_push(t, e, ProbeQuery::Status);
    lemma_lookup_push(t, e, ProbeQuery::PlayerName);
    lemma_lookup_push(t, e, ProbeQuery::CapMpris(CapField::CanPlay));
    lemma_lookup_push(t, e, ProbeQuery::CapMpris(CapField::CanPause));
    lemma_lookup_push(t, e, ProbeQuery::CapMpris(CapField::CanGoNext));
    lemma_lookup_push(t, e, ProbeQuery::CapMpris(CapField::CanGoPrevious));
    lemma_lookup_push(t, e, ProbeQuery::CapMpris(CapField::CanSeek));
    lemma_lookup_push(t, e, ProbeQuery::CapMpris(CapField::CanStop));
    lemma_lookup_push(t, e, ProbeQuery::CapPlain(CapField::CanPlay));
    lemma_lookup_push(t, e, ProbeQuery::CapPlain(CapField::CanPause));
    lemma_lookup_push(t, e, ProbeQuery::CapPlain(CapField::CanGoNext));
    lemma_lookup_push(t, e, ProbeQuery::CapPlain(CapField::CanGoPrevious));
    lemma_lookup_push(t, e, ProbeQuery::CapPlain(CapField::CanSeek));
    lemma_lookup_push(t, e, ProbeQuery::CapPlain(CapField::CanStop));
    lemma_lookup_push(t, e, ProbeQuery::Position);
    lemma_lookup_push(t, e, ProbeQuery::Length);
    lemma_lookup_push(t, e, ProbeQuery::Volume);
    lemma_lookup_push(t, e, ProbeQuery::Shuffle);
    lemma_lookup_push(t, e, ProbeQuery::Loop);
    let u = t.push(e);
    assert(unasked(u, ProbeQuery::Status) <= unasked(t, ProbeQuery::Status));
    assert(unasked(u, ProbeQuery::PlayerName) <= unasked(t, ProbeQuery::PlayerName));
    assert(unasked(u, ProbeQuery::CapMpris(CapField::CanPlay)) <= unasked(t, ProbeQuery::CapMpris(CapField::CanPlay)));
    assert(unasked(u, ProbeQuery::CapMpris(CapField::CanPause)) <= unasked(t, ProbeQuery::CapMpris(CapField::CanPause)));
    assert(unasked(u, ProbeQuery::CapMpris(CapField::CanGoNext)) <= unasked(t, ProbeQuery::CapMpris(CapField::CanGoNext)));
    assert(unasked(u, ProbeQuery::CapMpris(CapField::CanGoPrevious)) <= unasked(t, ProbeQuery::CapMpris(CapField::CanGoPrevious)));
    assert(unasked(u, ProbeQuery::CapMpris(CapField::CanSeek)) <= unasked(t, ProbeQuery::CapMpris(CapField::CanSeek)));
    assert(unasked(u, ProbeQuery::CapMpris(CapField::CanStop)) <= unasked(t, ProbeQuery::CapMpris(CapField::CanStop)));
    assert(unasked(u, ProbeQuery::CapPlain(CapField::CanPlay)) <= unasked(t, ProbeQuery::CapPlain(CapField::CanPlay)));
    assert(unasked(u, ProbeQuery::CapPlain(CapField::CanPause)) <= unasked(t, ProbeQuery::CapPlain(CapField::CanPause)));
    assert(unasked(u, ProbeQuery::CapPlain(CapField::CanGoNext)) <= unasked(t, ProbeQuery::CapPlain(CapField::CanGoNext)));
    assert(unasked(u, ProbeQuery::CapPlain(CapField::CanGoPrevious)) <= unasked(t, ProbeQuery::CapPlain(CapField::CanGoPrevious)));
    assert(unasked(u, ProbeQuery::CapPlain(CapField::CanSeek)) <= unasked(t, ProbeQuery::CapPlain(CapField::CanSeek)));
    assert(unasked(u, ProbeQuery::CapPlain(CapField::CanStop)) <= unasked(t, ProbeQuery::CapPlain(CapField::CanStop)));
    assert(unasked(u, ProbeQuery::Position) <= unasked(t, ProbeQuery::Position));
    assert(unasked(u, ProbeQuery::Length) <= unasked(t, ProbeQuery::Length));
    assert(unasked(u, ProbeQuery::Volume) <= unasked(t, ProbeQuery::Volume));
    assert(unasked(u, ProbeQuery::Shuffle) <= unasked(t, ProbeQuery::Shuffle));
    assert(unasked(u, ProbeQuery::Loop) <= unasked(t, ProbeQuery::Loop));
    assert(unasked(u, e.0) == 0 && unasked(t, e.0) == 1);
}

pub proof fn lemma_run_extends(t: Seq<(ProbeQuery, Answer)>, e: (ProbeQuery, Answer))
    requires
        is_probe_run(t),
        spec_probe_next(t) == Some(e.0),
    ensures
        is_probe_run(t.push(e)),
{
    let u = t.push(e);
    assert forall|i: int| 0 <= i < u.len() implies spec_probe_next(#[trigger] u.take(i)) == Some(
        u[i].0,
    ) by {
        if i < t.len() {
            assert(u.take(i) =~= t.take(i));
            assert(spec_probe_next(t.take(i)) == Some(t[i].0));
        } else {
            assert(u.take(i) =~= t);
        }
    }
}

/// Probes the capabilities of `player` through `backend`: asks each query
/// that `probe_next` gives, records the answer with `probe_feed`, and ends
/// with `probe_result`.
///
/// The result is `spec_detect` of a whole run of the probe
/// (`is_complete_run`) in which each answer is one that the backend gives
/// (`gives`) to that query's arguments (`query_args`) about `player`; every
/// query only reads the player's state (the trait's `requires`).
pub fn detect_capabilities_with_backend<B: PlayerctlBackend>(backend: &B, player: &str) -> (res: (
    Capabilities,
    CapabilityProbeReport,
))
    ensures
        exists|t: Seq<(ProbeQuery, Answer)>|
            #[trigger] is_complete_run(t) && spec_detect(player@, spec_oracle(t)) == (
                res.0,
                res.1@,
            ) && forall|i: int|
                0 <= i < t.len() ==> backend.gives(player@, query_args(#[trigger] t[i].0), t[i].1),
        res.1.capabilities == res.0,
        res.1.player_selector@ == player@,
{
    let mut state = ProbeState::new();
    assert(is_probe_run(state@));
    let mut next = probe_next(&state);
    while next.is_some()
        invariant
            is_probe_run(state@),
            next == spec_probe_next(state@),
            forall|i: int|
                0 <= i < state@.len() ==> backend.gives(
                    player@,
                    query_args(#[trigger] state@[i].0),
                    state@[i].1,
                ),
        decreases remaining(state@),
    {
        let q = next.unwrap();
        let answer = ask(backend, player, q);
        proof {
            lemma_next_is_unasked(state@);
            lemma_remaining_decreases(state@, (q, answer_view(answer)));
            lemma_run_extends(state@, (q, answer_view(answer)));
        }
        let ghost before = state@;
        probe_feed(&mut state, q, answer);
        assert(forall|i: int| 0 <= i < before.len() ==> state@[i] == before[i]);
        assert(state@[before.len() as int].0 == q);
        next = probe_next(&state);
    }
    let res = probe_result(&state, player);
    assert(is_complete_run(state@));
    res
}

// ---------------------------------------------------------------------------
// Laws
// ---------------------------------------------------------------------------

/// Query argument lists that read the player's state and change nothing:
/// `status`, a `metadata --format` template, or `volume`, `shuffle`, `loop`
/// without a value.
pub open spec fn reads_only(args: Seq<Seq<char>>) -> bool {
    ||| args == seq!["status"@]
    ||| args == seq!["volume"@]
    ||| args == seq!["shuffle"@]
    ||| args == seq!["loop"@]
    ||| (args.len() == 3 && args[0] == "metadata"@ && args[1] == "--format"@)
}

/// The probe only reads the player's state: every query it may send (the
/// `requires` of `PlayerctlBackend::output`) reads only, and none is `stop`.
pub proof fn lemma_probe_only_reads(args: Seq<Seq<char>>)
    requires
        is_probe_query(args),
    ensures
        reads_only(args),
        args[0] != "stop"@,
{
    let q = choose|q: ProbeQuery| args == query_args(q);
    reveal_strlit("stop");
    reveal_strlit("status");
    reveal_strlit("volume");
    reveal_strlit("shuffle");
    reveal_strlit("loop");
    reveal_strlit("metadata");
    assert("stop"@.len() == 4);
    assert("status"@.len() == 6);
    assert("volume"@.len() == 6);
    assert("shuffle"@.len() == 7);
    assert("metadata"@.len() == 8);
    assert("loop"@ != "stop"@) by {
        assert("loop"@[0] != "stop"@[0]);
    }
}

/// The capability that a metadata flag decides.
pub open spec fn capability_of(caps: Capabilities, f: CapField) -> bool {
    match f {
        CapField::CanPlay => caps.can_play,
        CapField::CanPause => caps.can_pause,
        CapField::CanGoNext => caps.can_next,
        CapField::CanGoPrevious => caps.can_previous,
        CapField::CanSeek => caps.can_seek,
        CapField::CanStop => caps.can_stop,
    }
}

/// Every report carries the capabilities returned with it, the selector it
/// was asked for, and the status `capabilities-probe`.
pub proof fn lemma_report_carries_capabilities(player: Seq<char>, o: Oracle)
    ensures
        spec_detect(player, o).1.capabilities == spec_detect(player, o).0,
        spec_detect(player, o).1.player_selector == player,
        spec_detect(player, o).1.status == report_status(),
{
}

/// A player that does not answer `status` is reported as unavailable: no
/// capability, `fallback` set, and one failed `can_control` check.
pub proof fn lemma_unreachable_player(player: Seq<char>, o: Oracle)
    requires
        o(ProbeQuery::Status) is Err,
    ensures
        spec_detect(player, o).0 == spec_unavailable_capabilities(),
        spec_detect(player, o).1.fallback,
        spec_detect(player, o).1.resolved_player is None,
        spec_detect(player, o).1.checks.len() == 1,
        spec_detect(player, o).1.checks[0].capability == "can_control"@,
        !spec_detect(player, o).1.checks[0].passed,
{
}

/// A player that answers `status` gets no fallback report, and one check per
/// capability, in a fixed order, each passed exactly when the capability
/// holds.
pub proof fn lemma_reachable_player(player: Seq<char>, o: Oracle)
    requires
        o(ProbeQuery::Status) is Ok,
    ensures
        !spec_detect(player, o).1.fallback,
        spec_detect(player, o).1.checks.len() == 10,
        spec_detect(player, o).1.checks[0].capability == "can_control"@,
        spec_detect(player, o).1.checks[0].passed,
        spec_detect(player, o).1.checks[1].capability == "can_play"@,
        spec_detect(player, o).1.checks[1].passed == spec_detect(player, o).0.can_play,
        spec_detect(player, o).1.checks[2].capability == "can_pause"@,
        spec_detect(player, o).1.checks[2].passed == spec_detect(player, o).0.can_pause,
        spec_detect(player, o).1.checks[3].capability == "can_next"@,
        spec_detect(player, o).1.checks[3].passed == spec_detect(player, o).0.can_next,
        spec_detect(player, o).1.checks[4].capability == "can_previous"@,
        spec_detect(player, o).1.checks[4].passed == spec_detect(player, o).0.can_previous,
        spec_detect(player, o).1.checks[5].capability == "can_seek"@,
        spec_detect(player, o).1.checks[5].passed == spec_detect(player, o).0.can_seek,
        spec_detect(player, o).1.checks[6].capability == "can_set_volume"@,
        spec_detect(player, o).1.checks[6].passed == spec_detect(player, o).0.can_set_volume,
        spec_detect(player, o).1.checks[7].capability == "can_shuffle"@,
        spec_detect(player, o).1.checks[7].passed == spec_detect(player, o).0.can_shuffle,
        spec_detect(player, o).1.checks[8].capability == "can_loop"@,
        spec_detect(player, o).1.checks[8].passed == spec_detect(player, o).0.can_loop,
        spec_detect(player, o).1.checks[9].capability == "can_stop"@,
        spec_detect(player, o).1.checks[9].passed == spec_detect(player, o).0.can_stop,
{
}

/// When metadata gives a boolean for a capability flag, that boolean is the
/// capability.
pub proof fn lemma_metadata_decides(player: Seq<char>, o: Oracle, f: CapField, b: bool)
    requires
        o(ProbeQuery::Status) is Ok,
        spec_query_cap_bool(o, f).0 == Some(b),
    ensures
        capability_of(spec_detect(player, o).0, f) == b,
{
}

/// Without a metadata answer, play, pause, next and previous are assumed
/// possible, since the player answered `status`.
pub proof fn lemma_flags_default_to_true(player: Seq<char>, o: Oracle, f: CapField)
    requires
        o(ProbeQuery::Status) is Ok,
        f == CapField::CanPlay || f == CapField::CanPause || f == CapField::CanGoNext || f
            == CapField::CanGoPrevious,
        spec_query_cap_bool(o, f).0 is None,
    ensures
        capability_of(spec_detect(player, o).0, f),
{
}

/// Without a `canStop` metadata answer, `can_stop` is derived, without ever
/// sending `stop`, from `can_play`, `can_pause` and the status: it holds
/// unless the player can neither play nor pause and is stopped.
pub proof fn lemma_can_stop_fallback(player: Seq<char>, o: Oracle, status: Seq<char>)
    requires
        o(ProbeQuery::Status) == Ok::<Seq<char>, Seq<char>>(status),
        spec_query_cap_bool(o, CapField::CanStop).0 is None,
    ensures
        spec_detect(player, o).0.can_stop == (spec_detect(player, o).0.can_play
            || spec_detect(player, o).0.can_pause || !is_stopped(status)),
        spec_detect(player, o).1.checks[9].source == "fallback"@,
{
}

/// Without a `canSeek` metadata answer, `can_seek` holds exactly when the
/// position or the length has a value.
pub proof fn lemma_can_seek_fallback(player: Seq<char>, o: Oracle)
    requires
        o(ProbeQuery::Status) is Ok,
        spec_query_cap_bool(o, CapField::CanSeek).0 is None,
    ensures
        spec_detect(player, o).0.can_seek == (spec_probe_has_value(
            o(ProbeQuery::Position),
            query_template(ProbeQuery::Position),
        ).0 || spec_probe_has_value(o(ProbeQuery::Length), query_template(ProbeQuery::Length)).0),
        spec_detect(player, o).1.checks[5].source == "probe"@,
{
}

/// ASCII case, whitespace around the text, and double quotes around
/// trimmed text do not change how a boolean reads.
pub proof fn lemma_parse_bool_normalizes(s: Seq<char>, w1: Seq<char>, w2: Seq<char>)
    requires
        forall|i: int| 0 <= i < w1.len() ==> is_whitespace(#[trigger] w1[i]),
        forall|i: int| 0 <= i < w2.len() ==> is_whitespace(#[trigger] w2[i]),
    ensures
        spec_parse_playerctl_bool(ascii_lower(s)) == spec_parse_playerctl_bool(s),
        spec_parse_playerctl_bool(w1 + s + w2) == spec_parse_playerctl_bool(s),
        spec_trim(s) == s ==> spec_parse_playerctl_bool(seq!['"'] + s + seq!['"'])
            == spec_parse_playerctl_bool(s),
{
    // case
    lemma_trim_start_lower(s, false);
    lemma_trim_end_lower(trim_start_by(s, strip_pred(false)), false);
    let t = spec_trim(s);
    lemma_trim_start_lower(t, true);
    lemma_trim_end_lower(trim_start_by(t, strip_pred(true)), true);
    lemma_ascii_lower_idempotent(spec_trim_quotes(t));
    assert(spec_trim(ascii_lower(s)) == ascii_lower(t));
    assert(spec_trim_quotes(ascii_lower(t)) == ascii_lower(spec_trim_quotes(t)));
    assert(normalized_bool_text(ascii_lower(s)) == normalized_bool_text(s));
    // outer whitespace
    lemma_trim_outer_whitespace(w1, s, w2);
    // quotes
    if spec_trim(s) == s {
        let q = seq!['"'];
        let x = q + s + q;
        let pw = strip_pred(false);
        let pq = strip_pred(true);
        assert(x[0] == '"');
        assert(x.last() == '"');
        assert(trim_start_by(x, pw) == x);
        assert(trim_end_by(x, pw) == x);
        assert(x =~= q + (s + q));
        assert(forall|i: int| 0 <= i < q.len() ==> pq(#[trigger] q[i]));
        lemma_trim_start_prefix(q, s + q, pq);
        lemma_trim_start_append(s, q, pq);
        if trim_start_by(s, pq).len() > 0 {
            lemma_trim_end_suffix(trim_start_by(s, pq), q, pq);
        } else {
            lemma_trim_start_prefix(q, Seq::<char>::empty(), pq);
            assert(q + Seq::<char>::empty() =~= q);
        }
        assert(spec_trim(x) == x);
        assert(spec_trim_quotes(x) == spec_trim_quotes(s));
        assert(normalized_bool_text(x) == normalized_bool_text(s));
    }
}

/// When `status` fails, it is the only query of the run.
pub proof fn lemma_failed_status_ends_run(t: Seq<(ProbeQuery, Answer)>)
    requires
        is_probe_run(t),
        t.len() >= 1,
        t[0].1 is Err,
    ensures
        t.len() == 1,
        t[0].0 == ProbeQuery::Status,
        spec_oracle(t)(ProbeQuery::Status) == t[0].1,
{
    assert(t.take(0) =~= Seq::<(ProbeQuery, Answer)>::empty());
    assert(spec_probe_next(t.take(0)) == Some(t[0].0));
    if t.len() >= 2 {
        let u = t.take(1);
        assert(u.last() == t[0]);
        assert(u.drop_last() =~= Seq::<(ProbeQuery, Answer)>::empty());
        assert(spec_probe_next(u) == Some(t[1].0));
        assert(false);
    }
    assert(t.last() == t[0]);
}

/// The position and the length are asked only when the `canSeek` flag gave
/// no boolean.
pub proof fn lemma_seek_probe_only_without_flag(t: Seq<(ProbeQuery, Answer)>, i: int)
    requires
        is_probe_run(t),
        0 <= i < t.len(),
        t[i].0 == ProbeQuery::Position || t[i].0 == ProbeQuery::Length,
    ensures
        spec_query_cap_bool(spec_oracle(t.take(i)), CapField::CanSeek).0 is None,
{
    assert(spec_probe_next(t.take(i)) == Some(t[i].0));
}

/// A metadata template has a value exactly when playerctl answered it with
/// output that, trimmed, is neither empty nor the template echoed back; a
/// failed query, an empty output or the echo has none.
pub proof fn lemma_has_value_iff(a: Answer, t: Seq<char>)
    ensures
        spec_probe_has_value(a, t).0 <==> (a matches Ok(out) && spec_trim(out).len() > 0
            && spec_trim(out) != t),
{
}

/// Without a `canSeek` boolean, the player can seek exactly when its
/// position or its length has a value (see `lemma_has_value_iff`); the
/// check then comes from the probe and passes exactly when it can seek.
pub proof fn lemma_can_seek_from_position_or_length(player: Seq<char>, o: Oracle)
    requires
        o(ProbeQuery::Status) is Ok,
        spec_query_cap_bool(o, CapField::CanSeek).0 is None,
    ensures
        spec_detect(player, o).0.can_seek <==> ((o(ProbeQuery::Position) matches Ok(out) && spec_trim(
            out,
        ).len() > 0 && spec_trim(out) != "{{position}}"@) || (o(ProbeQuery::Length) matches Ok(
            out,
        ) && spec_trim(out).len() > 0 && spec_trim(out) != "{{mpris:length}}"@)),
        spec_detect(player, o).1.checks[5].capability == "can_seek"@,
        spec_detect(player, o).1.checks[5].source == "probe"@,
        spec_detect(player, o).1.checks[5].passed == spec_detect(player, o).0.can_seek,
{
    lemma_has_value_iff(o(ProbeQuery::Position), query_template(ProbeQuery::Position));
    lemma_has_value_iff(o(ProbeQuery::Length), query_template(ProbeQuery::Length));
}

/// Volume, shuffle and loop are capabilities exactly when their plain
/// `playerctl` query succeeds, and their checks come from that query.
pub proof fn lemma_query_capabilities(player: Seq<char>, o: Oracle)
    requires
        o(ProbeQuery::Status) is Ok,
    ensures
        spec_detect(player, o).0.can_set_volume <==> o(ProbeQuery::Volume) is Ok,
        spec_detect(player, o).0.can_shuffle <==> o(ProbeQuery::Shuffle) is Ok,
        spec_detect(player, o).0.can_loop <==> o(ProbeQuery::Loop) is Ok,
        spec_detect(player, o).1.checks[6].source == "query"@,
        spec_detect(player, o).1.checks[7].source == "query"@,
        spec_detect(player, o).1.checks[8].source == "query"@,
{
}

/// A metadata template gives a boolean exactly when playerctl answered with
/// output that, trimmed, is neither empty nor the echoed template and reads
/// as a boolean; the reason then shows the template and that output.
pub proof fn lemma_template_bool_from_output(a: Answer, t: Seq<char>, out: Seq<char>, b: bool)
    requires
        a == Ok::<Seq<char>, Seq<char>>(out),
        spec_trim(out).len() > 0,
        spec_trim(out) != t,
        spec_parse_playerctl_bool(spec_trim(out)) == Some(b),
    ensures
        spec_template_bool(a, t) == Ok::<(bool, Seq<char>), Seq<char>>((b, t + "="@ + spec_trim(out))),
{
}

/// The `{{mpris:<field>}}` template comes first: when it gives a boolean,
/// that is the flag's value and the `{{<field>}}` answer makes no difference;
/// the source is `metadata` in every case.
pub proof fn lemma_mpris_template_first(o1: Oracle, o2: Oracle, f: CapField, b: bool, r: Seq<char>)
    requires
        o1(ProbeQuery::CapMpris(f)) == o2(ProbeQuery::CapMpris(f)),
        spec_template_bool(o1(ProbeQuery::CapMpris(f)), query_template(ProbeQuery::CapMpris(f)))
            == Ok::<(bool, Seq<char>), Seq<char>>((b, r)),
    ensures
        spec_query_cap_bool(o1, f) == (Some(b), "metadata"@, r),
        spec_query_cap_bool(o1, f) == spec_query_cap_bool(o2, f),
        spec_query_cap_bool(o1, f).1 == "metadata"@,
{
}

/// When neither template gives a boolean, the flag has no value and the
/// reason is the two templates' reasons joined by `; `.
pub proof fn lemma_no_template_bool(o: Oracle, f: CapField, r1: Seq<char>, r2: Seq<char>)
    requires
        spec_template_bool(o(ProbeQuery::CapMpris(f)), query_template(ProbeQuery::CapMpris(f)))
            == Err::<(bool, Seq<char>), Seq<char>>(r1),
        spec_template_bool(o(ProbeQuery::CapPlain(f)), query_template(ProbeQuery::CapPlain(f)))
            == Err::<(bool, Seq<char>), Seq<char>>(r2),
    ensures
        spec_query_cap_bool(o, f) == (None::<bool>, "metadata"@, r1 + "; "@ + r2),
{
}

} // verus!
