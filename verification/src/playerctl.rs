//! What the adapter makes of `playerctl`'s output: the result of one run and
//! the fields of the player's state.
use vstd::prelude::*;

use crate::text::{
    is_whitespace, join_on, lacks, lemma_split_join, lemma_trim_exact,
    append, concat, owned, sanitize, spec_sanitize, spec_trim, split, split_on, string_views, trim,
};

verus! {

/// Unicode lowercasing, as `str::to_lowercase` does it.
pub uninterp spec fn unicode_lowercase(s: Seq<char>) -> Seq<char>;

/// `str::to_lowercase`: the Unicode lowercase mapping of `s`, which depends
/// on `s` alone; what that mapping is, is left to the name
/// `unicode_lowercase`.
#[verifier::external_body]
fn to_lowercase(s: &str) -> (res: String)
    ensures
        res@ == unicode_lowercase(s@),
{
    s.to_lowercase()
}

/// What a run of `playerctl` that printed `stdout` and `stderr` gives: its
/// trimmed output when it succeeded, else an error that names the arguments
/// (`args_text`, as Rust's debug format prints them) and the trimmed error
/// output.
pub open spec fn spec_output_result(
    success: bool,
    stdout: Seq<char>,
    stderr: Seq<char>,
    args_text: Seq<char>,
) -> Result<Seq<char>, Seq<char>> {
    if success {
        Ok(spec_trim(stdout))
    } else {
        Err("playerctl "@ + args_text + " failed: "@ + spec_trim(stderr))
    }
}

pub fn playerctl_output_result(success: bool, stdout: &str, stderr: &str, args_text: &str) -> (res:
    Result<String, String>)
    ensures
        match res {
            Ok(s) => spec_output_result(success, stdout@, stderr@, args_text@) == Ok::<
                Seq<char>,
                Seq<char>,
            >(s@),
            Err(e) => spec_output_result(success, stdout@, stderr@, args_text@) == Err::<
                Seq<char>,
                Seq<char>,
            >(e@),
        },
{
    if success {
        Ok(owned(trim(stdout)))
    } else {
        let mut msg = concat("playerctl ", args_text);
        append(&mut msg, " failed: ");
        append(&mut msg, trim(stderr));
        Err(msg)
    }
}

/// The outcome of a `playerctl` command that only reports its exit status.
pub fn playerctl_status_result(success: bool) -> (res: Result<(), String>)
    ensures
        success <==> res is Ok,
        res matches Err(e) ==> e@ == "playerctl command failed"@,
{
    if success {
        Ok(())
    } else {
        Err(owned("playerctl command failed"))
    }
}

/// The `metadata --format` template that reads the player's state: eleven
/// fields separated by tabs.
pub open spec fn spec_state_template() -> Seq<char> {
    "{{status}}\t{{artist}}\t{{title}}\t{{album}}\t{{mpris:artUrl}}\t{{volume}}\t{{position}}\t{{mpris:length}}\t{{loop}}\t{{shuffle}}\t{{playerName}}"@
}

pub fn state_template() -> (res: &'static str)
    ensures
        res@ == spec_state_template(),
{
    "{{status}}\t{{artist}}\t{{title}}\t{{album}}\t{{mpris:artUrl}}\t{{volume}}\t{{position}}\t{{mpris:length}}\t{{loop}}\t{{shuffle}}\t{{playerName}}"
}

/// The fields of the player's state, as text. The numeric fields keep
/// playerctl's text; reading them as numbers is left to the caller.
#[derive(Debug, Clone, PartialEq)]
pub struct StateFields {
    pub state: String,
    pub artist: String,
    pub title: String,
    pub album: String,
    pub art_url: String,
    pub volume: String,
    pub position: String,
    pub length: String,
    pub loop_status: String,
    pub shuffle: String,
    pub player: String,
}

pub struct StateFieldsView {
    pub state: Seq<char>,
    pub artist: Seq<char>,
    pub title: Seq<char>,
    pub album: Seq<char>,
    pub art_url: Seq<char>,
    pub volume: Seq<char>,
    pub position: Seq<char>,
    pub length: Seq<char>,
    pub loop_status: Seq<char>,
    pub shuffle: Seq<char>,
    pub player: Seq<char>,
}

impl View for StateFields {
    type V = StateFieldsView;

    open spec fn view(&self) -> StateFieldsView {
        StateFieldsView {
            state: self.state@,
            artist: self.artist@,
            title: self.title@,
            album: self.album@,
            art_url: self.art_url@,
            volume: self.volume@,
            position: self.position@,
            length: self.length@,
            loop_status: self.loop_status@,
            shuffle: self.shuffle@,
            player: self.player@,
        }
    }
}

/// The error of an output with fewer than eleven fields.
pub open spec fn unexpected_format() -> Seq<char> {
    "metadata output has unexpected format"@
}

/// The state fields of the output of the state template: `None` when it has
/// fewer than eleven tab-separated fields; else the status, loop status and
/// shuffle trimmed and lowercased, the texts trimmed and sanitized, the
/// numeric fields as they are; fields after the eleventh are ignored.
pub open spec fn spec_parse_state_fields(out: Seq<char>) -> Option<StateFieldsView> {
    let parts = split_on(out, '\t');
    if parts.len() < 11 {
        None
    } else {
        Some(
            StateFieldsView {
                state: unicode_lowercase(spec_trim(parts[0])),
                artist: spec_sanitize(spec_trim(parts[1])),
                title: spec_sanitize(spec_trim(parts[2])),
                album: spec_sanitize(spec_trim(parts[3])),
                art_url: spec_sanitize(spec_trim(parts[4])),
                volume: parts[5],
                position: parts[6],
                length: parts[7],
                loop_status: unicode_lowercase(spec_trim(parts[8])),
                shuffle: unicode_lowercase(spec_trim(parts[9])),
                player: spec_sanitize(spec_trim(parts[10])),
            },
        )
    }
}

pub fn parse_state_fields(out: &str) -> (res: Result<StateFields, String>)
    ensures
        match res {
            Ok(f) => spec_parse_state_fields(out@) == Some(f@),
            Err(e) => spec_parse_state_fields(out@) is None && e@ == unexpected_format(),
        },
{
    let parts = split(out, '\t');
    if parts.len() < 11 {
        return Err(owned("metadata output has unexpected format"));
    }
    let ghost views = string_views(parts@);
    assert(views.len() == parts@.len());
    assert(forall|i: int| 0 <= i < parts@.len() ==> views[i] == parts@[i]@);
    let fields = StateFields {
        state: to_lowercase(trim(parts[0].as_str())),
        artist: sanitize(trim(parts[1].as_str())),
        title: sanitize(trim(parts[2].as_str())),
        album: sanitize(trim(parts[3].as_str())),
        art_url: sanitize(trim(parts[4].as_str())),
        volume: owned(parts[5].as_str()),
        position: owned(parts[6].as_str()),
        length: owned(parts[7].as_str()),
        loop_status: to_lowercase(trim(parts[8].as_str())),
        shuffle: to_lowercase(trim(parts[9].as_str())),
        player: sanitize(trim(parts[10].as_str())),
    };
    Ok(fields)
}

/// A successful run gives its output unchanged but for the whitespace
/// around it: a stretch of `stdout` with only whitespace before and after
/// it, and no whitespace at its ends. A failed run gives an error that
/// names the arguments and carries `stderr` trimmed the same way.
pub proof fn lemma_output_keeps_text(stdout: Seq<char>, stderr: Seq<char>, args_text: Seq<char>)
    ensures
        exists|lo: int, hi: int|
            {
                &&& 0 <= lo <= hi <= stdout.len()
                &&& spec_output_result(true, stdout, stderr, args_text) == Ok::<
                    Seq<char>,
                    Seq<char>,
                >(stdout.subrange(lo, hi))
                &&& forall|i: int| 0 <= i < lo ==> is_whitespace(#[trigger] stdout[i])
                &&& forall|i: int| hi <= i < stdout.len() ==> is_whitespace(#[trigger] stdout[i])
                &&& lo < hi ==> !is_whitespace(stdout[lo]) && !is_whitespace(stdout[hi - 1])
            },
        exists|lo: int, hi: int|
            {
                &&& 0 <= lo <= hi <= stderr.len()
                &&& spec_output_result(false, stdout, stderr, args_text) == Err::<
                    Seq<char>,
                    Seq<char>,
                >("playerctl "@ + args_text + " failed: "@ + stderr.subrange(lo, hi))
                &&& forall|i: int| 0 <= i < lo ==> is_whitespace(#[trigger] stderr[i])
                &&& forall|i: int| hi <= i < stderr.len() ==> is_whitespace(#[trigger] stderr[i])
                &&& lo < hi ==> !is_whitespace(stderr[lo]) && !is_whitespace(stderr[hi - 1])
            },
{
    let (lo, hi) = lemma_trim_exact(stdout);
    let (lo2, hi2) = lemma_trim_exact(stderr);
    assert(0 <= lo <= hi <= stdout.len());
    assert(0 <= lo2 <= hi2 <= stderr.len());
}

/// Each field of the state is read from the output at the place of its
/// placeholder in the state template: for output made of fields (without
/// tabs) joined by tabs, the status comes from the first field
/// (`{{status}}`), the artist from the second, the title from the third, the
/// album from the fourth (`{{album}}`), the art URL from the fifth
/// (`{{mpris:artUrl}}`), the volume, position and length from the sixth to
/// eighth, loop and shuffle from the ninth and tenth, and the player from the
/// eleventh; later fields are ignored, and fewer than eleven are refused.
pub proof fn lemma_state_fields_in_template_order(fields: Seq<Seq<char>>)
    requires
        forall|i: int| 0 <= i < fields.len() ==> lacks(#[trigger] fields[i], '\t'),
    ensures
        fields.len() >= 11 ==> spec_parse_state_fields(join_on(fields, '\t')) == Some(
            StateFieldsView {
                state: unicode_lowercase(spec_trim(fields[0])),
                artist: spec_sanitize(spec_trim(fields[1])),
                title: spec_sanitize(spec_trim(fields[2])),
                album: spec_sanitize(spec_trim(fields[3])),
                art_url: spec_sanitize(spec_trim(fields[4])),
                volume: fields[5],
                position: fields[6],
                length: fields[7],
                loop_status: unicode_lowercase(spec_trim(fields[8])),
                shuffle: unicode_lowercase(spec_trim(fields[9])),
                player: spec_sanitize(spec_trim(fields[10])),
            },
        ),
        1 <= fields.len() < 11 ==> spec_parse_state_fields(join_on(fields, '\t')) is None,
{
    if fields.len() >= 1 {
        lemma_split_join(fields, '\t');
    }
}

/// The placeholders of the state template, in order.
pub open spec fn state_placeholders() -> Seq<Seq<char>> {
    seq![
        "{{status}}"@,
        "{{artist}}"@,
        "{{title}}"@,
        "{{album}}"@,
        "{{mpris:artUrl}}"@,
        "{{volume}}"@,
        "{{position}}"@,
        "{{mpris:length}}"@,
        "{{loop}}"@,
        "{{shuffle}}"@,
        "{{playerName}}"@,
    ]
}

/// The state template is the eleven placeholders joined by tabs, in the
/// order in which `spec_parse_state_fields` reads its fields.
pub proof fn lemma_state_template_fields()
    ensures
        split_on(spec_state_template(), '\t') == state_placeholders(),
{
    reveal_strlit("{{status}}\t{{artist}}\t{{title}}\t{{album}}\t{{mpris:artUrl}}\t{{volume}}\t{{position}}\t{{mpris:length}}\t{{loop}}\t{{shuffle}}\t{{playerName}}");
    reveal_strlit("{{status}}");
    reveal_strlit("{{artist}}");
    reveal_strlit("{{title}}");
    reveal_strlit("{{album}}");
    reveal_strlit("{{mpris:artUrl}}");
    reveal_strlit("{{volume}}");
    reveal_strlit("{{position}}");
    reveal_strlit("{{mpris:length}}");
    reveal_strlit("{{loop}}");
    reveal_strlit("{{shuffle}}");
    reveal_strlit("{{playerName}}");
    let f = state_placeholders();
    assert forall|i: int| 0 <= i < f.len() implies lacks(#[trigger] f[i], '\t') by {
    }
    assert(spec_state_template() =~= join_on(f, '\t')) by {
        reveal_with_fuel(join_on, 12);
    }
    lemma_split_join(f, '\t');
}

} // verus!
