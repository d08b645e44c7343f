//! The values that the probe reports: capabilities, probe checks and the
//! probe report, each with its view.
use vstd::prelude::*;
use vstd::string::StringExecFns;

verus! {

/// What the player can do, as the adapter publishes it.
#[derive(Debug, Clone, Copy, PartialEq, Eq, Structural)]
pub struct Capabilities {
    pub can_play: bool,
    pub can_pause: bool,
    pub can_stop: bool,
    pub can_next: bool,
    pub can_previous: bool,
    pub can_seek: bool,
    pub can_set_volume: bool,
    pub can_shuffle: bool,
    pub can_loop: bool,
}

/// The capabilities of a player that cannot be reached: none at all.
pub open spec fn spec_unavailable_capabilities() -> Capabilities {
    Capabilities {
        can_play: false,
        can_pause: false,
        can_stop: false,
        can_next: false,
        can_previous: false,
        can_seek: false,
        can_set_volume: false,
        can_shuffle: false,
        can_loop: false,
    }
}

impl Capabilities {
    pub fn unavailable() -> (res: Self)
        ensures
            res == spec_unavailable_capabilities(),
    {
        Capabilities {
            can_play: false,
            can_pause: false,
            can_stop: false,
            can_next: false,
            can_previous: false,
            can_seek: false,
            can_set_volume: false,
            can_shuffle: false,
            can_loop: false,
        }
    }
}

/// One check of the probe: which capability, whether it passed, where the
/// answer came from and why.
#[derive(Debug, Clone, PartialEq)]
pub struct CapabilityProbeCheck {
    pub capability: String,
    pub passed: bool,
    pub source: String,
    pub reason: String,
}

pub struct CheckView {
    pub capability: Seq<char>,
    pub passed: bool,
    pub source: Seq<char>,
    pub reason: Seq<char>,
}

impl View for CapabilityProbeCheck {
    type V = CheckView;

    open spec fn view(&self) -> CheckView {
        CheckView {
            capability: self.capability@,
            passed: self.passed,
            source: self.source@,
            reason: self.reason@,
        }
    }
}

/// The diagnostic report of one probe.
#[derive(Debug, Clone, PartialEq)]
pub struct CapabilityProbeReport {
    pub status: String,
    pub player_selector: String,
    pub resolved_player: Option<String>,
    pub fallback: bool,
    pub checks: Vec<CapabilityProbeCheck>,
    pub capabilities: Capabilities,
}

pub struct ReportView {
    pub status: Seq<char>,
    pub player_selector: Seq<char>,
    pub resolved_player: Option<Seq<char>>,
    pub fallback: bool,
    pub checks: Seq<CheckView>,
    pub capabilities: Capabilities,
}

pub open spec fn option_view(o: Option<String>) -> Option<Seq<char>> {
    match o {
        Some(s) => Some(s@),
        None => None,
    }
}

pub open spec fn check_views(v: Seq<CapabilityProbeCheck>) -> Seq<CheckView> {
    v.map_values(|c: CapabilityProbeCheck| c@)
}

impl View for CapabilityProbeReport {
    type V = ReportView;

    open spec fn view(&self) -> ReportView {
        ReportView {
            status: self.status@,
            player_selector: self.player_selector@,
            resolved_player: option_view(self.resolved_player),
            fallback: self.fallback,
            checks: check_views(self.checks@),
            capabilities: self.capabilities,
        }
    }
}

/// The `status` field of every probe report.
pub open spec fn report_status() -> Seq<char> {
    "capabilities-probe"@
}

pub open spec fn spec_check(
    capability: Seq<char>,
    passed: bool,
    source: Seq<char>,
    reason: Seq<char>,
) -> CheckView {
    CheckView { capability, passed, source, reason }
}

/// The report for a player that could not be reached: the one failed
/// `can_control` check, with `reason`, and no capabilities.
pub open spec fn spec_unavailable_report(player_selector: Seq<char>, reason: Seq<char>) -> ReportView {
    ReportView {
        status: report_status(),
        player_selector,
        resolved_player: None,
        fallback: true,
        checks: seq![spec_check("can_control"@, false, "status"@, reason)],
        capabilities: spec_unavailable_capabilities(),
    }
}

pub fn new_check(capability: &str, passed: bool, source: &str, reason: String) -> (res:
    CapabilityProbeCheck)
    ensures
        res@ == spec_check(capability@, passed, source@, reason@),
{
    CapabilityProbeCheck {
        capability: String::from_str(capability),
        passed,
        source: String::from_str(source),
        reason,
    }
}

impl CapabilityProbeReport {
    pub fn unavailable(player_selector: &str, reason: &str) -> (res: Self)
        ensures
            res@ == spec_unavailable_report(player_selector@, reason@),
    {
        let check = new_check("can_control", false, "status", String::from_str(reason));
        let checks = vec![check];
        let res = CapabilityProbeReport {
            status: String::from_str("capabilities-probe"),
            player_selector: String::from_str(player_selector),
            resolved_player: None,
            fallback: true,
            checks,
            capabilities: Capabilities::unavailable(),
        };
        assert(check_views(res.checks@) =~= seq![spec_check(
            "can_control"@,
            false,
            "status"@,
            reason@,
        )]);
        res
    }
}

} // verus!
