//! The adapter's decisions between polls: when the player changed, when to
//! probe capabilities again, and when a payload is new enough to publish.
use vstd::prelude::*;

use crate::text::{append, concat, owned, sanitize, spec_sanitize, str_eq};
use crate::types::Capabilities;

verus! {

/// What the adapter remembers between polls.
pub struct AdapterMemory {
    pub last_active_player: Option<String>,
    pub last_capabilities: Option<Capabilities>,
    pub last_probe_payload: Option<Vec<u8>>,
}

pub struct MemoryView {
    pub last_active_player: Option<Seq<char>>,
    pub last_capabilities: Option<Capabilities>,
    pub last_probe_payload: Option<Seq<u8>>,
}

impl View for AdapterMemory {
    type V = MemoryView;

    open spec fn view(&self) -> MemoryView {
        MemoryView {
            last_active_player: match self.last_active_player {
                Some(p) => Some(p@),
                None => None,
            },
            last_capabilities: self.last_capabilities,
            last_probe_payload: match self.last_probe_payload {
                Some(p) => Some(p@),
                None => None,
            },
        }
    }
}

/// Noting the player that the state names: whether it differs from the one
/// remembered, and the memory that then holds it.
pub open spec fn spec_observe_player(m: MemoryView, player: Seq<char>) -> (MemoryView, bool) {
    if m.last_active_player == Some(player) {
        (m, false)
    } else {
        (MemoryView { last_active_player: Some(player), ..m }, true)
    }
}

/// Capabilities are probed again when the cache's time is up, when the
/// player changed, or when none are known.
pub open spec fn spec_refresh_due(m: MemoryView, ttl_expired: bool, player_changed: bool) -> bool {
    ttl_expired || player_changed || m.last_capabilities is None
}

/// A probe's capabilities: published only when they differ from the last
/// ones published, which they then become.
pub open spec fn spec_accept_capabilities(m: MemoryView, caps: Capabilities) -> (MemoryView, bool) {
    if m.last_capabilities == Some(caps) {
        (m, false)
    } else {
        (MemoryView { last_capabilities: Some(caps), ..m }, true)
    }
}

/// A probe's diagnostic payload: published only when it differs from the
/// last one published, which it then becomes.
pub open spec fn spec_accept_probe_payload(m: MemoryView, payload: Seq<u8>) -> (MemoryView, bool) {
    if m.last_probe_payload == Some(payload) {
        (m, false)
    } else {
        (MemoryView { last_probe_payload: Some(payload), ..m }, true)
    }
}

fn copy_bytes(b: &[u8]) -> (res: Vec<u8>)
    ensures
        res@ == b@,
{
    let mut res: Vec<u8> = Vec::new();
    let n = b.len();
    let mut i: usize = 0;
    while i < n
        invariant
            i <= n,
            n == b@.len(),
            res@ == b@.subrange(0, i as int),
        decreases n - i,
    {
        res.push(b[i]);
        assert(b@.subrange(0, i + 1) =~= b@.subrange(0, i as int).push(b@[i as int]));
        i = i + 1;
    }
    assert(b@.subrange(0, n as int) =~= b@);
    res
}

fn bytes_eq(a: &[u8], b: &[u8]) -> (res: bool)
    ensures
        res == (a@ == b@),
{
    if a.len() != b.len() {
        return false;
    }
    let n = a.len();
    let mut i: usize = 0;
    while i < n
        invariant
            i <= n,
            n == a@.len(),
            n == b@.len(),
            forall|j: int| 0 <= j < i ==> a@[j] == b@[j],
        decreases n - i,
    {
        if a[i] != b[i] {
            return false;
        }
        i = i + 1;
    }
    assert(a@ =~= b@);
    true
}

impl AdapterMemory {
    /// The memory after the first probe: its capabilities, the player it
    /// resolved, and its diagnostic payload when diagnostics are published.
    pub fn new(
        capabilities: Capabilities,
        resolved_player: Option<String>,
        probe_payload: Option<Vec<u8>>,
    ) -> (res: Self)
        ensures
            res.last_capabilities == Some(capabilities),
            res.last_active_player == resolved_player,
            res.last_probe_payload == probe_payload,
    {
        AdapterMemory {
            last_active_player: resolved_player,
            last_capabilities: Some(capabilities),
            last_probe_payload: probe_payload,
        }
    }

    pub fn observe_player(&mut self, player: &str) -> (changed: bool)
        ensures
            (final(self)@, changed) == spec_observe_player(old(self)@, player@),
    {
        let same = match &self.last_active_player {
            Some(p) => str_eq(p.as_str(), player),
            None => false,
        };
        if same {
            false
        } else {
            self.last_active_player = Some(owned(player));
            true
        }
    }

    /// After a command, the player whose state was read is the active one.
    pub fn record_command_player(&mut self, player: &str)
        ensures
            final(self)@ == (MemoryView { last_active_player: Some(player@), ..old(self)@ }),
    {
        self.last_active_player = Some(owned(player));
    }

    pub fn refresh_due(&self, ttl_expired: bool, player_changed: bool) -> (res: bool)
        ensures
            res == spec_refresh_due(self@, ttl_expired, player_changed),
    {
        ttl_expired || player_changed || self.last_capabilities.is_none()
    }

    pub fn accept_capabilities(&mut self, caps: Capabilities) -> (publish: bool)
        ensures
            (final(self)@, publish) == spec_accept_capabilities(old(self)@, caps),
    {
        let same = match &self.last_capabilities {
            Some(c) => *c == caps,
            None => false,
        };
        if same {
            false
        } else {
            self.last_capabilities = Some(caps);
            true
        }
    }

    pub fn accept_probe_payload(&mut self, payload: &[u8]) -> (publish: bool)
        ensures
            (final(self)@, publish) == spec_accept_probe_payload(old(self)@, payload@),
    {
        let same = match &self.last_probe_payload {
            Some(p) => bytes_eq(p.as_slice(), payload),
            None => false,
        };
        if same {
            false
        } else {
            self.last_probe_payload = Some(copy_bytes(payload));
            true
        }
    }
}

/// The capabilities cache lives at least one second.
pub fn capabilities_ttl_seconds(configured: u64) -> (res: u64)
    ensures
        res == if configured >= 1 { configured } else { 1 },
{
    if configured >= 1 {
        configured
    } else {
        1
    }
}

/// `<base>/<leaf>`: the topics `state`, `capabilities`, `availability`,
/// `event` and `cmd` under the configured base topic.
pub fn topic(base: &str, leaf: &str) -> (res: String)
    ensures
        res@ == base@ + "/"@ + leaf@,
{
    let mut t = concat(base, "/");
    append(&mut t, leaf);
    t
}

/// The JSON event that reports a failure: `{"status":"<status>","message":"<message>"}`
/// with the message sanitized.
pub open spec fn spec_event_message(status: Seq<char>, message: Seq<char>) -> Seq<char> {
    "{\"status\":\""@ + status + "\",\"message\":\""@ + spec_sanitize(message) + "\"}"@
}

pub fn event_message(status: &str, message: &str) -> (res: String)
    ensures
        res@ == spec_event_message(status@, message@),
{
    let mut m = concat("{\"status\":\"", status);
    append(&mut m, "\",\"message\":\"");
    append(&mut m, sanitize(message).as_str());
    append(&mut m, "\"}");
    m
}

// ---------------------------------------------------------------------------
// Laws
// ---------------------------------------------------------------------------

/// The same capabilities, accepted twice in a row, are published at most
/// once; whatever is accepted is what is remembered.
pub proof fn lemma_capabilities_published_once(m: MemoryView, caps: Capabilities)
    ensures
        !spec_accept_capabilities(spec_accept_capabilities(m, caps).0, caps).1,
        spec_accept_capabilities(m, caps).0.last_capabilities == Some(caps),
        spec_accept_capabilities(m, caps).1 <==> m.last_capabilities != Some(caps),
{
}

/// The same diagnostic payload, accepted twice in a row, is published at
/// most once; it is published exactly when it differs from the last one.
pub proof fn lemma_probe_payload_published_once(m: MemoryView, payload: Seq<u8>)
    ensures
        !spec_accept_probe_payload(spec_accept_probe_payload(m, payload).0, payload).1,
        spec_accept_probe_payload(m, payload).0.last_probe_payload == Some(payload),
        spec_accept_probe_payload(m, payload).1 <==> m.last_probe_payload != Some(payload),
{
}

/// A player change is seen once: observing the same player again is no
/// change; and a change always makes the capabilities due for a new probe.
pub proof fn lemma_player_change_seen_once(m: MemoryView, player: Seq<char>, ttl_expired: bool)
    ensures
        !spec_observe_player(spec_observe_player(m, player).0, player).1,
        spec_observe_player(m, player).0.last_active_player == Some(player),
        spec_observe_player(m, player).1 ==> spec_refresh_due(
            spec_observe_player(m, player).0,
            ttl_expired,
            true,
        ),
{
}

/// Accepting capabilities or a payload leaves the remembered player alone,
/// and observing a player leaves the remembered capabilities alone.
pub proof fn lemma_memory_parts_independent(
    m: MemoryView,
    caps: Capabilities,
    payload: Seq<u8>,
    player: Seq<char>,
)
    ensures
        spec_accept_capabilities(m, caps).0.last_active_player == m.last_active_player,
        spec_accept_probe_payload(m, payload).0.last_active_player == m.last_active_player,
        spec_accept_probe_payload(m, payload).0.last_capabilities == m.last_capabilities,
        spec_observe_player(m, player).0.last_capabilities == m.last_capabilities,
        spec_observe_player(m, player).0.last_probe_payload == m.last_probe_payload,
{
}

/// A player change is reported exactly when the player named differs from
/// the one remembered (a switch between two players included), and the
/// capabilities are then due for a new probe whatever the cache's time.
pub proof fn lemma_player_change_iff_different(m: MemoryView, player: Seq<char>, ttl_expired: bool)
    ensures
        spec_observe_player(m, player).1 <==> m.last_active_player != Some(player),
        spec_observe_player(m, player).0.last_active_player == Some(player),
        m.last_active_player != Some(player) ==> spec_refresh_due(
            spec_observe_player(m, player).0,
            ttl_expired,
            spec_observe_player(m, player).1,
        ),
{
}

/// Capabilities are probed again exactly when the cache's time is up, the
/// player changed, or no capabilities are known.
pub proof fn lemma_refresh_due_iff(m: MemoryView, ttl_expired: bool, player_changed: bool)
    ensures
        spec_refresh_due(m, ttl_expired, player_changed) <==> (ttl_expired || player_changed
            || m.last_capabilities is None),
{
}

} // verus!
