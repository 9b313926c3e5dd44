//! Live state a layout reflects without new messages: whether OBS is recording or streaming, and
//! whether Codex is in its fast mode.
//!
//! Codex keeps the selected speed on the active thread: its session log gains a
//! `thread_settings_applied` event each time it changes (`priority` or `fast` is Fast). A small
//! cache lets the poll read only the new tail of the active session. Older builds kept it as a
//! top-level `service_tier` in `config.toml`, which stays the fallback.
use vstd::prelude::*;

use crate::text::{
    chars_of, is, is_prefix, same, split, split_once, split_once_char, starts_with_lit, trim,
    trim_exec,
};

verus! {

/// What the host remembers of the Codex session it last read.
pub struct CodexSpeedCache {
    /// The session log read last.
    pub session: Option<String>,
    /// How long it was then, in bytes.
    pub len: u64,
    /// The speed it last said, if it said one.
    pub fast: Option<bool>,
}

impl Default for CodexSpeedCache {
    fn default() -> (r: Self)
        ensures
            r.session is None,
            r.len == 0,
            r.fast is None,
    {
        CodexSpeedCache { session: None, len: 0, fast: None }
    }
}

impl CodexSpeedCache {
    /// Shows a successful speed press at once, from the state seen BEFORE the shortcut went out:
    /// Codex may already have written its event by the time the press returns, and toggling that
    /// new value would paint the opposite. The next event reconciles it.
    pub fn set_after_press(&mut self, was_fast: bool)
        ensures
            final(self).fast == Some(!was_fast),
            final(self).session == old(self).session,
            final(self).len == old(self).len,
    {
        self.fast = Some(!was_fast);
    }
}

/// A successful press of the speed key, seen before Codex confirms it.
pub fn codex_fast_mode_pressed(cache: &mut CodexSpeedCache, was_fast: bool)
    ensures
        final(cache).fast == Some(!was_fast),
        final(cache).session == old(cache).session,
        final(cache).len == old(cache).len,
{
    cache.set_after_press(was_fast);
}

/// How much of the newest session log to read: all of it (`Some(None)`), from an offset
/// (`Some(Some(from))`), or nothing.
pub open spec fn read_plan(cache: CodexSpeedCache, session: Seq<char>, len: u64) -> Option<Option<u64>> {
    let changed = match cache.session {
        Some(s) => s@ != session,
        None => true,
    } || len < cache.len;
    if changed {
        Some(None)
    } else if len > cache.len {
        Some(Some(if cache.len == 0 { 0 } else { (cache.len - 1) as u64 }))
    } else {
        None
    }
}

/// What to read of the newest session log, `len` bytes long now: a new or shorter log is read
/// whole, a longer one from just before where the last read stopped, an unchanged one not at all.
pub fn codex_read_plan(cache: &CodexSpeedCache, session: &str, len: u64) -> (r: Option<Option<u64>>)
    ensures
        r == read_plan(*cache, session@, len),
{
    let changed = match &cache.session {
        Some(s) => !same(s.as_str(), session),
        None => true,
    } || len < cache.len;
    if changed {
        Some(None)
    } else if len > cache.len {
        Some(Some(if cache.len == 0 { 0 } else { cache.len - 1 }))
    } else {
        None
    }
}

/// The speed the key shows after a read of the newest session log found `tier` (or none): the new
/// reading when the log is new or shorter or says something, the remembered one otherwise.
pub open spec fn update_fast(cache: CodexSpeedCache, session: Seq<char>, len: u64, tier: Option<bool>) -> Option<bool> {
    if read_plan(cache, session, len) == Some(None::<u64>) || tier is Some {
        tier
    } else {
        cache.fast
    }
}

/// A successful speed press shows at once and keeps showing until Codex writes a settings event:
/// polls of the same session log, unchanged or grown without such an event, leave it alone.
pub proof fn law_a_speed_press_shows_until_codex_answers(
    cache: CodexSpeedCache,
    was_fast: bool,
    session: Seq<char>,
    len: u64,
)
    requires
        cache.session matches Some(s) && s@ == session,
        len >= cache.len,
    ensures
        update_fast(CodexSpeedCache { fast: Some(!was_fast), ..cache }, session, len, None) == Some(
            !was_fast,
        ),
{
}

/// Records a read of the newest session log, `len` bytes long, that found speed `tier` (or none)
/// and says which speed the key shows: the new reading, or the remembered one when the log only
/// grew without a settings event. `None` means the log has said nothing, and the configuration
/// file decides.
pub fn codex_update(cache: &mut CodexSpeedCache, session: String, len: u64, tier: Option<bool>) -> (r:
    Option<bool>)
    ensures
        final(cache).fast == update_fast(*old(cache), session@, len, tier),
        final(cache).session == Some(session),
        final(cache).len == len,
        r == final(cache).fast,
{
    let changed = match &cache.session {
        Some(s) => !same(s.as_str(), session.as_str()),
        None => true,
    } || len < cache.len;
    if changed || tier.is_some() {
        cache.fast = tier;
    }
    cache.session = Some(session);
    cache.len = len;
    cache.fast
}

/// A speed value that means Fast.
pub open spec fn fast_tier(v: Seq<char>) -> bool {
    v == "fast"@ || v == "priority"@
}

/// What one line of a session log says about the speed, read as JSON: the payload's `type` and
/// its `thread_settings.service_tier`, when they are strings.
pub struct SettingsEvent {
    pub kind: Option<String>,
    pub tier: Option<String>,
}

/// The speed a session-log event sets: only a `thread_settings_applied` event with a tier says
/// anything.
pub fn service_tier_from_event(event: &SettingsEvent) -> (r: Option<bool>)
    ensures
        r == match (event.kind, event.tier) {
            (Some(k), Some(t)) => if k@ == "thread_settings_applied"@ {
                Some(fast_tier(t@))
            } else {
                None
            },
            _ => None,
        },
{
    match (&event.kind, &event.tier) {
        (Some(k), Some(t)) => {
            if same(k.as_str(), "thread_settings_applied") {
                let c = chars_of(t.as_str());
                Some(is(c.as_slice(), "fast") || is(c.as_slice(), "priority"))
            } else {
                None
            }
        },
        _ => None,
    }
}

/// `s` without the quotes (single or double) at either end.
pub open spec fn strip_quotes(s: Seq<char>) -> Seq<char>
    decreases s.len(),
{
    if s.len() > 0 && (s[0] == '\'' || s[0] == '"') {
        strip_quotes(s.drop_first())
    } else if s.len() > 0 && (s.last() == '\'' || s.last() == '"') {
        strip_quotes(s.drop_last())
    } else {
        s
    }
}

/// Whether the configuration's top-level lines from `i` on set `service_tier` to a fast value:
/// the first table header ends the top level, and the first `service_tier` line decides.
pub open spec fn tier_fast_from(lines: Seq<Seq<char>>, i: int) -> bool
    decreases lines.len() - i,
{
    if i < 0 || i >= lines.len() {
        false
    } else {
        let l = trim(lines[i]);
        if is_prefix(seq!['['], l) {
            false
        } else {
            match split_once(l, seq!['=']) {
                Some((name, value)) => if trim(name) == "service_tier"@ {
                    fast_tier(strip_quotes(trim(value)))
                } else {
                    tier_fast_from(lines, i + 1)
                },
                None => tier_fast_from(lines, i + 1),
            }
        }
    }
}

/// `s` without the quotes at either end.
fn strip_quotes_exec(s: &[char]) -> (r: Vec<char>)
    ensures
        r@ == strip_quotes(s@),
{
    let mut a: usize = 0;
    let mut b: usize = s.len();
    assert(s@.subrange(0, s@.len() as int) =~= s@);
    while a < b && (s[a] == '\'' || s[a] == '"')
        invariant
            a <= b <= s.len(),
            b == s.len(),
            strip_quotes(s@) == strip_quotes(s@.subrange(a as int, b as int)),
        decreases b - a,
    {
        proof {
            let t = s@.subrange(a as int, b as int);
            assert(t[0] == s@[a as int]);
            assert(t.drop_first() =~= s@.subrange(a + 1, b as int));
        }
        a = a + 1;
    }
    while a < b && (s[b - 1] == '\'' || s[b - 1] == '"')
        invariant
            a <= b <= s.len(),
            a == b || !(s@[a as int] == '\'' || s@[a as int] == '"'),
            strip_quotes(s@) == strip_quotes(s@.subrange(a as int, b as int)),
        decreases b - a,
    {
        proof {
            let t = s@.subrange(a as int, b as int);
            assert(t[0] == s@[a as int]);
            assert(t.last() == s@[b - 1]);
            assert(t.drop_last() =~= s@.subrange(a as int, b - 1));
            if a < b - 1 {
                assert(s@.subrange(a as int, b - 1)[0] == s@[a as int]);
            }
        }
        b = b - 1;
    }
    proof {
        let t = s@.subrange(a as int, b as int);
        if a < b {
            assert(t[0] == s@[a as int]);
            assert(t.last() == s@[b - 1]);
        }
    }
    crate::text::slice_chars(s, a, b)
}

/// Whether the configuration's top-level `service_tier` is a fast one. A plugin's or server's
/// field of the same name, under a table, does not count.
pub fn service_tier_is_fast(text: &str) -> (r: bool)
    ensures
        r == tier_fast_from(split(text@, seq!['\n']), 0),
{
    let c = chars_of(text);
    let lines = crate::text::split_char(c.as_slice(), '\n');
    let ghost lv = lines@.map_values(|v: Vec<char>| v@);
    assert(lv == split(text@, seq!['\n']));
    let mut i: usize = 0;
    while i < lines.len()
        invariant
            i <= lines@.len(),
            lv == lines@.map_values(|v: Vec<char>| v@),
            lv == split(text@, seq!['\n']),
            tier_fast_from(lv, 0) == tier_fast_from(lv, i as int),
        decreases lines@.len() - i,
    {
        assert(lv[i as int] == lines@[i as int]@);
        let l = trim_exec(lines[i].as_slice());
        if starts_with_lit(l.as_slice(), "[") {
            proof {
                reveal_strlit("[");
                assert("["@ =~= seq!['[']);
            }
            return false;
        }
        proof {
            reveal_strlit("[");
            assert("["@ =~= seq!['[']);
        }
        match split_once_char(l.as_slice(), '=') {
            Some((name, value)) => {
                let n = trim_exec(name.as_slice());
                if is(n.as_slice(), "service_tier") {
                    let v = trim_exec(value.as_slice());
                    let q = strip_quotes_exec(v.as_slice());
                    return is(q.as_slice(), "fast") || is(q.as_slice(), "priority");
                }
            },
            None => {},
        }
        i = i + 1;
    }
    false
}

/// What OBS last told the host.
pub struct ObsState {
    pub connected: bool,
    pub recording: bool,
    pub streaming: bool,
    /// The replay buffer is running.
    pub replay_active: bool,
    pub mic_muted: bool,
    /// The first microphone OBS lists.
    pub mic_name: String,
    pub scenes: Vec<String>,
    pub current_scene: String,
}

/// The OBS state a host starts with: not connected, nothing on air, nothing known.
pub fn obs_state() -> (r: ObsState)
    ensures
        !r.connected && !r.recording && !r.streaming && !r.replay_active && !r.mic_muted,
        r.mic_name@.len() == 0,
        r.scenes@.len() == 0,
        r.current_scene@.len() == 0,
{
    ObsState {
        connected: false,
        recording: false,
        streaming: false,
        replay_active: false,
        mic_muted: false,
        mic_name: String::new(),
        scenes: Vec::new(),
        current_scene: String::new(),
    }
}

} // verus!
