//! Auto mode: the app in front picks a profile, and the profile becomes a page of keys with OBS's
//! live state painted on them. The layout is resolved once per change, independent of any client's
//! grid, and each client cuts it into its own pages.
use vstd::prelude::*;

use crate::config::{
    empty_key, key_views, Button, ButtonView, Key, KeyKind, KeyState, KeyView, Page, PageView,
    Profile, ProfileView,
};
use crate::deck::{keys_for, pages, page_count, shown, drawn_page, Grid, Rendered};
use crate::i18n::{tr, translated, Lang};
use crate::state::ObsState;
use crate::text::{
    chars_of, concat_chars, contains, contains_exec, eq_ignore_ascii_case,
    eq_ignore_ascii_case_exec, own, same, split, split_char, split_once, split_once_char,
    string_of, strip_prefix, strip_prefix_lit, to_lowercase, trim, trim_exec, unicode_lower,
};

verus! {

// ---------------------------------------------------------------------------------------------
// Picking a profile
// ---------------------------------------------------------------------------------------------

/// What the app in front is matched against: its name and the window title, lower-cased.
pub open spec fn haystack(app: Seq<char>, title: Seq<char>) -> Seq<char> {
    unicode_lower(app + seq![' '] + title)
}

/// Whether one of a profile's words occurs in the haystack, ignoring case.
pub open spec fn profile_hits(p: ProfileView, hay: Seq<char>) -> bool {
    exists|k: int| 0 <= k < p.matches.len() && contains(hay, unicode_lower(#[trigger] p.matches[k]))
}

/// The first profile from `i` on with this id.
pub open spec fn first_with_id(ps: Seq<ProfileView>, id: Seq<char>, i: int) -> Option<int>
    decreases ps.len() - i,
{
    if i < 0 || i >= ps.len() {
        None
    } else if ps[i].id == id {
        Some(i)
    } else {
        first_with_id(ps, id, i + 1)
    }
}

/// The first profile from `i` on whose words occur in the haystack (an agent profile, `ai`, when
/// `agent` is set).
pub open spec fn first_hit(ps: Seq<ProfileView>, hay: Seq<char>, agent: bool, i: int) -> Option<int>
    decreases ps.len() - i,
{
    if i < 0 || i >= ps.len() {
        None
    } else if profile_hits(ps[i], hay) && (!agent || ps[i].id == "ai"@) {
        Some(i)
    } else {
        first_hit(ps, hay, agent, i + 1)
    }
}

/// The first profile from `i` on with no words: the fallback.
pub open spec fn first_fallback(ps: Seq<ProfileView>, i: int) -> Option<int>
    decreases ps.len() - i,
{
    if i < 0 || i >= ps.len() {
        None
    } else if ps[i].matches.len() == 0 {
        Some(i)
    } else {
        first_fallback(ps, i + 1)
    }
}

/// The profile the app in front gets, by priority: OBS while it is recording or streaming; an
/// agent profile whose words occur (it runs inside a terminal and outranks it); the shell found in
/// the window's process tree; the first profile whose words occur; the fallback; the last one.
pub open spec fn profile_choice(
    ps: Seq<ProfileView>,
    app: Seq<char>,
    title: Seq<char>,
    shell: Option<Seq<char>>,
    obs_live: bool,
) -> Option<int> {
    let hay = haystack(app, title);
    let obs = if obs_live {
        first_with_id(ps, "obs"@, 0)
    } else {
        None
    };
    let by_shell = match shell {
        Some(s) => first_with_id(ps, s, 0),
        None => None,
    };
    if obs is Some {
        obs
    } else if first_hit(ps, hay, true, 0) is Some {
        first_hit(ps, hay, true, 0)
    } else if by_shell is Some {
        by_shell
    } else if first_hit(ps, hay, false, 0) is Some {
        first_hit(ps, hay, false, 0)
    } else if first_fallback(ps, 0) is Some {
        first_fallback(ps, 0)
    } else if ps.len() > 0 {
        Some(ps.len() - 1)
    } else {
        None
    }
}

/// The profiles by their contents.
pub open spec fn profile_views(ps: Seq<Profile>) -> Seq<ProfileView> {
    ps.map_values(|p: Profile| p@)
}

/// The first profile from `i` on with this id.
fn first_with_id_exec(ps: &Vec<Profile>, id: &str) -> (r: Option<usize>)
    ensures
        match r {
            Some(i) => first_with_id(profile_views(ps@), id@, 0) == Some(i as int),
            None => first_with_id(profile_views(ps@), id@, 0) is None,
        },
{
    let ghost pv = profile_views(ps@);
    let mut i: usize = 0;
    while i < ps.len()
        invariant
            i <= ps@.len(),
            pv == profile_views(ps@),
            first_with_id(pv, id@, 0) == first_with_id(pv, id@, i as int),
        decreases ps@.len() - i,
    {
        if same(ps[i].id.as_str(), id) {
            return Some(i);
        }
        i = i + 1;
    }
    None
}

/// Whether one of a profile's words occurs in a lower-cased haystack.
fn profile_hits_exec(p: &Profile, hay: &[char]) -> (r: bool)
    ensures
        r == profile_hits(p@, hay@),
{
    let mut k: usize = 0;
    while k < p.matches.len()
        invariant
            k <= p.matches@.len(),
            forall|j: int| 0 <= j < k ==> !contains(hay@, unicode_lower(#[trigger] p@.matches[j])),
        decreases p.matches@.len() - k,
    {
        let low = to_lowercase(p.matches[k].as_str());
        let lc = chars_of(low.as_str());
        assert(p@.matches[k as int] == p.matches@[k as int]@);
        if contains_exec(hay, lc.as_slice()) {
            return true;
        }
        k = k + 1;
    }
    false
}

/// The first profile whose words occur (an agent one when `agent`).
fn first_hit_exec(ps: &Vec<Profile>, hay: &[char], agent: bool) -> (r: Option<usize>)
    ensures
        match r {
            Some(i) => first_hit(profile_views(ps@), hay@, agent, 0) == Some(i as int),
            None => first_hit(profile_views(ps@), hay@, agent, 0) is None,
        },
{
    let ghost pv = profile_views(ps@);
    let mut i: usize = 0;
    while i < ps.len()
        invariant
            i <= ps@.len(),
            pv == profile_views(ps@),
            first_hit(pv, hay@, agent, 0) == first_hit(pv, hay@, agent, i as int),
        decreases ps@.len() - i,
    {
        let ok = !agent || same(ps[i].id.as_str(), "ai");
        if ok && profile_hits_exec(&ps[i], hay) {
            return Some(i);
        }
        i = i + 1;
    }
    None
}

/// The first profile with no words.
fn first_fallback_exec(ps: &Vec<Profile>) -> (r: Option<usize>)
    ensures
        match r {
            Some(i) => first_fallback(profile_views(ps@), 0) == Some(i as int),
            None => first_fallback(profile_views(ps@), 0) is None,
        },
{
    let ghost pv = profile_views(ps@);
    let mut i: usize = 0;
    while i < ps.len()
        invariant
            i <= ps@.len(),
            pv == profile_views(ps@),
            first_fallback(pv, 0) == first_fallback(pv, i as int),
        decreases ps@.len() - i,
    {
        if ps[i].matches.len() == 0 {
            return Some(i);
        }
        i = i + 1;
    }
    None
}

/// Whether OBS pins its own profile over the app in front: only while it is connected and
/// recording or live.
pub open spec fn obs_pinned(connected: bool, recording: bool, streaming: bool) -> bool {
    connected && (recording || streaming)
}

/// Whether OBS pins its own profile over the app in front, from what OBS last said.
pub fn obs_pins(connected: bool, recording: bool, streaming: bool) -> (r: bool)
    ensures
        r == obs_pinned(connected, recording, streaming),
{
    connected && (recording || streaming)
}

/// The profile the app in front gets: its index among `profiles`, none only when there are none.
pub fn pick_profile(
    profiles: &Vec<Profile>,
    app: &str,
    title: &str,
    shell: Option<&str>,
    obs_live: bool,
) -> (r: Option<usize>)
    ensures
        match r {
            Some(i) => profile_choice(
                profile_views(profiles@),
                app@,
                title@,
                match shell {
                    Some(s) => Some(s@),
                    None => None,
                },
                obs_live,
            ) == Some(i as int),
            None => profile_choice(
                profile_views(profiles@),
                app@,
                title@,
                match shell {
                    Some(s) => Some(s@),
                    None => None,
                },
                obs_live,
            ) is None,
        },
{
    let mut joined = String::from_str(app);
    joined.append(" ");
    joined.append(title);
    proof {
        reveal_strlit(" ");
    }
    assert(joined@ =~= app@ + seq![' '] + title@);
    let low = to_lowercase(joined.as_str());
    let hay = chars_of(low.as_str());
    if obs_live {
        if let Some(i) = first_with_id_exec(profiles, "obs") {
            return Some(i);
        }
    }
    if let Some(i) = first_hit_exec(profiles, hay.as_slice(), true) {
        return Some(i);
    }
    if let Some(s) = shell {
        if let Some(i) = first_with_id_exec(profiles, s) {
            return Some(i);
        }
    }
    if let Some(i) = first_hit_exec(profiles, hay.as_slice(), false) {
        return Some(i);
    }
    if let Some(i) = first_fallback_exec(profiles) {
        return Some(i);
    }
    if profiles.len() > 0 {
        Some(profiles.len() - 1)
    } else {
        None
    }
}

// ---------------------------------------------------------------------------------------------
// From buttons to keys
// ---------------------------------------------------------------------------------------------

/// Pieces joined with a separator between each two.
pub open spec fn join(parts: Seq<Seq<char>>, sep: Seq<char>) -> Seq<char>
    decreases parts.len(),
{
    if parts.len() == 0 {
        Seq::empty()
    } else if parts.len() == 1 {
        parts[0]
    } else {
        join(parts.drop_last(), sep) + sep + parts.last()
    }
}

/// One `Name=value` option of a picker with its name trimmed.
pub open spec fn tidy_option(part: Seq<char>) -> Seq<char> {
    match split_once(part, seq!['=']) {
        Some((name, act)) => trim(name) + seq!['='] + act,
        None => part,
    }
}

/// The options of a picker, tidied and joined back.
pub open spec fn tidy_options(parts: Seq<Seq<char>>) -> Seq<Seq<char>>
    decreases parts.len(),
{
    if parts.len() == 0 {
        Seq::empty()
    } else {
        tidy_options(parts.drop_last()).push(tidy_option(parts.last()))
    }
}

/// An action with a picker's option names trimmed; any other action as it is.
pub open spec fn tidy_action(action: Seq<char>) -> Seq<char> {
    match strip_prefix(action, "picker:"@) {
        Some(rest) => "picker:"@ + join(tidy_options(split(rest, seq![';'])), seq![';']),
        None => action,
    }
}

/// Pieces joined with a separator.
fn join_exec(parts: &Vec<Vec<char>>, sep: char) -> (r: Vec<char>)
    ensures
        r@ == join(parts@.map_values(|v: Vec<char>| v@), seq![sep]),
{
    let ghost pv = parts@.map_values(|v: Vec<char>| v@);
    let mut out: Vec<char> = Vec::new();
    let mut i: usize = 0;
    while i < parts.len()
        invariant
            i <= parts@.len(),
            pv == parts@.map_values(|v: Vec<char>| v@),
            out@ == join(pv.subrange(0, i as int), seq![sep]),
        decreases parts@.len() - i,
    {
        proof {
            let pre = pv.subrange(0, i + 1);
            assert(pre.drop_last() =~= pv.subrange(0, i as int));
            assert(pre.last() == parts@[i as int]@);
        }
        if i == 0 {
            out = crate::text::copy_chars(parts[0].as_slice());
            assert(pv.subrange(0, 1).len() == 1);
        } else {
            let sv = vec![sep];
            let a = concat_chars(out.as_slice(), sv.as_slice());
            out = concat_chars(a.as_slice(), parts[i].as_slice());
        }
        i = i + 1;
    }
    assert(pv.subrange(0, parts@.len() as int) =~= pv);
    out
}

/// An action with a picker's option names trimmed.
pub fn tidy_action_exec(action: &str) -> (r: String)
    ensures
        r@ == tidy_action(action@),
{
    let a = chars_of(action);
    let rest = match strip_prefix_lit(a.as_slice(), "picker:") {
        Some(r) => r,
        None => {
            return string_of(a.as_slice());
        },
    };
    let parts = split_char(rest.as_slice(), ';');
    let ghost pv = parts@.map_values(|v: Vec<char>| v@);
    let mut tidy: Vec<Vec<char>> = Vec::new();
    let mut i: usize = 0;
    while i < parts.len()
        invariant
            i <= parts@.len(),
            pv == parts@.map_values(|v: Vec<char>| v@),
            tidy@.map_values(|v: Vec<char>| v@) == tidy_options(pv.subrange(0, i as int)),
        decreases parts@.len() - i,
    {
        proof {
            let pre = pv.subrange(0, i + 1);
            assert(pre.drop_last() =~= pv.subrange(0, i as int));
            assert(pre.last() == parts@[i as int]@);
        }
        let ghost before = tidy@.map_values(|v: Vec<char>| v@);
        let t = match split_once_char(parts[i].as_slice(), '=') {
            Some((name, act)) => {
                let n = trim_exec(name.as_slice());
                let eq = vec!['='];
                let a1 = concat_chars(n.as_slice(), eq.as_slice());
                concat_chars(a1.as_slice(), act.as_slice())
            },
            None => crate::text::copy_chars(parts[i].as_slice()),
        };
        assert(t@ == tidy_option(pv[i as int]));
        tidy.push(t);
        assert(tidy@.map_values(|v: Vec<char>| v@) =~= before.push(tidy_option(pv[i as int])));
        i = i + 1;
    }
    assert(pv.subrange(0, parts@.len() as int) =~= pv);
    let body = join_exec(&tidy, ';');
    let head = chars_of("picker:");
    let full = concat_chars(head.as_slice(), body.as_slice());
    string_of(full.as_slice())
}

/// What OBS says about a profile button's action, when connected.
pub open spec fn obs_on(action: Seq<char>, obs: ObsState) -> Option<bool> {
    if !obs.connected {
        None
    } else if action == "obs:record"@ {
        Some(obs.recording)
    } else if action == "obs:stream"@ {
        Some(obs.streaming)
    } else if action == "obs:mic"@ {
        Some(obs.mic_muted)
    } else if action == "obs:replaybuffer"@ {
        Some(obs.replay_active)
    } else {
        None
    }
}

/// A profile button as a key at its place in the profile. A toggle says what it is ABOUT to do:
/// recording shows "stop", streaming shows "cut".
pub open spec fn button_key(i: usize, b: ButtonView, obs: ObsState) -> KeyView {
    let on = obs_on(b.action, obs);
    let label = if b.action == "obs:record"@ && on == Some(true) {
        "Detener grab."@
    } else if b.action == "obs:stream"@ && on == Some(true) {
        "Cortar directo"@
    } else {
        b.label
    };
    KeyView {
        pos: i,
        label,
        icon: b.icon,
        action: Some(tidy_action(b.action)),
        danger: b.danger,
        state: match on {
            Some(v) => Some(KeyState { on: Some(v), running: None }),
            None => None,
        },
        kind: KeyKind::Action,
        ..empty_key(i)
    }
}

/// Whether a profile button is shown: not when its control is disabled in the app right now, nor
/// the microphone key when OBS has no microphone.
pub open spec fn shown_button(b: ButtonView, disabled: Seq<Seq<char>>, obs: ObsState) -> bool {
    !disabled.contains(b.action) && !(b.action == "obs:mic"@ && obs.connected
        && obs.mic_name@.len() == 0)
}

/// The shown buttons among the first `n`, as (recommended, key).
pub open spec fn button_keys(bs: Seq<ButtonView>, n: int, disabled: Seq<Seq<char>>, obs: ObsState) -> Seq<(bool, KeyView)>
    decreases n,
{
    if n <= 0 || n > bs.len() {
        Seq::empty()
    } else {
        let rest = button_keys(bs, n - 1, disabled, obs);
        if shown_button(bs[n - 1], disabled, obs) {
            rest.push((bs[n - 1].recommended, button_key((n - 1) as usize, bs[n - 1], obs)))
        } else {
            rest
        }
    }
}

/// The key of OBS scene `i`: on while it is the scene on air.
pub open spec fn scene_key(i: int, name: Seq<char>, current: Seq<char>) -> KeyView {
    KeyView {
        pos: (1000 + i) as usize,
        label: name,
        icon: "scene"@,
        action: Some("obs:scene:"@ + name),
        state: Some(KeyState { on: Some(name == current), running: None }),
        kind: KeyKind::Action,
        ..empty_key((1000 + i) as usize)
    }
}

/// The entries of a list whose recommended flag is `rec`, in order.
pub open spec fn with_rec(bs: Seq<(bool, KeyView)>, rec: bool) -> Seq<(bool, KeyView)>
    decreases bs.len(),
{
    if bs.len() == 0 {
        Seq::empty()
    } else if bs.last().0 == rec {
        with_rec(bs.drop_last(), rec).push(bs.last())
    } else {
        with_rec(bs.drop_last(), rec)
    }
}

/// Recommended keys first, so the first page is the profile's chosen selection; each group keeps
/// the order the profile gave it.
pub open spec fn recommended_first(bs: Seq<(bool, KeyView)>) -> Seq<(bool, KeyView)> {
    with_rec(bs, true) + with_rec(bs, false)
}

/// The first key from `i` on that closes the app, whatever case its action was typed in.
pub open spec fn close_index(bs: Seq<(bool, KeyView)>, i: int) -> Option<int>
    decreases bs.len() - i,
{
    if i < 0 || i >= bs.len() {
        None
    } else if bs[i].1.action matches Some(a) && eq_ignore_ascii_case(a, "alt+F4"@) {
        Some(i)
    } else {
        close_index(bs, i + 1)
    }
}

/// The close key moved to the third cell (or last, with fewer keys), everything else in order.
pub open spec fn pinned(bs: Seq<(bool, KeyView)>) -> Seq<(bool, KeyView)> {
    match close_index(bs, 0) {
        None => bs,
        Some(at) => {
            let rest = bs.remove(at);
            let to = if rest.len() < 2 { rest.len() as int } else { 2 };
            rest.insert(to, bs[at])
        },
    }
}

/// Whether `x` is among `list`.
fn listed(list: &Vec<String>, x: &str) -> (r: bool)
    ensures
        r == list@.map_values(|s: String| s@).contains(x@),
{
    let ghost lv = list@.map_values(|s: String| s@);
    let mut i: usize = 0;
    while i < list.len()
        invariant
            i <= list@.len(),
            lv == list@.map_values(|s: String| s@),
            forall|k: int| 0 <= k < i ==> lv[k] != x@,
        decreases list@.len() - i,
    {
        if same(list[i].as_str(), x) {
            assert(lv[i as int] == x@);
            return true;
        }
        i = i + 1;
    }
    false
}

/// A profile button as a key.
fn button_key_exec(i: usize, b: &Button, obs: &ObsState) -> (r: Key)
    ensures
        r@ == button_key(i, b@, *obs),
{
    let a = chars_of(b.action.as_str());
    let s = a.as_slice();
    let on = if !obs.connected {
        None
    } else if crate::text::is(s, "obs:record") {
        Some(obs.recording)
    } else if crate::text::is(s, "obs:stream") {
        Some(obs.streaming)
    } else if crate::text::is(s, "obs:mic") {
        Some(obs.mic_muted)
    } else if crate::text::is(s, "obs:replaybuffer") {
        Some(obs.replay_active)
    } else {
        None
    };
    let label = if crate::text::is(s, "obs:record") && on == Some(true) {
        String::from_str("Detener grab.")
    } else if crate::text::is(s, "obs:stream") && on == Some(true) {
        String::from_str("Cortar directo")
    } else {
        b.label.clone()
    };
    let mut k = Key::empty(i);
    k.label = label;
    k.icon = b.icon.clone();
    k.action = Some(tidy_action_exec(b.action.as_str()));
    k.danger = b.danger;
    k.state = match on {
        Some(v) => Some(KeyState { on: Some(v), running: None }),
        None => None,
    };
    k.kind = KeyKind::Action;
    k
}

/// The shown buttons of a profile as (recommended, key).
fn button_keys_exec(bs: &Vec<Button>, disabled: &Vec<String>, obs: &ObsState) -> (r: Vec<(bool, Key)>)
    ensures
        r@.map_values(|e: (bool, Key)| (e.0, e.1@)) == button_keys(
            bs@.map_values(|b: Button| b@),
            bs@.len() as int,
            disabled@.map_values(|s: String| s@),
            *obs,
        ),
{
    let ghost bv = bs@.map_values(|b: Button| b@);
    let ghost dv = disabled@.map_values(|s: String| s@);
    let mut out: Vec<(bool, Key)> = Vec::new();
    let mut i: usize = 0;
    while i < bs.len()
        invariant
            i <= bs@.len(),
            bv == bs@.map_values(|b: Button| b@),
            dv == disabled@.map_values(|s: String| s@),
            out@.map_values(|e: (bool, Key)| (e.0, e.1@)) == button_keys(bv, i as int, dv, *obs),
        decreases bs@.len() - i,
    {
        let b = &bs[i];
        assert(bv[i as int] == b@);
        let off = listed(disabled, b.action.as_str()) || (same(b.action.as_str(), "obs:mic")
            && obs.connected && obs.mic_name.as_str().is_empty());
        if !off {
            let ghost before = out@.map_values(|e: (bool, Key)| (e.0, e.1@));
            let k = button_key_exec(i, b, obs);
            out.push((b.recommended, k));
            assert(out@.map_values(|e: (bool, Key)| (e.0, e.1@)) =~= before.push(
                (bv[i as int].recommended, button_key(i, bv[i as int], *obs)),
            ));
        }
        i = i + 1;
    }
    out
}

/// Recommended keys first, each group in its given order.
fn recommended_first_exec(bs: Vec<(bool, Key)>) -> (r: Vec<(bool, Key)>)
    ensures
        r@.map_values(|e: (bool, Key)| (e.0, e.1@)) == recommended_first(
            bs@.map_values(|e: (bool, Key)| (e.0, e.1@)),
        ),
{
    let ghost bv = bs@.map_values(|e: (bool, Key)| (e.0, e.1@));
    let mut yes: Vec<(bool, Key)> = Vec::new();
    let mut no: Vec<(bool, Key)> = Vec::new();
    let mut i: usize = 0;
    while i < bs.len()
        invariant
            i <= bs@.len(),
            bv == bs@.map_values(|e: (bool, Key)| (e.0, e.1@)),
            yes@.map_values(|e: (bool, Key)| (e.0, e.1@)) == with_rec(bv.subrange(0, i as int), true),
            no@.map_values(|e: (bool, Key)| (e.0, e.1@)) == with_rec(bv.subrange(0, i as int), false),
        decreases bs@.len() - i,
    {
        proof {
            let pre = bv.subrange(0, i + 1);
            assert(pre.drop_last() =~= bv.subrange(0, i as int));
            assert(pre.last() == bv[i as int]);
        }
        let e = (bs[i].0, bs[i].1.clone());
        assert((e.0, e.1@) == bv[i as int]);
        if e.0 {
            let ghost before = yes@.map_values(|e: (bool, Key)| (e.0, e.1@));
            yes.push(e);
            assert(yes@.map_values(|e: (bool, Key)| (e.0, e.1@)) =~= before.push(bv[i as int]));
        } else {
            let ghost before = no@.map_values(|e: (bool, Key)| (e.0, e.1@));
            no.push(e);
            assert(no@.map_values(|e: (bool, Key)| (e.0, e.1@)) =~= before.push(bv[i as int]));
        }
        i = i + 1;
    }
    assert(bv.subrange(0, bs@.len() as int) =~= bv);
    let ghost ya = yes@.map_values(|e: (bool, Key)| (e.0, e.1@));
    let ghost na = no@.map_values(|e: (bool, Key)| (e.0, e.1@));
    yes.append(&mut no);
    assert(yes@.map_values(|e: (bool, Key)| (e.0, e.1@)) =~= ya + na);
    yes
}

/// Moves the key that closes the app to the third cell of the first page, the same cell on every
/// profile, or last when there are fewer keys. Found by its action in any case, not its label.
pub fn pin_close_app(buttons: &mut Vec<(bool, Key)>)
    ensures
        final(buttons)@.map_values(|e: (bool, Key)| (e.0, e.1@)) == pinned(
            old(buttons)@.map_values(|e: (bool, Key)| (e.0, e.1@)),
        ),
{
    let ghost bv = buttons@.map_values(|e: (bool, Key)| (e.0, e.1@));
    let mut at: usize = 0;
    let mut found = false;
    while at < buttons.len() && !found
        invariant
            at <= buttons@.len(),
            bv == buttons@.map_values(|e: (bool, Key)| (e.0, e.1@)),
            found ==> at < buttons@.len() && close_index(bv, 0) == Some(at as int),
            !found ==> close_index(bv, 0) == close_index(bv, at as int),
        decreases buttons@.len() - at + (if found { 0int } else { 1int }),
    {
        let hit = match &buttons[at].1.action {
            Some(a) => {
                let ac = chars_of(a.as_str());
                let target = chars_of("alt+F4");
                eq_ignore_ascii_case_exec(ac.as_slice(), target.as_slice())
            },
            None => false,
        };
        assert(bv[at as int] == (buttons@[at as int].0, buttons@[at as int].1@));
        if hit {
            found = true;
        } else {
            at = at + 1;
        }
    }
    if !found {
        return;
    }
    assert(close_index(bv, 0) == Some(at as int));
    let key = buttons.remove(at);
    let to = if buttons.len() < 2 { buttons.len() } else { 2 };
    buttons.insert(to, key);
    assert(buttons@.map_values(|e: (bool, Key)| (e.0, e.1@)) =~= pinned(bv));
}

// ---------------------------------------------------------------------------------------------
// The layout
// ---------------------------------------------------------------------------------------------

/// The keys of OBS's scenes, all recommended.
pub open spec fn scene_keys(scenes: Seq<Seq<char>>, current: Seq<char>) -> Seq<(bool, KeyView)> {
    Seq::new(scenes.len(), |i: int| (true, scene_key(i, scenes[i], current)))
}

/// The profile a choice names, as its id and buttons: "empty" and none when there is none.
pub open spec fn chosen(ps: Seq<ProfileView>, choice: Option<int>) -> (Seq<char>, Seq<ButtonView>) {
    match choice {
        Some(i) => (ps[i].id, ps[i].buttons),
        None => ("empty"@, Seq::empty()),
    }
}

/// The keys of the auto layout, re-addressed in their final order: the shown buttons, OBS's
/// scenes on the OBS profile while OBS is connected, recommended ones first, the close key pinned.
pub open spec fn auto_keys(
    ps: Seq<ProfileView>,
    choice: Option<int>,
    disabled: Seq<Seq<char>>,
    obs: ObsState,
) -> Seq<KeyView> {
    let (id, bs) = chosen(ps, choice);
    let base = button_keys(bs, bs.len() as int, disabled, obs);
    let all = if id == "obs"@ && obs.connected {
        base + scene_keys(obs.scenes@.map_values(|s: String| s@), obs.current_scene@)
    } else {
        base
    };
    let ordered = pinned(recommended_first(all));
    Seq::new(ordered.len(), |i: int| crate::config::at_pos(ordered[i].1, i as usize))
}

/// The resolved auto-mode layout, before any client cuts it into pages.
pub struct AutoLayout {
    pub profile_id: String,
    pub app_name: String,
    /// The app's icon as bare base64 PNG, or empty.
    pub app_icon: String,
    pub keys: Vec<Key>,
    /// The master volume and whether it is muted, when there is an audio device.
    pub sys: Option<(u8, bool)>,
}

impl AutoLayout {
    /// The layout as a page, addressed the same way a deck page is, so a press resolves alike in
    /// both modes.
    pub fn as_page(&self) -> (r: Page)
        ensures
            r@ == (PageView { id: self.profile_id@, name: Seq::empty(), keys: key_views(self.keys@) }),
    {
        let keys = crate::config::clone_keys(&self.keys);
        Page { id: self.profile_id.clone(), name: String::new(), keys }
    }

    /// The app's icon as a data URI, or none when there is no icon.
    pub fn app_icon_uri(&self) -> (r: Option<String>)
        ensures
            match r {
                Some(u) => self.app_icon@.len() > 0 && u@ == "data:image/png;base64,"@ + self.app_icon@,
                None => self.app_icon@.len() == 0,
            },
    {
        if self.app_icon.as_str().is_empty() {
            return None;
        }
        let mut u = String::from_str("data:image/png;base64,");
        u.append(self.app_icon.as_str());
        Some(u)
    }
}

/// The keys of OBS's scenes.
fn scene_keys_exec(obs: &ObsState) -> (r: Vec<(bool, Key)>)
    requires
        obs.scenes@.len() < usize::MAX - 1000,
    ensures
        r@.map_values(|e: (bool, Key)| (e.0, e.1@)) == scene_keys(
            obs.scenes@.map_values(|s: String| s@),
            obs.current_scene@,
        ),
{
    let ghost sv = obs.scenes@.map_values(|s: String| s@);
    let mut out: Vec<(bool, Key)> = Vec::new();
    let mut i: usize = 0;
    while i < obs.scenes.len()
        invariant
            i <= obs.scenes@.len(),
            sv == obs.scenes@.map_values(|s: String| s@),
            obs.scenes@.len() < usize::MAX - 1000,
            out@.len() == i,
            forall|k: int|
                0 <= k < i ==> (#[trigger] out@[k]).0 && out@[k].1@ == scene_key(k, sv[k], obs.current_scene@),
        decreases obs.scenes@.len() - i,
    {
        let name = &obs.scenes[i];
        let mut k = Key::empty(1000 + i);
        k.label = name.clone();
        k.icon = String::from_str("scene");
        let mut act = String::from_str("obs:scene:");
        act.append(name.as_str());
        k.action = Some(act);
        k.state = Some(KeyState { on: Some(same(name.as_str(), obs.current_scene.as_str())), running: None });
        k.kind = KeyKind::Action;
        assert(k@ == scene_key(i as int, sv[i as int], obs.current_scene@));
        out.push((true, k));
        i = i + 1;
    }
    assert(out@.map_values(|e: (bool, Key)| (e.0, e.1@)) =~= scene_keys(sv, obs.current_scene@));
    out
}

/// The auto-mode layout for the app in front, from the profile `pick_profile` chose for it: its
/// shown buttons as keys with OBS's live state, OBS's scenes on the OBS profile, recommended keys
/// first, the close key pinned to the third cell. `disabled` lists the actions whose control is
/// disabled in the app right now.
pub fn layout_for(
    profiles: &Vec<Profile>,
    choice: Option<usize>,
    app: &str,
    icon_b64: &str,
    obs: &ObsState,
    disabled: &Vec<String>,
    sys: Option<(u8, bool)>,
) -> (r: AutoLayout)
    requires
        choice matches Some(i) ==> i < profiles@.len(),
        obs.scenes@.len() < usize::MAX - 1000,
    ensures
        r.profile_id@ == chosen(profile_views(profiles@), match choice {
            Some(i) => Some(i as int),
            None => None,
        }).0,
        r.app_name@ == app@,
        r.app_icon@ == icon_b64@,
        key_views(r.keys@) == auto_keys(
            profile_views(profiles@),
            match choice {
                Some(i) => Some(i as int),
                None => None,
            },
            disabled@.map_values(|s: String| s@),
            *obs,
        ),
        r.sys == sys,
{
    let ghost pv = profile_views(profiles@);
    let empty: Vec<Button> = Vec::new();
    let (id, bs): (String, &Vec<Button>) = match choice {
        Some(i) => (profiles[i].id.clone(), &profiles[i].buttons),
        None => (String::from_str("empty"), &empty),
    };
    proof {
        match choice {
            Some(i) => {
                assert(pv[i as int] == profiles@[i as int]@);
            },
            None => {},
        }
        assert(bs@.map_values(|b: Button| b@) =~= chosen(pv, match choice {
            Some(i) => Some(i as int),
            None => None,
        }).1);
    }
    let mut all = button_keys_exec(bs, disabled, obs);
    if same(id.as_str(), "obs") && obs.connected {
        let ghost before = all@.map_values(|e: (bool, Key)| (e.0, e.1@));
        let mut scenes = scene_keys_exec(obs);
        let ghost sc = scenes@.map_values(|e: (bool, Key)| (e.0, e.1@));
        all.append(&mut scenes);
        assert(all@.map_values(|e: (bool, Key)| (e.0, e.1@)) =~= before + sc);
    }
    let mut ordered = recommended_first_exec(all);
    pin_close_app(&mut ordered);
    let ghost ov = ordered@.map_values(|e: (bool, Key)| (e.0, e.1@));
    let mut keys: Vec<Key> = Vec::new();
    let mut i: usize = 0;
    while i < ordered.len()
        invariant
            i <= ordered@.len(),
            ov == ordered@.map_values(|e: (bool, Key)| (e.0, e.1@)),
            keys@.len() == i,
            forall|k: int| 0 <= k < i ==> (#[trigger] keys@[k])@ == crate::config::at_pos(ov[k].1, k as usize),
        decreases ordered@.len() - i,
    {
        let mut k = ordered[i].1.clone();
        k.pos = i;
        keys.push(k);
        i = i + 1;
    }
    assert(key_views(keys@) =~= Seq::new(ov.len(), |i: int| crate::config::at_pos(ov[i].1, i as usize)));
    AutoLayout { profile_id: id, app_name: String::from_str(app), app_icon: String::from_str(icon_b64), keys, sys }
}

/// One picker option with its name in a client's language.
pub open spec fn tr_option(part: Seq<char>, lang: Lang) -> Seq<char> {
    match split_once(part, seq!['=']) {
        Some((name, act)) => translated(lang, trim(name)) + seq!['='] + act,
        None => part,
    }
}

/// Picker options with their names in a client's language.
pub open spec fn tr_options(parts: Seq<Seq<char>>, lang: Lang) -> Seq<Seq<char>>
    decreases parts.len(),
{
    if parts.len() == 0 {
        Seq::empty()
    } else {
        tr_options(parts.drop_last(), lang).push(tr_option(parts.last(), lang))
    }
}

/// An action with a picker's option names in a client's language; any other action as it is.
pub open spec fn tr_action(action: Seq<char>, lang: Lang) -> Seq<char> {
    match strip_prefix(action, "picker:"@) {
        Some(rest) => "picker:"@ + join(tr_options(split(rest, seq![';']), lang), seq![';']),
        None => action,
    }
}

/// An action with a picker's option names in a client's language.
fn tr_action_exec(action: &str, lang: Lang) -> (r: String)
    ensures
        r@ == tr_action(action@, lang),
{
    let a = chars_of(action);
    let rest = match strip_prefix_lit(a.as_slice(), "picker:") {
        Some(r) => r,
        None => {
            return string_of(a.as_slice());
        },
    };
    let parts = split_char(rest.as_slice(), ';');
    let ghost pv = parts@.map_values(|v: Vec<char>| v@);
    let mut out: Vec<Vec<char>> = Vec::new();
    let mut i: usize = 0;
    while i < parts.len()
        invariant
            i <= parts@.len(),
            pv == parts@.map_values(|v: Vec<char>| v@),
            out@.map_values(|v: Vec<char>| v@) == tr_options(pv.subrange(0, i as int), lang),
        decreases parts@.len() - i,
    {
        proof {
            let pre = pv.subrange(0, i + 1);
            assert(pre.drop_last() =~= pv.subrange(0, i as int));
            assert(pre.last() == parts@[i as int]@);
        }
        let ghost before = out@.map_values(|v: Vec<char>| v@);
        let t = match split_once_char(parts[i].as_slice(), '=') {
            Some((name, act)) => {
                let n = trim_exec(name.as_slice());
                let ns = string_of(n.as_slice());
                let tn = chars_of(tr(lang, ns.as_str()));
                let eq = vec!['='];
                let a1 = concat_chars(tn.as_slice(), eq.as_slice());
                concat_chars(a1.as_slice(), act.as_slice())
            },
            None => crate::text::copy_chars(parts[i].as_slice()),
        };
        assert(t@ == tr_option(pv[i as int], lang));
        out.push(t);
        assert(out@.map_values(|v: Vec<char>| v@) =~= before.push(tr_option(pv[i as int], lang)));
        i = i + 1;
    }
    assert(pv.subrange(0, parts@.len() as int) =~= pv);
    let body = join_exec(&out, ';');
    let head = chars_of("picker:");
    let full = concat_chars(head.as_slice(), body.as_slice());
    string_of(full.as_slice())
}

/// A key of an auto page in a client's language: its label, and a picker's option names.
pub open spec fn tr_key(k: KeyView, lang: Lang) -> KeyView {
    KeyView {
        label: translated(lang, k.label),
        action: match k.action {
            Some(a) => Some(tr_action(a, lang)),
            None => None,
        },
        ..k
    }
}

/// One client page of the auto layout, clamped to the pages there are, in the client's language.
pub fn auto_page(a: &AutoLayout, grid: Grid, page: usize, lang: Lang) -> (r: Rendered)
    requires
        grid.wf(),
    ensures
        r.pages == page_count(key_views(a.keys@), grid),
        r.page == drawn_page(key_views(a.keys@), grid, page as int),
        r.keys@.len() == shown(key_views(a.keys@), grid, r.page as int).len(),
        forall|i: int|
            0 <= i < r.keys@.len() ==> (#[trigger] r.keys@[i])@ == tr_key(
                shown(key_views(a.keys@), grid, r.page as int)[i],
                lang,
            ),
{
    let pg = a.as_page();
    let total = pages(&pg, grid);
    let at = if page < total - 1 { page } else { total - 1 };
    let mut keys = keys_for(&pg, grid, at);
    let ghost s = key_views(keys@);
    let mut i: usize = 0;
    while i < keys.len()
        invariant
            i <= keys@.len(),
            s.len() == keys@.len(),
            forall|k: int| 0 <= k < i ==> (#[trigger] keys@[k])@ == tr_key(s[k], lang),
            forall|k: int| i <= k < keys@.len() ==> (#[trigger] keys@[k])@ == s[k],
        decreases keys@.len() - i,
    {
        let mut k = keys[i].clone();
        k.label = own(tr(lang, k.label.as_str()));
        k.action = match &k.action {
            Some(act) => Some(tr_action_exec(act.as_str(), lang)),
            None => None,
        };
        keys.set(i, k);
        i = i + 1;
    }
    Rendered { page: at, pages: total, keys }
}

/// The key closes the app: its action is `alt+F4`, however it was typed.
pub open spec fn is_close_key(b: (bool, KeyView)) -> bool {
    b.1.action matches Some(a) && eq_ignore_ascii_case(a, "alt+F4"@)
}

proof fn lemma_close_index(bs: Seq<(bool, KeyView)>, i: int)
    requires
        0 <= i,
    ensures
        close_index(bs, i) matches Some(k) ==> i <= k < bs.len() && is_close_key(bs[k])
            && forall|j: int| i <= j < k ==> !is_close_key(#[trigger] bs[j]),
        close_index(bs, i) is None ==> forall|j: int| i <= j < bs.len() ==> !is_close_key(#[trigger] bs[j]),
    decreases bs.len() - i,
{
    if i < bs.len() && !is_close_key(bs[i]) {
        lemma_close_index(bs, i + 1);
    }
}

/// Pinning is stable: with one key that closes the app, pinning an already pinned pad changes
/// nothing, so the poll that re-pins it twice a second never rotates it.
pub proof fn law_pinning_twice_is_pinning_once(bs: Seq<(bool, KeyView)>)
    requires
        forall|i: int, j: int|
            0 <= i < bs.len() && 0 <= j < bs.len() && is_close_key(#[trigger] bs[i]) && is_close_key(
                #[trigger] bs[j],
            ) ==> i == j,
    ensures
        pinned(pinned(bs)) == pinned(bs),
{
    lemma_close_index(bs, 0);
    if let Some(at) = close_index(bs, 0) {
        let rest = bs.remove(at);
        let to = if rest.len() < 2 { rest.len() as int } else { 2 };
        let p = rest.insert(to, bs[at]);
        assert forall|j: int| 0 <= j < p.len() && j != to implies !is_close_key(#[trigger] p[j]) by {
            if j < to {
                assert(p[j] == rest[j]);
            } else {
                assert(p[j] == rest[j - 1]);
            }
            let k = if j < to { j } else { j - 1 };
            if k < at {
                assert(rest[k] == bs[k]);
            } else {
                assert(rest[k] == bs[k + 1]);
            }
        }
        lemma_close_index(p, 0);
        assert(p[to] == bs[at]);
        assert(close_index(p, 0) == Some(to));
        assert(p.remove(to) =~= rest);
    }
}

/// Whether an entry's recommended flag is `rec`.
pub open spec fn flag_is(rec: bool) -> spec_fn((bool, KeyView)) -> bool {
    |e: (bool, KeyView)| e.0 == rec
}

/// The entries `with_rec` keeps are exactly the ones carrying that flag, in order.
proof fn lemma_with_rec(bs: Seq<(bool, KeyView)>, rec: bool)
    ensures
        with_rec(bs, rec) == bs.filter(flag_is(rec)),
        forall|i: int| 0 <= i < with_rec(bs, rec).len() ==> (#[trigger] with_rec(bs, rec)[i]).0 == rec,
    decreases bs.len(),
{
    reveal(Seq::filter);
    if bs.len() > 0 {
        lemma_with_rec(bs.drop_last(), rec);
        let w = with_rec(bs.drop_last(), rec);
        if bs.last().0 == rec {
            assert forall|i: int| 0 <= i < w.push(bs.last()).len() implies (#[trigger] w.push(
                bs.last(),
            )[i]).0 == rec by {
                if i < w.len() {
                    assert(w.push(bs.last())[i] == w[i]);
                }
            }
        }
    }
}

/// Before the close key is pinned, the auto layout puts every key from a recommended button
/// before every key from an extra one, so the first page is the profile's chosen selection and
/// extras spill over to later pages. Each group keeps the order the profile gave it, and nothing
/// is lost or added.
pub proof fn law_recommended_keys_come_first(bs: Seq<(bool, KeyView)>)
    ensures
        recommended_first(bs) == bs.filter(flag_is(true)) + bs.filter(flag_is(false)),
        forall|i: int, j: int|
            0 <= i < j < recommended_first(bs).len() && !(#[trigger] recommended_first(bs)[i]).0
                ==> !(#[trigger] recommended_first(bs)[j]).0,
        forall|i: int| 0 <= i < bs.filter(flag_is(true)).len() ==> (#[trigger] recommended_first(bs)[i]).0,
{
    lemma_with_rec(bs, true);
    lemma_with_rec(bs, false);
    let y = with_rec(bs, true);
    let n = with_rec(bs, false);
    let r = recommended_first(bs);
    assert forall|i: int, j: int|
        0 <= i < j < r.len() && !(#[trigger] r[i]).0 implies !(#[trigger] r[j]).0 by {
        if i < y.len() {
            assert(r[i] == y[i]);
        }
        assert(r[j] == n[j - y.len()]);
    }
    assert forall|i: int| 0 <= i < y.len() implies (#[trigger] r[i]).0 by {
        assert(r[i] == y[i]);
    }
}

} // verus!
