//! Two-state keys. A key with a `toggle` face shows either its own face or that one, and which is
//! showing is a running fact, not a preference: the host remembers the ON faces by address in
//! memory, and a restart shows every key OFF. Where something live knows the truth (OBS knows
//! whether it is recording), the truth wins over memory.
use vstd::prelude::*;

use crate::config::{clone_opt, opt_view, Deck, DeckView, Key, KeyState, KeyView, deck_views};
use crate::state::ObsState;
use crate::text::{chars_of, decimal, is, push_decimal, same, strip_prefix, strip_prefix_lit};

verus! {

/// A key's identity for its face: the deck, the page and the ABSOLUTE position in that page, so
/// two clients with different grids agree on which face is showing.
pub open spec fn addr_of(deck_id: Seq<char>, page_id: Seq<char>, pos: usize) -> Seq<char> {
    deck_id + seq!['/'] + page_id + seq!['/'] + decimal(pos as nat)
}

/// A key's identity for its face.
pub fn addr(deck_id: &str, page_id: &str, pos: usize) -> (r: String)
    ensures
        r@ == addr_of(deck_id@, page_id@, pos),
{
    let mut s = String::from_str(deck_id);
    s.append("/");
    s.append(page_id);
    s.append("/");
    push_decimal(&mut s, pos as u64);
    proof {
        reveal_strlit("/");
    }
    assert(s@ =~= addr_of(deck_id@, page_id@, pos));
    s
}

/// The addresses showing their ON face, as a list that names each at most once.
pub open spec fn face_set(set: Seq<String>) -> Seq<Seq<char>> {
    set.map_values(|s: String| s@)
}

/// Whether the key at `at` shows its ON face, by memory alone.
pub fn is_on(set: &Vec<String>, at: &str) -> (r: bool)
    ensures
        r == face_set(set@).contains(at@),
{
    let mut i: usize = 0;
    while i < set.len()
        invariant
            i <= set@.len(),
            forall|k: int| 0 <= k < i ==> set@[k]@ != at@,
        decreases set@.len() - i,
    {
        if same(set[i].as_str(), at) {
            assert(face_set(set@)[i as int] == at@);
            return true;
        }
        i = i + 1;
    }
    assert forall|k: int| 0 <= k < face_set(set@).len() implies face_set(set@)[k] != at@ by {
        assert(face_set(set@)[k] == set@[k]@);
    }
    false
}

/// Flips the face at `at`: an ON face goes OFF and is forgotten, an OFF one comes ON and is
/// remembered. Returns the new state. The list still names each address at most once.
pub fn flip(set: &mut Vec<String>, at: &str) -> (r: bool)
    requires
        face_set(old(set)@).no_duplicates(),
    ensures
        r == !face_set(old(set)@).contains(at@),
        face_set(final(set)@).no_duplicates(),
        flipped(face_set(old(set)@), at@, face_set(final(set)@)),
{
    let ghost before = face_set(set@);
    let mut i: usize = 0;
    while i < set.len()
        invariant
            i <= set@.len(),
            before == face_set(set@),
            before == face_set(old(set)@),
            before.no_duplicates(),
            forall|k: int| 0 <= k < i ==> set@[k]@ != at@,
        decreases set@.len() - i,
    {
        if same(set[i].as_str(), at) {
            let ghost j = i as int;
            assert(before[j] == at@);
            assert(before.contains(at@));
            set.remove(i);
            proof {
                let after = face_set(set@);
                assert(after =~= before.remove(j));
                assert forall|x: Seq<char>| #[trigger] after.contains(x) == if x == at@ {
                    false
                } else {
                    before.contains(x)
                } by {
                    if after.contains(x) {
                        let k = choose|k: int| 0 <= k < after.len() && after[k] == x;
                        if k < j {
                            assert(before[k] == x);
                            if x == at@ {
                                assert(before[k] == before[j]);
                            }
                        } else {
                            assert(before[k + 1] == x);
                            if x == at@ {
                                assert(before[k + 1] == before[j]);
                            }
                        }
                    }
                    if x != at@ && before.contains(x) {
                        let k = choose|k: int| 0 <= k < before.len() && before[k] == x;
                        if k < j {
                            assert(after[k] == x);
                        } else {
                            assert(k != j);
                            assert(after[k - 1] == x);
                        }
                    }
                }
                assert forall|a: int, b: int| 0 <= a < after.len() && 0 <= b < after.len() && a
                    != b implies after[a] != after[b] by {
                    let a2 = if a < j { a } else { a + 1 };
                    let b2 = if b < j { b } else { b + 1 };
                    assert(after[a] == before[a2] && after[b] == before[b2]);
                }
            }
            return false;
        }
        i = i + 1;
    }
    assert(!before.contains(at@)) by {
        if before.contains(at@) {
            let k = choose|k: int| 0 <= k < before.len() && before[k] == at@;
            assert(before[k] == set@[k]@);
        }
    }
    set.push(String::from_str(at));
    proof {
        let after = face_set(set@);
        assert(after =~= before.push(at@));
        assert forall|x: Seq<char>| #[trigger] after.contains(x) == if x == at@ {
            true
        } else {
            before.contains(x)
        } by {
            if after.contains(x) && x != at@ {
                let k = choose|k: int| 0 <= k < after.len() && after[k] == x;
                assert(k < before.len());
                assert(before[k] == x);
            }
            if before.contains(x) {
                let k = choose|k: int| 0 <= k < before.len() && before[k] == x;
                assert(after[k] == x);
            }
            assert(after[before.len() as int] == at@);
        }
        assert forall|a: int, b: int| 0 <= a < after.len() && 0 <= b < after.len() && a != b
            implies after[a] != after[b] by {
            if a < before.len() && b < before.len() {
                assert(after[a] == before[a] && after[b] == before[b]);
            } else if a < before.len() {
                assert(after[a] == before[a]);
            } else if b < before.len() {
                assert(after[b] == before[b]);
            }
        }
    }
    true
}

/// What OBS says about a key's action, when the action is one OBS can answer for and OBS is
/// connected: whether it records, streams, runs its replay buffer, has the microphone muted, or
/// has this scene on air. A chain (`obs:record>>wait:100`) does more than OBS can speak for.
pub open spec fn live_on_spec(action: Seq<char>, obs: ObsState) -> Option<bool> {
    match strip_prefix(action, "obs:"@) {
        None => None,
        Some(cmd) => if !obs.connected {
            None
        } else if cmd == "record"@ {
            Some(obs.recording)
        } else if cmd == "stream"@ {
            Some(obs.streaming)
        } else if cmd == "replaybuffer"@ {
            Some(obs.replay_active)
        } else if cmd == "mic"@ {
            Some(obs.mic_muted)
        } else {
            match strip_prefix(cmd, "scene:"@) {
                Some(name) => Some(obs.current_scene@ == name),
                None => None,
            }
        },
    }
}

/// What OBS says about an action.
pub fn live_on(action: &str, obs: &ObsState) -> (r: Option<bool>)
    ensures
        r == live_on_spec(action@, *obs),
{
    let a = chars_of(action);
    let cmd = match strip_prefix_lit(a.as_slice(), "obs:") {
        Some(c) => c,
        None => {
            return None;
        },
    };
    if !obs.connected {
        return None;
    }
    let c = cmd.as_slice();
    if is(c, "record") {
        Some(obs.recording)
    } else if is(c, "stream") {
        Some(obs.streaming)
    } else if is(c, "replaybuffer") {
        Some(obs.replay_active)
    } else if is(c, "mic") {
        Some(obs.mic_muted)
    } else {
        match strip_prefix_lit(c, "scene:") {
            Some(name) => {
                let cur = chars_of(obs.current_scene.as_str());
                Some(crate::text::chars_eq(cur.as_slice(), name.as_slice()))
            },
            None => None,
        }
    }
}

/// What something live says about a key's face: `Some` exactly when its state is owned outside
/// the host, and then it must not also be remembered here.
pub open spec fn live_face_spec(key: KeyView, obs: ObsState) -> Option<bool> {
    match key.action {
        Some(a) => live_on_spec(a, obs),
        None => None,
    }
}

/// What something live says about a key's face.
pub fn live_face(key: &Key, obs: &ObsState) -> (r: Option<bool>)
    ensures
        r == live_face_spec(key@, *obs),
{
    match &key.action {
        Some(a) => live_on(a.as_str(), obs),
        None => None,
    }
}

/// Whether a key's ON face is showing: the truth when something live knows it, memory otherwise.
pub open spec fn face_on(key: KeyView, at: Seq<char>, set: Seq<Seq<char>>, obs: ObsState) -> bool {
    match live_face_spec(key, obs) {
        Some(v) => v,
        None => set.contains(at),
    }
}

/// Whether a key's ON face is showing.
pub fn face_is_on(key: &Key, at: &str, set: &Vec<String>, obs: &ObsState) -> (r: bool)
    ensures
        r == face_on(key@, at@, face_set(set@), *obs),
{
    match live_face(key, obs) {
        Some(v) => v,
        None => is_on(set, at),
    }
}

/// The action a two-state key runs now: the showing face's, where that face has one of its own;
/// otherwise the key's own.
pub open spec fn showing(key: KeyView, on: bool) -> Option<Seq<char>> {
    if on && key.toggle is Some && key.toggle->0.action is Some {
        key.toggle->0.action
    } else {
        key.action
    }
}

/// The action a two-state key runs now.
pub fn showing_action(key: &Key, on: bool) -> (r: Option<String>)
    ensures
        opt_view(r) == showing(key@, on),
{
    if on {
        if let Some(face) = &key.toggle {
            if let Some(action) = &face.action {
                return Some(action.clone());
            }
        }
    }
    clone_opt(&key.action)
}

/// A key wearing the face that shows, its spare face dropped so it never reaches a client, and
/// its state saying which face that is. Each field of the ON face overrides only itself; naming
/// an icon drops the image the OFF face carried. A key with one face is left as it is.
pub open spec fn worn(key: KeyView, on: bool) -> KeyView {
    match key.toggle {
        None => key,
        Some(face) => {
            let k = if on {
                let label = if face.label.len() > 0 { face.label } else { key.label };
                let icon = if face.icon.len() > 0 { face.icon } else { key.icon };
                let image = if face.image is Some {
                    face.image
                } else if face.icon.len() > 0 {
                    None
                } else {
                    key.image
                };
                let color = if face.color is Some { face.color } else { key.color };
                let action = if face.action is Some { face.action } else { key.action };
                KeyView { label, icon, image, color, action, ..key }
            } else {
                key
            };
            let running = match key.state {
                Some(st) => st.running,
                None => None,
            };
            KeyView { toggle: None, state: Some(KeyState { on: Some(on), running }), ..k }
        },
    }
}

/// Paints the face that shows over a key.
pub fn wear_face(key: &mut Key, on: bool)
    ensures
        final(key)@ == worn(old(key)@, on),
{
    let face = match key.toggle.take() {
        Some(f) => f,
        None => {
            return;
        },
    };
    if on {
        if !face.label.as_str().is_empty() {
            key.label = face.label;
        }
        if !face.icon.as_str().is_empty() {
            key.icon = face.icon;
            key.image = None;
        }
        if face.image.is_some() {
            key.image = face.image;
        }
        if face.color.is_some() {
            key.color = face.color;
        }
        if let Some(action) = face.action {
            key.action = Some(action);
        }
    }
    let running = match &key.state {
        Some(st) => st.running,
        None => None,
    };
    key.state = Some(KeyState { on: Some(on), running });
}

/// The addresses of the two-state keys among `keys` of a page, in order.
pub open spec fn key_addrs(deck_id: Seq<char>, page_id: Seq<char>, keys: Seq<KeyView>) -> Seq<
    Seq<char>,
>
    decreases keys.len(),
{
    if keys.len() == 0 {
        Seq::empty()
    } else {
        let rest = key_addrs(deck_id, page_id, keys.drop_last());
        if keys.last().toggle is Some {
            rest.push(addr_of(deck_id, page_id, keys.last().pos))
        } else {
            rest
        }
    }
}

/// The addresses of the two-state keys among `pages` of a deck, in order.
pub open spec fn page_addrs(deck_id: Seq<char>, pages: Seq<crate::config::PageView>) -> Seq<Seq<char>>
    decreases pages.len(),
{
    if pages.len() == 0 {
        Seq::empty()
    } else {
        page_addrs(deck_id, pages.drop_last()) + key_addrs(deck_id, pages.last().id, pages.last().keys)
    }
}

/// The addresses of every two-state key of `decks`, in order.
pub open spec fn deck_addrs(decks: Seq<DeckView>) -> Seq<Seq<char>>
    decreases decks.len(),
{
    if decks.len() == 0 {
        Seq::empty()
    } else {
        deck_addrs(decks.drop_last()) + page_addrs(decks.last().id, decks.last().pages)
    }
}

/// What a prefix one longer holds: what the shorter one does and the new last entry.
proof fn lemma_prefix_contains(s: Seq<Seq<char>>, i: int)
    requires
        0 <= i < s.len(),
    ensures
        forall|x: Seq<char>|
            #[trigger] s.subrange(0, i + 1).contains(x) == (s.subrange(0, i).contains(x) || x == s[i]),
{
    let long = s.subrange(0, i + 1);
    let short = s.subrange(0, i);
    assert forall|x: Seq<char>| #[trigger] long.contains(x) == (short.contains(x) || x == s[i]) by {
        if long.contains(x) {
            let k = choose|k: int| 0 <= k < i + 1 && #[trigger] long[k] == x;
            if k < i {
                assert(short[k] == x);
            }
        }
        if short.contains(x) {
            let k = choose|k: int| 0 <= k < i && #[trigger] short[k] == x;
            assert(long[k] == x);
        }
        if x == s[i] {
            assert(long[i] == x);
        }
    }
}

/// Every address a two-state key of these decks has, each once.
pub fn live_faces(decks: &Vec<Deck>) -> (r: Vec<String>)
    ensures
        face_set(r@).no_duplicates(),
        forall|x: Seq<char>| #[trigger] face_set(r@).contains(x) == deck_addrs(deck_views(decks@)).contains(x),
{
    let ghost dv = deck_views(decks@);
    let mut all: Vec<String> = Vec::new();
    let mut i: usize = 0;
    while i < decks.len()
        invariant
            i <= decks@.len(),
            dv == deck_views(decks@),
            face_set(all@) == deck_addrs(dv.subrange(0, i as int)),
        decreases decks@.len() - i,
    {
        let d = &decks[i];
        let ghost base = face_set(all@);
        let mut j: usize = 0;
        while j < d.pages.len()
            invariant
                j <= d@.pages.len(),
                face_set(all@) == base + page_addrs(d@.id, d@.pages.subrange(0, j as int)),
            decreases d@.pages.len() - j,
        {
            let p = &d.pages[j];
            assert(d@.pages[j as int] == p@);
            let ghost mid = face_set(all@);
            let mut k: usize = 0;
            while k < p.keys.len()
                invariant
                    k <= p@.keys.len(),
                    face_set(all@) == mid + key_addrs(d@.id, p@.id, p@.keys.subrange(0, k as int)),
                decreases p@.keys.len() - k,
            {
                let ghost before = face_set(all@);
                proof {
                    let pre = p@.keys.subrange(0, k + 1);
                    assert(pre.drop_last() =~= p@.keys.subrange(0, k as int));
                    assert(pre.last() == p.keys@[k as int]@);
                }
                if p.keys[k].toggle.is_some() {
                    let a = addr(d.id.as_str(), p.id.as_str(), p.keys[k].pos);
                    all.push(a);
                    assert(face_set(all@) =~= before.push(addr_of(d@.id, p@.id, p.keys@[k as int]@.pos)));
                }
                k = k + 1;
            }
            proof {
                assert(p@.keys.subrange(0, p@.keys.len() as int) =~= p@.keys);
                let pre = d@.pages.subrange(0, j + 1);
                assert(pre.drop_last() =~= d@.pages.subrange(0, j as int));
                assert(face_set(all@) =~= base + page_addrs(d@.id, pre));
            }
            j = j + 1;
        }
        proof {
            assert(d@.pages.subrange(0, d@.pages.len() as int) =~= d@.pages);
            let pre = dv.subrange(0, i + 1);
            assert(pre.drop_last() =~= dv.subrange(0, i as int));
            assert(pre.last() == d@);
            assert(face_set(all@) =~= deck_addrs(pre));
        }
        i = i + 1;
    }
    assert(dv.subrange(0, decks@.len() as int) =~= dv);
    let ghost full = face_set(all@);
    let mut out: Vec<String> = Vec::new();
    let mut i: usize = 0;
    while i < all.len()
        invariant
            i <= all@.len(),
            full == face_set(all@),
            face_set(out@).no_duplicates(),
            forall|x: Seq<char>| #[trigger] face_set(out@).contains(x) == full.subrange(0, i as int).contains(x),
        decreases all@.len() - i,
    {
        let ghost before = face_set(out@);
        proof {
            lemma_prefix_contains(full, i as int);
        }
        if !is_on(&out, all[i].as_str()) {
            out.push(all[i].clone());
            proof {
                let after = face_set(out@);
                assert(after =~= before.push(full[i as int]));
                assert forall|a: int, b: int| 0 <= a < after.len() && 0 <= b < after.len() && a
                    != b implies after[a] != after[b] by {
                    if a < before.len() && b < before.len() {
                        assert(after[a] == before[a] && after[b] == before[b]);
                    } else if a < before.len() {
                        assert(after[a] == before[a]);
                        assert(before.contains(after[a]));
                    } else if b < before.len() {
                        assert(after[b] == before[b]);
                        assert(before.contains(after[b]));
                    }
                }
                assert forall|x: Seq<char>| #[trigger] after.contains(x) == (before.contains(x) || x
                    == full[i as int]) by {
                    if after.contains(x) {
                        let k = choose|k: int| 0 <= k < after.len() && after[k] == x;
                        if k < before.len() {
                            assert(before[k] == x);
                        }
                    }
                    if before.contains(x) {
                        let k = choose|k: int| 0 <= k < before.len() && before[k] == x;
                        assert(after[k] == x);
                    }
                    if x == full[i as int] {
                        assert(after[before.len() as int] == x);
                    }
                }
            }
        }
        i = i + 1;
    }
    assert(full.subrange(0, all@.len() as int) =~= full);
    out
}

/// Forgets the remembered faces that no longer belong to a two-state key, after the decks were
/// edited: a key that lost its second face, or a page or deck that is gone, must not come back
/// ON when a toggle is put at that address again.
pub fn forget_orphans(set: &mut Vec<String>, decks: &Vec<Deck>)
    requires
        face_set(old(set)@).no_duplicates(),
    ensures
        face_set(final(set)@).no_duplicates(),
        forall|x: Seq<char>|
            #[trigger] face_set(final(set)@).contains(x) == (face_set(old(set)@).contains(x)
                && deck_addrs(deck_views(decks@)).contains(x)),
{
    let live = live_faces(decks);
    let ghost before = face_set(set@);
    let mut out: Vec<String> = Vec::new();
    let mut i: usize = 0;
    while i < set.len()
        invariant
            i <= set@.len(),
            before == face_set(set@),
            before.no_duplicates(),
            face_set(out@).no_duplicates(),
            forall|x: Seq<char>|
                #[trigger] face_set(out@).contains(x) == (before.subrange(0, i as int).contains(x)
                    && face_set(live@).contains(x)),
        decreases set@.len() - i,
    {
        let ghost prev = face_set(out@);
        proof {
            lemma_prefix_contains(before, i as int);
            assert(!before.subrange(0, i as int).contains(before[i as int])) by {
                if before.subrange(0, i as int).contains(before[i as int]) {
                    let sub = before.subrange(0, i as int);
                    let k = choose|k: int| 0 <= k < i && #[trigger] sub[k] == before[i as int];
                    assert(before[k] == before[i as int]);
                }
            }
        }
        if is_on(&live, set[i].as_str()) {
            out.push(set[i].clone());
            proof {
                let after = face_set(out@);
                assert(after =~= prev.push(before[i as int]));
                assert(!prev.contains(before[i as int]));
                assert forall|a: int, b: int| 0 <= a < after.len() && 0 <= b < after.len() && a
                    != b implies after[a] != after[b] by {
                    if a < prev.len() && b < prev.len() {
                        assert(after[a] == prev[a] && after[b] == prev[b]);
                    } else if a < prev.len() {
                        assert(after[a] == prev[a]);
                        assert(prev.contains(after[a]));
                    } else if b < prev.len() {
                        assert(after[b] == prev[b]);
                        assert(prev.contains(after[b]));
                    }
                }
                assert forall|x: Seq<char>| #[trigger] after.contains(x) == (prev.contains(x) || x
                    == before[i as int]) by {
                    if after.contains(x) {
                        let k = choose|k: int| 0 <= k < after.len() && after[k] == x;
                        if k < prev.len() {
                            assert(prev[k] == x);
                        }
                    }
                    if prev.contains(x) {
                        let k = choose|k: int| 0 <= k < prev.len() && prev[k] == x;
                        assert(after[k] == x);
                    }
                    if x == before[i as int] {
                        assert(after[prev.len() as int] == x);
                    }
                }
            }
        }
        i = i + 1;
    }
    assert(before.subrange(0, set@.len() as int) =~= before);
    *set = out;
}

/// `after` is `before` with the face at `at` flipped: that address changes state, no other does.
pub open spec fn flipped(before: Seq<Seq<char>>, at: Seq<char>, after: Seq<Seq<char>>) -> bool {
    forall|x: Seq<char>| #[trigger] after.contains(x) == if x == at {
        !before.contains(at)
    } else {
        before.contains(x)
    }
}

/// Flipping a face twice puts every face back as it was.
pub proof fn law_flipping_twice_restores(
    s: Seq<Seq<char>>,
    at: Seq<char>,
    t: Seq<Seq<char>>,
    u: Seq<Seq<char>>,
)
    requires
        flipped(s, at, t),
        flipped(t, at, u),
    ensures
        forall|x: Seq<char>| #[trigger] u.contains(x) == s.contains(x),
{
    assert forall|x: Seq<char>| #[trigger] u.contains(x) == s.contains(x) by {
        assert(u.contains(x) == if x == at { !t.contains(at) } else { t.contains(x) });
        assert(t.contains(at) == !s.contains(at));
    }
}

} // verus!
