//! What the host seeds and keeps current in the stored decks: the starter deck, the Launcher built
//! from the machine's recent apps, and the additive migration that brings old configs forward.
use vstd::prelude::*;

use crate::config::{
    deck_views, empty_key, face_view, opt_view, Deck, DeckView, Face, Key, KeyKind, KeyState,
    KeyView, Page, PageView,
};
use crate::apps::{App, AppView};
use crate::config::Profile;
use crate::pairing::{device_views, hex, is_token, new_host_id, new_token, Device};
use crate::text::{chars_of, is_prefix, own, same, starts_with, to_lowercase, unicode_lower};

verus! {

// ---------------------------------------------------------------------------------------------
// Equality by contents
// ---------------------------------------------------------------------------------------------

fn opt_str_eq(a: &Option<String>, b: &Option<String>) -> (r: bool)
    ensures
        r == (opt_view(*a) == opt_view(*b)),
{
    match (a, b) {
        (Some(x), Some(y)) => same(x.as_str(), y.as_str()),
        (None, None) => true,
        _ => false,
    }
}

fn opt_bool_eq(a: Option<bool>, b: Option<bool>) -> (r: bool)
    ensures
        r == (a == b),
{
    match (a, b) {
        (Some(x), Some(y)) => x == y,
        (None, None) => true,
        _ => false,
    }
}

fn state_eq(a: Option<KeyState>, b: Option<KeyState>) -> (r: bool)
    ensures
        r == (a == b),
{
    match (a, b) {
        (Some(x), Some(y)) => opt_bool_eq(x.on, y.on) && opt_bool_eq(x.running, y.running),
        (None, None) => true,
        _ => false,
    }
}

fn face_eq(a: &Option<Face>, b: &Option<Face>) -> (r: bool)
    ensures
        r == (face_view(*a) == face_view(*b)),
{
    match (a, b) {
        (Some(x), Some(y)) => same(x.label.as_str(), y.label.as_str()) && same(
            x.icon.as_str(),
            y.icon.as_str(),
        ) && opt_str_eq(&x.image, &y.image) && opt_str_eq(&x.color, &y.color) && opt_str_eq(
            &x.action,
            &y.action,
        ),
        (None, None) => true,
        _ => false,
    }
}

fn key_eq(a: &Key, b: &Key) -> (r: bool)
    ensures
        r == (a@ == b@),
{
    a.pos == b.pos && same(a.label.as_str(), b.label.as_str()) && same(
        a.icon.as_str(),
        b.icon.as_str(),
    ) && opt_str_eq(&a.image, &b.image) && opt_str_eq(&a.color, &b.color) && opt_str_eq(
        &a.icon_color,
        &b.icon_color,
    ) && opt_str_eq(&a.action, &b.action) && opt_str_eq(&a.hold, &b.hold) && opt_str_eq(
        &a.double,
        &b.double,
    ) && face_eq(&a.toggle, &b.toggle) && opt_str_eq(&a.target, &b.target) && a.danger
        == b.danger && state_eq(a.state, b.state) && a.kind == b.kind
}

fn page_eq(a: &Page, b: &Page) -> (r: bool)
    ensures
        r == (a@ == b@),
{
    if !same(a.id.as_str(), b.id.as_str()) || !same(a.name.as_str(), b.name.as_str()) {
        return false;
    }
    if a.keys.len() != b.keys.len() {
        assert(a@.keys.len() != b@.keys.len());
        return false;
    }
    let mut i: usize = 0;
    while i < a.keys.len()
        invariant
            i <= a.keys.len(),
            a.keys.len() == b.keys.len(),
            forall|j: int| 0 <= j < i ==> a@.keys[j] == b@.keys[j],
        decreases a.keys.len() - i,
    {
        if !key_eq(&a.keys[i], &b.keys[i]) {
            assert(a@.keys[i as int] != b@.keys[i as int]);
            return false;
        }
        i = i + 1;
    }
    assert(a@.keys =~= b@.keys);
    true
}

/// Whether two decks hold the same contents.
pub fn deck_eq(a: &Deck, b: &Deck) -> (r: bool)
    ensures
        r == (a@ == b@),
{
    if !same(a.id.as_str(), b.id.as_str()) || !same(a.name.as_str(), b.name.as_str()) || !same(
        a.icon.as_str(),
        b.icon.as_str(),
    ) {
        return false;
    }
    if a.pages.len() != b.pages.len() {
        assert(a@.pages.len() != b@.pages.len());
        return false;
    }
    let mut i: usize = 0;
    while i < a.pages.len()
        invariant
            i <= a.pages.len(),
            a.pages.len() == b.pages.len(),
            forall|j: int| 0 <= j < i ==> a@.pages[j] == b@.pages[j],
        decreases a.pages.len() - i,
    {
        if !page_eq(&a.pages[i], &b.pages[i]) {
            assert(a@.pages[i as int] != b@.pages[i as int]);
            return false;
        }
        i = i + 1;
    }
    assert(a@.pages =~= b@.pages);
    true
}

// ---------------------------------------------------------------------------------------------
// Replacing the Launcher
// ---------------------------------------------------------------------------------------------

/// The id reserved for the generated Launcher deck.
pub open spec fn launcher_id() -> Seq<char> {
    "launcher"@
}

/// The index of the first deck with this id.
pub open spec fn deck_index(decks: Seq<DeckView>, id: Seq<char>) -> Option<int>
    decreases decks.len(),
{
    if decks.len() == 0 {
        None
    } else if decks[0].id == id {
        Some(0)
    } else {
        match deck_index(decks.drop_first(), id) {
            Some(i) => Some(i + 1),
            None => None,
        }
    }
}

/// `deck_index` names the first deck with that id, and `None` means there is none.
pub proof fn lemma_deck_index(decks: Seq<DeckView>, id: Seq<char>)
    ensures
        deck_index(decks, id) matches Some(i) ==> 0 <= i < decks.len() && decks[i].id == id
            && forall|j: int| 0 <= j < i ==> decks[j].id != id,
        deck_index(decks, id) is None ==> forall|j: int| 0 <= j < decks.len() ==> decks[j].id != id,
    decreases decks.len(),
{
    if decks.len() > 0 && decks[0].id != id {
        lemma_deck_index(decks.drop_first(), id);
        assert forall|j: int| 1 <= j < decks.len() implies decks[j] == decks.drop_first()[j - 1] by {}
    }
}

/// The position of the first deck with this id.
pub fn find_deck(decks: &Vec<Deck>, id: &str) -> (r: Option<usize>)
    ensures
        r matches Some(i) ==> deck_index(deck_views(decks@), id@) == Some(i as int),
        r is None ==> deck_index(deck_views(decks@), id@) is None,
{
    let ghost ds = deck_views(decks@);
    proof {
        lemma_deck_index(ds, id@);
    }
    let mut i: usize = 0;
    while i < decks.len()
        invariant
            i <= decks.len(),
            ds == deck_views(decks@),
            forall|j: int| 0 <= j < i ==> ds[j].id != id@,
            deck_index(ds, id@) matches Some(k) ==> 0 <= k < ds.len() && ds[k].id == id@ && forall|
                j: int,
            | 0 <= j < k ==> ds[j].id != id@,
            deck_index(ds, id@) is None ==> forall|j: int| 0 <= j < ds.len() ==> ds[j].id != id@,
        decreases decks.len() - i,
    {
        if same(decks[i].id.as_str(), id) {
            assert(ds[i as int].id == id@);
            return Some(i);
        }
        i = i + 1;
    }
    None
}

/// The decks after the Launcher is brought up to date: the first deck with the reserved id
/// becomes `next` (or goes, when there is no Launcher to offer), or `next` is appended when there
/// was none. Returns whether anything changed.
pub open spec fn replaced(decks: Seq<DeckView>, next: Option<DeckView>) -> (Seq<DeckView>, bool) {
    match (deck_index(decks, launcher_id()), next) {
        (Some(i), Some(n)) => if decks[i] == n {
            (decks, false)
        } else {
            (decks.update(i, n), true)
        },
        (Some(i), None) => (decks.remove(i), true),
        (None, Some(n)) => (decks.push(n), true),
        (None, None) => (decks, false),
    }
}

/// An optional deck by its contents.
pub open spec fn opt_deck_view(d: Option<Deck>) -> Option<DeckView> {
    match d {
        Some(d) => Some(d@),
        None => None,
    }
}

/// Replaces the automatic Launcher. The id is reserved: the Launcher is derived from the machine's
/// recent applications and is not the user's content, so a deck of that id is overwritten.
/// Returns whether the stored decks changed.
pub fn replace_launcher(decks: &mut Vec<Deck>, next: Option<Deck>) -> (changed: bool)
    ensures
        (deck_views(final(decks)@), changed) == replaced(deck_views(old(decks)@), opt_deck_view(next)),
{
    let ghost before = deck_views(decks@);
    proof {
        lemma_deck_index(before, launcher_id());
        reveal_strlit("launcher");
    }
    let index = find_deck(decks, "launcher");
    match (index, next) {
        (Some(i), Some(n)) => {
            if deck_eq(&decks[i], &n) {
                return false;
            }
            let ghost nv = n@;
            decks.set(i, n);
            assert(deck_views(decks@) =~= before.update(i as int, nv));
        },
        (Some(i), None) => {
            decks.remove(i);
            assert(deck_views(decks@) =~= before.remove(i as int));
        },
        (None, Some(n)) => {
            let ghost nv = n@;
            decks.push(n);
            assert(deck_views(decks@) =~= before.push(nv));
        },
        (None, None) => {
            return false;
        },
    }
    true
}

/// Bringing the Launcher up to date twice in a row changes nothing the second time: the
/// refresh that runs on every foreground change only saves and re-sends when the Launcher
/// really changed. (Deck ids are distinct in any deck list that validates.)
pub proof fn law_refreshing_twice_changes_nothing(decks: Seq<DeckView>, next: Option<DeckView>)
    requires
        next matches Some(n) ==> n.id == launcher_id(),
        forall|i: int, j: int|
            0 <= i < decks.len() && 0 <= j < decks.len() && (#[trigger] decks[i]).id == launcher_id()
                && (#[trigger] decks[j]).id == launcher_id() ==> i == j,
    ensures
        replaced(replaced(decks, next).0, next) == (replaced(decks, next).0, false),
{
    lemma_deck_index(decks, launcher_id());
    let once = replaced(decks, next).0;
    match (deck_index(decks, launcher_id()), next) {
        (Some(i), Some(n)) => {
            assert(once[i].id == launcher_id());
            assert forall|j: int| 0 <= j < i implies once[j].id != launcher_id() by {
                assert(once[j] == decks[j]);
            }
            lemma_deck_index(once, launcher_id());
            assert(deck_index(once, launcher_id()) == Some(i)) by {
                if let Some(k) = deck_index(once, launcher_id()) {
                    if k > i {
                        assert(once[i].id == launcher_id());
                    }
                }
            }
        },
        (Some(i), None) => {
            lemma_deck_index(once, launcher_id());
            assert forall|j: int| 0 <= j < once.len() implies once[j].id != launcher_id() by {
                if j < i {
                    assert(once[j] == decks[j]);
                } else {
                    assert(once[j] == decks[j + 1]);
                    assert(decks[i].id == launcher_id());
                }
            }
        },
        (None, Some(n)) => {
            lemma_deck_index(once, launcher_id());
            assert(once[decks.len() as int] == n);
            assert(deck_index(once, launcher_id()) == Some(decks.len() as int)) by {
                if let Some(k) = deck_index(once, launcher_id()) {
                    if k < decks.len() {
                        assert(once[k] == decks[k]);
                    }
                }
            }
        },
        (None, None) => {},
    }
}

// ---------------------------------------------------------------------------------------------
// The Launcher deck
// ---------------------------------------------------------------------------------------------

/// Safety cap on the Launcher: the rolling month normally keeps it far lower.
pub const LAUNCHER_APPS: usize = 60;

/// A list of borrowed apps by their contents.
pub open spec fn ref_views(apps: Seq<&App>) -> Seq<AppView> {
    apps.map_values(|a: &App| a@)
}

/// The apps that are not part of Windows itself (their executable does not live under the
/// system folder, compared lower-cased), in order.
pub open spec fn launchable(apps: Seq<AppView>, windir: Seq<char>) -> Seq<AppView>
    decreases apps.len(),
{
    if apps.len() == 0 {
        Seq::empty()
    } else {
        let rest = launchable(apps.drop_last(), windir);
        if is_prefix(windir, unicode_lower(apps.last().exe)) {
            rest
        } else {
            rest.push(apps.last())
        }
    }
}

/// The apps the Launcher offers: the launchable ones, at most `LAUNCHER_APPS` of them.
pub open spec fn launcher_apps(apps: Seq<AppView>, windir: Seq<char>) -> Seq<AppView> {
    let l = launchable(apps, windir);
    if l.len() > LAUNCHER_APPS {
        l.take(LAUNCHER_APPS as int)
    } else {
        l
    }
}

/// An ordinary action key.
pub open spec fn action_key(pos: usize, label: Seq<char>, icon: Seq<char>, action: Seq<char>) -> KeyView {
    KeyView { label, icon, action: Some(action), kind: KeyKind::Action, ..empty_key(pos) }
}

/// The Launcher's way back: its first key returns the phone to auto mode.
pub open spec fn back_to_auto_key() -> KeyView {
    action_key(0, "Auto"@, "mode"@, "mode:auto"@)
}

/// An app's key: a press launches it (or focuses it when running), a long press only focuses.
pub open spec fn app_key(a: AppView, pos: usize) -> KeyView {
    KeyView { hold: Some("focus:"@ + a.id), ..action_key(pos, a.name, "app"@, "launch:"@ + a.id) }
}

/// The Launcher's keys: the way back, then one key per app in order.
pub open spec fn launcher_keys(apps: Seq<AppView>) -> Seq<KeyView> {
    seq![back_to_auto_key()] + Seq::new(apps.len(), |i: int| app_key(apps[i], (i + 1) as usize))
}

/// The Launcher deck for these apps: one long page, which the host repaginates to each phone.
pub open spec fn launcher_view(apps: Seq<AppView>) -> DeckView {
    DeckView {
        id: "launcher"@,
        name: "Launcher"@,
        icon: "apps"@,
        pages: seq![PageView { id: "p0"@, name: Seq::empty(), keys: launcher_keys(apps) }],
    }
}

/// Filtering a prefix gives a prefix of filtering the whole.
proof fn lemma_launchable_prefix(apps: Seq<AppView>, windir: Seq<char>, i: int)
    requires
        0 <= i <= apps.len(),
    ensures
        launchable(apps.take(i), windir).len() <= launchable(apps, windir).len(),
        launchable(apps, windir).take(launchable(apps.take(i), windir).len() as int) == launchable(
            apps.take(i),
            windir,
        ),
    decreases apps.len(),
{
    if i == apps.len() {
        assert(apps.take(i) =~= apps);
        assert(launchable(apps, windir).take(launchable(apps, windir).len() as int) =~= launchable(
            apps,
            windir,
        ));
    } else {
        let d = apps.drop_last();
        assert(apps.take(i) =~= d.take(i));
        lemma_launchable_prefix(d, windir, i);
        let k = launchable(d.take(i), windir).len() as int;
        assert(launchable(apps, windir).take(k) =~= launchable(d, windir).take(k));
    }
}

/// Lower-case `s` and its characters.
fn lower_chars(s: &str) -> (r: Vec<char>)
    ensures
        r@ == unicode_lower(s@),
{
    let l = to_lowercase(s);
    chars_of(l.as_str())
}

/// `prefix` followed by `s`.
fn prefixed(prefix: &str, s: &str) -> (r: Option<String>)
    ensures
        r matches Some(t) && t@ == prefix@ + s@,
{
    let mut r = own(prefix);
    r.append(s);
    Some(r)
}

/// An ordinary action key.
fn make_action_key(pos: usize, label: String, icon: &str, action: String) -> (k: Key)
    ensures
        k@ == action_key(pos, label@, icon@, action@),
{
    let mut k = Key::empty(pos);
    k.label = label;
    k.icon = own(icon);
    k.action = Some(action);
    k.kind = KeyKind::Action;
    k
}

/// The Launcher built from the recent apps (newest first), leaving out Windows' own programs:
/// `None` when nothing is left, so no empty deck is ever offered.
pub fn launcher_deck(recent: &[&App], system_root: &str) -> (r: Option<Deck>)
    ensures
        ({
            let apps = launcher_apps(ref_views(recent@), unicode_lower(system_root@));
            &&& apps.len() == 0 ==> r is None
            &&& apps.len() > 0 ==> (r matches Some(d) && d@ == launcher_view(apps))
        }),
{
    let ghost all = ref_views(recent@);
    let windir = lower_chars(system_root);
    proof {
        reveal_strlit("Auto");
        reveal_strlit("mode");
        reveal_strlit("mode:auto");
    }
    let mut keys: Vec<Key> = vec![make_action_key(0, own("Auto"), "mode", own("mode:auto"))];
    let mut n: usize = 0;
    let mut i: usize = 0;
    while i < recent.len() && n < LAUNCHER_APPS
        invariant
            i <= recent.len(),
            all == ref_views(recent@),
            windir@ == unicode_lower(system_root@),
            n == launchable(all.take(i as int), windir@).len(),
            n <= LAUNCHER_APPS,
            crate::config::key_views(keys@) == launcher_keys(launchable(all.take(i as int), windir@)),
        decreases recent.len() - i,
    {
        let a = recent[i];
        let exe = lower_chars(a.exe.as_str());
        let ghost before = launchable(all.take(i as int), windir@);
        proof {
            assert(all.take(i + 1).drop_last() =~= all.take(i as int));
            assert(all.take(i + 1).last() == a@);
        }
        if !starts_with(exe.as_slice(), windir.as_slice()) {
            let label = a.name.clone();
            let launch = prefixed("launch:", a.id.as_str()).unwrap();
            let focus = prefixed("focus:", a.id.as_str()).unwrap();
            let mut k = make_action_key(n + 1, label, "app", launch);
            k.hold = Some(focus);
            let ghost kb = crate::config::key_views(keys@);
            keys.push(k);
            proof {
                reveal_strlit("app");
                let after = before.push(a@);
                assert(launchable(all.take(i + 1), windir@) == after);
                assert(k@ == app_key(a@, (n + 1) as usize));
                assert(crate::config::key_views(keys@) =~= kb.push(k@));
                assert(launcher_keys(after) =~= launcher_keys(before).push(app_key(a@, (n + 1) as usize)));
            }
            n = n + 1;
        } else {
            assert(launchable(all.take(i + 1), windir@) == before);
        }
        i = i + 1;
    }
    let ghost l = launchable(all.take(i as int), windir@);
    proof {
        lemma_launchable_prefix(all, windir@, i as int);
        let whole = launchable(all, windir@);
        if i == recent.len() {
            assert(all.take(i as int) =~= all);
        } else {
            assert(n == LAUNCHER_APPS);
            assert(whole.len() >= LAUNCHER_APPS);
            if whole.len() > LAUNCHER_APPS {
                assert(launcher_apps(all, windir@) == whole.take(LAUNCHER_APPS as int));
            } else {
                assert(whole.take(LAUNCHER_APPS as int) =~= whole);
            }
        }
        assert(launcher_apps(all, windir@) == l);
    }
    if n == 0 {
        return None;
    }
    proof {
        reveal_strlit("launcher");
        reveal_strlit("Launcher");
        reveal_strlit("apps");
        reveal_strlit("p0");
    }
    let page = Page { id: own("p0"), name: String::new(), keys };
    let deck = Deck { id: own("launcher"), name: own("Launcher"), icon: own("apps"), pages: vec![page] };
    assert(deck@.pages =~= seq![PageView { id: "p0"@, name: Seq::empty(), keys: launcher_keys(l) }]);
    Some(deck)
}

// ---------------------------------------------------------------------------------------------
// The starter deck
// ---------------------------------------------------------------------------------------------

/// The starter deck's keys: only actions anyone recognises at a glance.
pub open spec fn starter_keys() -> Seq<KeyView> {
    seq![
        action_key(0, "Copiar"@, "copy"@, "ctrl+c"@),
        action_key(1, "Pegar"@, "paste"@, "ctrl+v"@),
        action_key(2, "Cortar"@, "cut"@, "ctrl+x"@),
        action_key(3, "Deshacer"@, "undo"@, "ctrl+z"@),
        action_key(4, "Rehacer"@, "redo"@, "ctrl+y"@),
        action_key(5, "Sel. todo"@, "selectall"@, "ctrl+a"@),
        action_key(6, "Captura"@, "screenshot"@, "screenshot"@),
        action_key(7, "Trackpad"@, "mouse"@, "trackpad"@),
        action_key(8, "Dictar"@, "mic"@, "dictate"@),
    ]
}

/// The starter deck.
pub open spec fn starter_view() -> DeckView {
    DeckView {
        id: "starter"@,
        name: "KiBoard"@,
        icon: "deck"@,
        pages: seq![PageView { id: "p0"@, name: Seq::empty(), keys: starter_keys() }],
    }
}

fn push_action_key(keys: &mut Vec<Key>, label: &str, icon: &str, action: &str)
    requires
        old(keys).len() < usize::MAX,
    ensures
        final(keys).len() == old(keys).len() + 1,
        crate::config::key_views(final(keys)@) == crate::config::key_views(old(keys)@).push(
            action_key(old(keys).len(), label@, icon@, action@),
        ),
{
    let ghost before = crate::config::key_views(keys@);
    let k = make_action_key(keys.len(), own(label), icon, own(action));
    keys.push(k);
    assert(crate::config::key_views(keys@) =~= before.push(k@));
}

/// The decks of a fresh install: the starter deck, then the Launcher when there is one.
pub fn default_decks(launcher: Option<Deck>) -> (r: Vec<Deck>)
    ensures
        deck_views(r@) == match opt_deck_view(launcher) {
            Some(l) => seq![starter_view(), l],
            None => seq![starter_view()],
        },
{
    let mut keys: Vec<Key> = Vec::new();
    push_action_key(&mut keys, "Copiar", "copy", "ctrl+c");
    push_action_key(&mut keys, "Pegar", "paste", "ctrl+v");
    push_action_key(&mut keys, "Cortar", "cut", "ctrl+x");
    push_action_key(&mut keys, "Deshacer", "undo", "ctrl+z");
    push_action_key(&mut keys, "Rehacer", "redo", "ctrl+y");
    push_action_key(&mut keys, "Sel. todo", "selectall", "ctrl+a");
    push_action_key(&mut keys, "Captura", "screenshot", "screenshot");
    push_action_key(&mut keys, "Trackpad", "mouse", "trackpad");
    push_action_key(&mut keys, "Dictar", "mic", "dictate");
    assert(crate::config::key_views(keys@) =~= starter_keys());
    let page = Page { id: own("p0"), name: String::new(), keys };
    let starter = Deck { id: own("starter"), name: own("KiBoard"), icon: own("deck"), pages: vec![page] };
    assert(starter@.pages =~= starter_view().pages);
    let mut decks: Vec<Deck> = vec![starter];
    match launcher {
        Some(l) => {
            let ghost lv = l@;
            decks.push(l);
            assert(deck_views(decks@) =~= seq![starter_view(), lv]);
        },
        None => {
            assert(deck_views(decks@) =~= seq![starter_view()]);
        },
    }
    decks
}

// ---------------------------------------------------------------------------------------------
// Backfilling the Launcher into older configs
// ---------------------------------------------------------------------------------------------

/// Some key of the page runs `action` on a short press.
pub open spec fn page_runs(p: PageView, action: Seq<char>) -> bool {
    exists|k: int| 0 <= k < p.keys.len() && #[trigger] p.keys[k].action == Some(action)
}

/// Some key of some page of the deck runs `action`.
pub open spec fn deck_runs(d: DeckView, action: Seq<char>) -> bool {
    exists|p: int| 0 <= p < d.pages.len() && page_runs(#[trigger] d.pages[p], action)
}

/// Some key anywhere runs `action`.
pub open spec fn decks_run(decks: Seq<DeckView>, action: Seq<char>) -> bool {
    exists|d: int| 0 <= d < decks.len() && deck_runs(#[trigger] decks[d], action)
}

/// One past the highest position on the page, or 0 for an empty page.
pub open spec fn past_last(keys: Seq<KeyView>) -> int
    decreases keys.len(),
{
    if keys.len() == 0 {
        0
    } else {
        let rest = past_last(keys.drop_last());
        if keys.last().pos + 1 > rest {
            keys.last().pos + 1
        } else {
            rest
        }
    }
}

/// The key that reaches the Launcher from the first page.
pub open spec fn jump_key(pos: usize) -> KeyView {
    action_key(pos, "Launcher"@, "apps"@, "deck:launcher"@)
}

/// The decks after backfilling the Launcher: untouched when a deck already has its id; otherwise
/// the Launcher is appended, and when nothing reaches it yet, a key for it goes after the last
/// key of the first deck's first page.
pub open spec fn backfilled(decks: Seq<DeckView>, launcher: DeckView) -> Seq<DeckView> {
    if exists|d: int| 0 <= d < decks.len() && #[trigger] decks[d].id == launcher.id {
        decks
    } else if !decks_run(decks, "deck:launcher"@) && decks.len() > 0 && decks[0].pages.len() > 0 {
        let first = decks[0];
        let page = first.pages[0];
        let page2 = PageView {
            keys: page.keys.push(jump_key(past_last(page.keys) as usize)),
            ..page
        };
        decks.update(0, DeckView { pages: first.pages.update(0, page2), ..first }).push(launcher)
    } else {
        decks.push(launcher)
    }
}

/// `past_last` is above every position on the page.
proof fn lemma_past_last(keys: Seq<KeyView>)
    ensures
        past_last(keys) >= 0,
        forall|k: int| 0 <= k < keys.len() ==> keys[k].pos < past_last(keys),
        keys.len() > 0 ==> exists|k: int| 0 <= k < keys.len() && past_last(keys) == keys[k].pos + 1,
    decreases keys.len(),
{
    if keys.len() > 0 {
        lemma_past_last(keys.drop_last());
        assert forall|k: int| 0 <= k < keys.len() - 1 implies keys[k] == keys.drop_last()[k] by {}
        if keys.len() > 1 && past_last(keys) == past_last(keys.drop_last()) {
            let k = choose|k: int| 0 <= k < keys.len() - 1 && past_last(keys.drop_last())
                == keys.drop_last()[k].pos + 1;
            assert(keys[k] == keys.drop_last()[k]);
        }
    }
}

fn page_runs_exec(p: &Page, action: &str) -> (r: bool)
    ensures
        r == page_runs(p@, action@),
{
    let mut i: usize = 0;
    while i < p.keys.len()
        invariant
            i <= p.keys.len(),
            forall|k: int| 0 <= k < i ==> p@.keys[k].action != Some(action@),
        decreases p.keys.len() - i,
    {
        match &p.keys[i].action {
            Some(a) => {
                if same(a.as_str(), action) {
                    assert(p@.keys[i as int].action == Some(action@));
                    return true;
                }
            },
            None => {},
        }
        i = i + 1;
    }
    false
}

fn deck_runs_exec(d: &Deck, action: &str) -> (r: bool)
    ensures
        r == deck_runs(d@, action@),
{
    let mut i: usize = 0;
    while i < d.pages.len()
        invariant
            i <= d.pages.len(),
            forall|p: int| 0 <= p < i ==> !page_runs(#[trigger] d@.pages[p], action@),
        decreases d.pages.len() - i,
    {
        if page_runs_exec(&d.pages[i], action) {
            assert(page_runs(d@.pages[i as int], action@));
            return true;
        }
        i = i + 1;
    }
    false
}

fn decks_run_exec(decks: &Vec<Deck>, action: &str) -> (r: bool)
    ensures
        r == decks_run(deck_views(decks@), action@),
{
    let ghost ds = deck_views(decks@);
    let mut i: usize = 0;
    while i < decks.len()
        invariant
            i <= decks.len(),
            ds == deck_views(decks@),
            forall|d: int| 0 <= d < i ==> !deck_runs(#[trigger] ds[d], action@),
        decreases decks.len() - i,
    {
        if deck_runs_exec(&decks[i], action) {
            assert(deck_runs(ds[i as int], action@));
            return true;
        }
        i = i + 1;
    }
    false
}

fn past_last_exec(keys: &Vec<Key>) -> (r: usize)
    requires
        forall|k: int| 0 <= k < keys@.len() ==> keys@[k].pos < usize::MAX,
    ensures
        r == past_last(crate::config::key_views(keys@)),
{
    let ghost ks = crate::config::key_views(keys@);
    let mut best: usize = 0;
    let mut i: usize = 0;
    while i < keys.len()
        invariant
            i <= keys.len(),
            ks == crate::config::key_views(keys@),
            forall|k: int| 0 <= k < keys@.len() ==> keys@[k].pos < usize::MAX,
            best == past_last(ks.take(i as int)),
        decreases keys.len() - i,
    {
        assert(ks.take(i + 1).drop_last() =~= ks.take(i as int));
        assert(ks.take(i + 1).last() == ks[i as int]);
        if keys[i].pos + 1 > best {
            best = keys[i].pos + 1;
        }
        i = i + 1;
    }
    assert(ks.take(i as int) =~= ks);
    best
}

/// Adds the Launcher to decks that already exist, and a key that reaches it. Deliberately
/// additive: it never edits or reorders what the user has, because it runs behind their back.
pub fn backfill_launcher(decks: &mut Vec<Deck>, launcher: Deck)
    requires
        old(decks).len() > 0 && old(decks)@[0].pages.len() > 0 ==> forall|k: int|
            0 <= k < old(decks)@[0].pages@[0].keys@.len() ==> old(decks)@[0].pages@[0].keys@[k].pos
                < usize::MAX,
    ensures
        deck_views(final(decks)@) == backfilled(deck_views(old(decks)@), launcher@),
{
    let ghost before = deck_views(decks@);
    let ghost lv = launcher@;
    match find_deck(decks, launcher.id.as_str()) {
        Some(i) => {
            proof {
                lemma_deck_index(before, lv.id);
            }
            return;
        },
        None => {
            proof {
                lemma_deck_index(before, lv.id);
            }
        },
    }
    proof {
        reveal_strlit("deck:launcher");
        reveal_strlit("Launcher");
        reveal_strlit("apps");
    }
    let reachable = decks_run_exec(decks, "deck:launcher");
    if !reachable && decks.len() > 0 && decks[0].pages.len() > 0 {
        let mut first = decks[0].clone();
        let mut page = first.pages[0].clone();
        proof {
            assert(page@ == before[0].pages[0]);
            assert forall|k: int| 0 <= k < page.keys@.len() implies page.keys@[k].pos
                < usize::MAX by {
                assert(page.keys@[k]@ == before[0].pages[0].keys[k]);
                assert(decks@[0].pages@[0].keys@[k]@ == before[0].pages[0].keys[k]);
            }
        }
        let pos = past_last_exec(&page.keys);
        let jump = make_action_key(pos, own("Launcher"), "apps", own("deck:launcher"));
        let ghost kb = crate::config::key_views(page.keys@);
        page.keys.push(jump);
        assert(crate::config::key_views(page.keys@) =~= kb.push(jump_key(pos)));
        let ghost pv = page@;
        first.pages.set(0, page);
        assert(first@.pages =~= before[0].pages.update(0, pv));
        let ghost fv = first@;
        decks.set(0, first);
        assert(deck_views(decks@) =~= before.update(0, fv));
    }
    let ghost mid = deck_views(decks@);
    decks.push(launcher);
    assert(deck_views(decks@) =~= mid.push(lv));
}

/// Backfilling twice is backfilling once: a second launch neither stacks a second Launcher nor
/// a second key for it.
pub proof fn law_backfill_is_idempotent(decks: Seq<DeckView>, launcher: DeckView)
    ensures
        backfilled(backfilled(decks, launcher), launcher) == backfilled(decks, launcher),
{
    let once = backfilled(decks, launcher);
    if !(exists|d: int| 0 <= d < decks.len() && #[trigger] decks[d].id == launcher.id) {
        let n = once.len() - 1;
        assert(once[n] == launcher);
        assert(once[n].id == launcher.id);
    }
}

/// Backfilling only ever adds: every deck, page and key the user had stays where it was, at most
/// one deck is appended, and at most one key (the jump) is appended to the first page, past the
/// last key there rather than into a gap.
pub proof fn law_backfill_only_adds(decks: Seq<DeckView>, launcher: DeckView)
    requires
        decks.len() > 0 && decks[0].pages.len() > 0 ==> forall|k: int|
            0 <= k < decks[0].pages[0].keys.len() ==> decks[0].pages[0].keys[k].pos < usize::MAX,
    ensures
        ({
            let after = backfilled(decks, launcher);
            &&& decks.len() <= after.len() <= decks.len() + 1
            &&& forall|d: int| 0 <= d < decks.len() ==> (#[trigger] after[d]).id == decks[d].id
                && after[d].name == decks[d].name && after[d].icon == decks[d].icon
                && after[d].pages.len() == decks[d].pages.len()
            &&& forall|d: int, p: int| 0 <= d < decks.len() && 0 <= p < decks[d].pages.len()
                ==> (#[trigger] after[d].pages[p]).id == decks[d].pages[p].id
                && after[d].pages[p].name == decks[d].pages[p].name
                && after[d].pages[p].keys.take(decks[d].pages[p].keys.len() as int)
                == decks[d].pages[p].keys
                && after[d].pages[p].keys.len() <= decks[d].pages[p].keys.len() + 1
            &&& forall|d: int, p: int| 0 <= d < decks.len() && 0 <= p < decks[d].pages.len()
                && (#[trigger] after[d].pages[p]).keys.len() > decks[d].pages[p].keys.len() ==> d
                == 0 && p == 0 && after[d].pages[p].keys.last().action == Some("deck:launcher"@)
                && forall|k: int| 0 <= k < decks[d].pages[p].keys.len() ==> decks[d].pages[p].keys[k].pos
                    < after[d].pages[p].keys.last().pos
        }),
{
    let after = backfilled(decks, launcher);
    if exists|d: int| 0 <= d < decks.len() && #[trigger] decks[d].id == launcher.id {
        assert forall|d: int, p: int| 0 <= d < decks.len() && 0 <= p < decks[d].pages.len() implies
            (#[trigger] after[d].pages[p]).keys.take(decks[d].pages[p].keys.len() as int)
            == decks[d].pages[p].keys by {
            assert(after[d].pages[p].keys.take(decks[d].pages[p].keys.len() as int)
                =~= decks[d].pages[p].keys);
        }
    } else if !decks_run(decks, "deck:launcher"@) && decks.len() > 0 && decks[0].pages.len() > 0 {
        let keys = decks[0].pages[0].keys;
        lemma_past_last(keys);
        assert(after[0].pages[0].keys == keys.push(jump_key(past_last(keys) as usize)));
        assert forall|d: int, p: int| 0 <= d < decks.len() && 0 <= p < decks[d].pages.len() implies
            (#[trigger] after[d].pages[p]).keys.take(decks[d].pages[p].keys.len() as int)
            == decks[d].pages[p].keys by {
            assert(after[d].pages[p].keys.take(decks[d].pages[p].keys.len() as int)
                =~= decks[d].pages[p].keys);
        }
        assert(after[0].pages[0].keys.last() == jump_key(past_last(keys) as usize));
    } else {
        assert forall|d: int, p: int| 0 <= d < decks.len() && 0 <= p < decks[d].pages.len() implies
            (#[trigger] after[d].pages[p]).keys.take(decks[d].pages[p].keys.len() as int)
            == decks[d].pages[p].keys by {
            assert(after[d].pages[p].keys.take(decks[d].pages[p].keys.len() as int)
                =~= decks[d].pages[p].keys);
        }
    }
}

// ---------------------------------------------------------------------------------------------
// The stored configuration and how a loaded one is brought forward
// ---------------------------------------------------------------------------------------------

/// Version of the built-in profiles. A config with an older one gets them replaced wholesale.
pub const PROFILES_VERSION: u32 = 50;
/// Shape of the config file. A file from before it existed is backed up before being rewritten.
pub const CONFIG_VERSION: u32 = 2;
/// How far the stored decks have been brought forward (1: the Launcher exists).
pub const DECKS_VERSION: u32 = 3;

/// Everything the host persists.
pub struct Config {
    /// Shared token of the first pairing scheme; kept only so an old file has something to read.
    pub token: String,
    pub paired: Vec<String>,
    /// Stable per-install id (8 hex characters), advertised for discovery.
    pub host_id: String,
    /// Paired devices, one token each.
    pub devices: Vec<Device>,
    /// Whether new pairing requests are accepted.
    pub pairing_open: bool,
    pub profiles: Vec<Profile>,
    pub profiles_version: u32,
    /// Manual mode's decks.
    pub decks: Vec<Deck>,
    /// Manual mode is opt-in; decks stay stored while it is hidden.
    pub manual_enabled: bool,
    /// The opt-in explanation is shown once.
    pub manual_intro_seen: bool,
    pub decks_version: u32,
    pub config_version: u32,
    /// OBS WebSocket password, empty when the server has none.
    pub obs_password: String,
    /// Anonymous usage statistics, opt-out.
    pub analytics: bool,
}

impl Config {
    /// A fresh install's configuration: nothing stored yet, pairing open, statistics on.
    pub fn fresh() -> (c: Config)
        ensures
            c.token@.len() == 0,
            c.paired@.len() == 0,
            c.host_id@.len() == 0,
            c.devices@.len() == 0,
            c.pairing_open,
            c.profiles@.len() == 0,
            c.profiles_version == 0,
            c.decks@.len() == 0,
            !c.manual_enabled,
            !c.manual_intro_seen,
            c.decks_version == 0,
            c.config_version == 0,
            c.obs_password@.len() == 0,
            c.analytics,
    {
        Config {
            token: String::new(),
            paired: Vec::new(),
            host_id: String::new(),
            devices: Vec::new(),
            pairing_open: true,
            profiles: Vec::new(),
            profiles_version: 0,
            decks: Vec::new(),
            manual_enabled: false,
            manual_intro_seen: false,
            decks_version: 0,
            config_version: 0,
            obs_password: String::new(),
            analytics: true,
        }
    }
}

/// The stored decks after loading: seeded from scratch when there are none; otherwise a config
/// from before the Launcher gets it backfilled, and the Launcher is rebuilt from the machine's
/// current recent apps.
pub open spec fn upgraded_decks(decks: Seq<DeckView>, decks_version: u32, launcher: Option<DeckView>) -> Seq<DeckView> {
    if decks.len() == 0 {
        match launcher {
            Some(l) => seq![starter_view(), l],
            None => seq![starter_view()],
        }
    } else {
        let d1 = match launcher {
            Some(l) => if decks_version < 1 {
                backfilled(decks, l)
            } else {
                decks
            },
            None => decks,
        };
        replaced(d1, launcher).0
    }
}

/// A host id: 4 bytes as lower-case hex.
pub open spec fn is_host_id(s: Seq<char>) -> bool {
    exists|b: Seq<u8>| b.len() == 4 && s == hex(b)
}

/// Brings a loaded (or fresh) configuration forward: the current file shape, seeded or updated
/// decks with the Launcher rebuilt from `launcher`, a token and host id when missing, and the
/// built-in profiles when they are missing or outdated. Returns whether the file predates the
/// current shape, so the caller keeps a copy of it before it is rewritten.
pub fn upgrade(c: &mut Config, launcher: Option<Deck>) -> (backup: bool)
    requires
        old(c).decks.len() > 0 && old(c).decks@[0].pages.len() > 0 ==> forall|k: int|
            0 <= k < old(c).decks@[0].pages@[0].keys@.len() ==> old(c).decks@[0].pages@[0].keys@[k].pos
                < usize::MAX,
    ensures
        backup == (old(c).config_version < CONFIG_VERSION),
        final(c).config_version == if old(c).config_version < CONFIG_VERSION {
            CONFIG_VERSION
        } else {
            old(c).config_version
        },
        deck_views(final(c).decks@) == upgraded_decks(
            deck_views(old(c).decks@),
            old(c).decks_version,
            opt_deck_view(launcher),
        ),
        final(c).decks_version == DECKS_VERSION,
        old(c).token@.len() == 0 ==> is_token(final(c).token@),
        old(c).token@.len() > 0 ==> final(c).token@ == old(c).token@,
        old(c).host_id@.len() == 0 ==> is_host_id(final(c).host_id@),
        old(c).host_id@.len() > 0 ==> final(c).host_id@ == old(c).host_id@,
        old(c).profiles.len() == 0 || old(c).profiles_version < PROFILES_VERSION ==> final(c).profiles.len() == crate::profiles::PROFILE_COUNT && final(c).profiles_version
            == PROFILES_VERSION,
        !(old(c).profiles.len() == 0 || old(c).profiles_version < PROFILES_VERSION) ==> final(c).profiles@ == old(c).profiles@ && final(c).profiles_version == old(c).profiles_version,
        final(c).paired@ == old(c).paired@,
        device_views(final(c).devices@) == device_views(old(c).devices@),
        final(c).pairing_open == old(c).pairing_open,
        final(c).manual_enabled == old(c).manual_enabled,
        final(c).manual_intro_seen == old(c).manual_intro_seen,
        final(c).obs_password@ == old(c).obs_password@,
        final(c).analytics == old(c).analytics,
{
    let backup = c.config_version < CONFIG_VERSION;
    if backup {
        c.config_version = CONFIG_VERSION;
    }
    if c.decks.len() == 0 {
        c.decks = default_decks(launcher);
    } else {
        let mut decks: Vec<Deck> = Vec::new();
        std::mem::swap(&mut decks, &mut c.decks);
        let ghost d0 = deck_views(decks@);
        if c.decks_version < 1 {
            match &launcher {
                Some(l) => {
                    backfill_launcher(&mut decks, l.clone());
                },
                None => {},
            }
        }
        let ghost d1 = deck_views(decks@);
        assert(d1 == match opt_deck_view(launcher) {
            Some(l) => if c.decks_version < 1 {
                backfilled(d0, l)
            } else {
                d0
            },
            None => d0,
        });
        replace_launcher(&mut decks, launcher);
        c.decks = decks;
    }
    c.decks_version = DECKS_VERSION;
    if c.token.as_str().unicode_len() == 0 {
        c.token = new_token();
    }
    if c.host_id.as_str().unicode_len() == 0 {
        c.host_id = new_host_id();
    }
    if c.profiles.len() == 0 || c.profiles_version < PROFILES_VERSION {
        c.profiles = crate::profiles::default_profiles();
        c.profiles_version = PROFILES_VERSION;
    }
    backup
}

/// Whether switching manual mode to `enabled` shows the opt-in explanation: only the first time
/// it is switched on, from whichever paired surface.
pub open spec fn shows_manual_intro(intro_seen: bool, enabled: bool) -> bool {
    enabled && !intro_seen
}

/// Switches manual mode on or off and says whether to show its explanation, which is shown once:
/// the first time manual mode is switched on. The decks stay stored either way.
pub fn set_manual_enabled(c: &mut Config, enabled: bool) -> (show_intro: bool)
    ensures
        show_intro == shows_manual_intro(old(c).manual_intro_seen, enabled),
        final(c).manual_enabled == enabled,
        final(c).manual_intro_seen == (old(c).manual_intro_seen || enabled),
        final(c).decks == old(c).decks,
        final(c).profiles == old(c).profiles,
        final(c).devices == old(c).devices,
        final(c).token == old(c).token,
        final(c).host_id == old(c).host_id,
        final(c).pairing_open == old(c).pairing_open,
{
    let show_intro = enabled && !c.manual_intro_seen;
    c.manual_enabled = enabled;
    if enabled {
        c.manual_intro_seen = true;
    }
    show_intro
}

/// The explanation of manual mode is shown at most once: once it has been shown, no later switch,
/// on or off, shows it again.
pub proof fn law_the_manual_intro_shows_once(intro_seen: bool, first: bool, later: bool)
    requires
        shows_manual_intro(intro_seen, first),
    ensures
        !shows_manual_intro(intro_seen || first, later),
{
}

} // verus!
