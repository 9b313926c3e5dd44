//! A connected client's session and the decisions it is made of: which deck and page it is on,
//! what a press at (page, cell) means, which continuous inputs it may send, and which presses move
//! the session rather than the desktop. The socket, the framing and the sending are the caller's.
//!
//! A client sends a position, never an action: a press is resolved against the host's own decks
//! (or the editor's unsaved preview, the same decks the client was shown), so an authenticated
//! client cannot ask for anything that was not on the layout it was given.
use vstd::prelude::*;

use crate::config::{
    deck_views, page_index, lemma_page_index, Deck, DeckView, Key, KeyKind, KeyView, Page,
    PageView,
};
use crate::deck::{flat, flat_spec, resolve, resolved, Grid};
use crate::faces::{
    addr, addr_of, face_set, is_on, live_face, live_face_spec, showing, showing_action,
};
use crate::i18n::Lang;
use crate::layout::AutoLayout;
use crate::state::ObsState;
use crate::text::{
    chars_of, decimal, insert_sorted, is, is_prefix, same, signed_decimal, starts_with_lit,
    string_views, strictly_sorted, string_of,
};
use crate::deck::{app_target, app_target_exec};

verus! {

/// What the host knows of one connected client. The grid, the language and the page are each
/// client's own: two clients with different screens can be attached at once.
pub struct Session {
    pub authed: bool,
    pub grid: Grid,
    pub lang: Lang,
    pub manual: bool,
    pub deck_id: String,
    pub page_id: String,
    pub page: usize,
    /// The trackpad has the left button held down, to drag; released if the client vanishes.
    pub dragging: bool,
}

/// A session by its contents.
pub struct SessionView {
    pub authed: bool,
    pub grid: Grid,
    pub lang: Lang,
    pub manual: bool,
    pub deck_id: Seq<char>,
    pub page_id: Seq<char>,
    pub page: usize,
    pub dragging: bool,
}

impl View for Session {
    type V = SessionView;

    open spec fn view(&self) -> SessionView {
        SessionView {
            authed: self.authed,
            grid: self.grid,
            lang: self.lang,
            manual: self.manual,
            deck_id: self.deck_id@,
            page_id: self.page_id@,
            page: self.page,
            dragging: self.dragging,
        }
    }
}

impl Default for Session {
    /// A client that has not said `hello`: not authenticated, the reference grid, Spanish, auto
    /// mode, the first page.
    fn default() -> (r: Self)
        ensures
            !r.authed,
            r.grid == (Grid { rows: 3, cols: 5, reserve: 0 }),
            r.lang == Lang::Es,
            !r.manual,
            r.deck_id@.len() == 0,
            r.page_id@.len() == 0,
            r.page == 0,
            !r.dragging,
    {
        Session {
            authed: false,
            grid: Grid { rows: 3, cols: 5, reserve: 0 },
            lang: Lang::Es,
            manual: false,
            deck_id: String::new(),
            page_id: String::new(),
            page: 0,
            dragging: false,
        }
    }
}

/// The first deck from `i` on with this id.
pub open spec fn deck_with_id(decks: Seq<DeckView>, id: Seq<char>, i: int) -> Option<int>
    decreases decks.len() - i,
{
    if i < 0 || i >= decks.len() {
        None
    } else if decks[i].id == id {
        Some(i)
    } else {
        deck_with_id(decks, id, i + 1)
    }
}

/// The deck a session is on: the one it names, or the first when that one is gone.
pub open spec fn deck_choice(decks: Seq<DeckView>, id: Seq<char>) -> Option<int> {
    match deck_with_id(decks, id, 0) {
        Some(i) => Some(i),
        None => if decks.len() > 0 {
            Some(0)
        } else {
            None
        },
    }
}

/// The page a session is on within its deck: the one it names, or the entry page.
pub open spec fn page_choice(deck: DeckView, id: Seq<char>) -> Option<int> {
    match page_index(deck.pages, id) {
        Some(i) => Some(i),
        None => if deck.pages.len() > 0 {
            Some(0)
        } else {
            None
        },
    }
}

/// The deck and page a manual session is on, snapping to the first deck and the entry page when
/// what it names no longer exists.
pub open spec fn manual_choice(decks: Seq<DeckView>, deck_id: Seq<char>, page_id: Seq<char>) -> Option<(int, int)> {
    match deck_choice(decks, deck_id) {
        None => None,
        Some(d) => match page_choice(decks[d], page_id) {
            None => None,
            Some(p) => Some((d, p)),
        },
    }
}

/// The deck and page a manual session is on.
pub fn manual_target(decks: &Vec<Deck>, deck_id: &str, page_id: &str) -> (r: Option<(usize, usize)>)
    ensures
        match r {
            Some((d, p)) => manual_choice(deck_views(decks@), deck_id@, page_id@) == Some((d as int, p as int))
                && d < decks@.len() && p < decks@[d as int].pages@.len(),
            None => manual_choice(deck_views(decks@), deck_id@, page_id@) is None,
        },
{
    let ghost dv = deck_views(decks@);
    let mut i: usize = 0;
    let mut found: Option<usize> = None;
    while i < decks.len() && found.is_none()
        invariant
            i <= decks@.len(),
            dv == deck_views(decks@),
            found matches Some(k) ==> k < decks@.len() && deck_with_id(dv, deck_id@, 0) == Some(k as int),
            found is None ==> deck_with_id(dv, deck_id@, 0) == deck_with_id(dv, deck_id@, i as int),
        decreases decks@.len() - i + (if found is None { 1int } else { 0int }),
    {
        if same(decks[i].id.as_str(), deck_id) {
            found = Some(i);
        } else {
            i = i + 1;
        }
    }
    let d = match found {
        Some(k) => k,
        None => {
            if decks.len() == 0 {
                return None;
            }
            0
        },
    };
    assert(dv[d as int] == decks@[d as int]@);
    let deck = &decks[d];
    let p = match deck.page_at(page_id) {
        Some(k) => k,
        None => {
            if deck.pages.len() == 0 {
                return None;
            }
            0
        },
    };
    proof {
        lemma_page_index(deck@.pages, page_id@);
    }
    Some((d, p))
}

/// What a press means.
pub enum Press {
    /// Run this action.
    Run(String),
    /// Go to this page of the current deck.
    Go(String),
    /// Run the action of the face that shows, then flip the face at this address.
    Toggle(String, String),
}

/// A press by its contents.
pub enum PressView {
    Run(Seq<char>),
    Go(Seq<char>),
    Toggle(Seq<char>, Seq<char>),
}

impl View for Press {
    type V = PressView;

    open spec fn view(&self) -> PressView {
        match self {
            Press::Run(a) => PressView::Run(a@),
            Press::Go(p) => PressView::Go(p@),
            Press::Toggle(a, at) => PressView::Toggle(a@, at@),
        }
    }
}

/// The action bound to a press type of a key, as a press.
pub open spec fn run_of(k: KeyView, kind: Seq<char>) -> Result<PressView, Seq<char>> {
    match Key::spec_action_for(k, kind) {
        Some(a) => Ok(PressView::Run(a)),
        None => Err("no_such_key"@),
    }
}

/// What a press at (client page, cell) of a manual deck page means: a navigating key goes to its
/// page when that page exists; a two-state key's short press runs the face that shows and, unless
/// something live owns its state, flips the face; any other key runs what that press type is
/// bound to. Everything else is `no_such_key`.
pub open spec fn deck_press(
    deck: DeckView,
    pg: PageView,
    grid: Grid,
    page: int,
    pos: int,
    kind: Seq<char>,
    faces: Seq<Seq<char>>,
    obs: ObsState,
) -> Result<PressView, Seq<char>> {
    match resolved(pg.keys, grid, page, pos) {
        None => Err("no_such_key"@),
        Some(key) => match key.kind {
            KeyKind::Folder | KeyKind::Page => match key.target {
                None => Err("no_such_key"@),
                Some(t) => if page_index(deck.pages, t) is Some {
                    Ok(PressView::Go(t))
                } else {
                    Err("no_such_key"@)
                },
            },
            KeyKind::Action => if kind == "short"@ && key.toggle is Some {
                match flat_spec(grid, page, pos) {
                    None => Err("no_such_key"@),
                    Some(at) => {
                        let a = addr_of(deck.id, pg.id, at as usize);
                        let live = live_face_spec(key, obs);
                        let on = match live {
                            Some(v) => v,
                            None => faces.contains(a),
                        };
                        match showing(key, on) {
                            None => Err("no_such_key"@),
                            Some(act) => if live is Some {
                                Ok(PressView::Run(act))
                            } else {
                                Ok(PressView::Toggle(act, a))
                            },
                        }
                    },
                }
            } else {
                run_of(key, kind)
            },
            KeyKind::Empty => Err("no_such_key"@),
        },
    }
}

/// A press result by its contents.
pub open spec fn press_result(r: Result<Press, &'static str>) -> Result<PressView, Seq<char>> {
    match r {
        Ok(p) => Ok(p@),
        Err(e) => Err(e@),
    }
}

/// What a press means in a manual session.
pub fn resolve_deck_press(
    s: &Session,
    decks: &Vec<Deck>,
    page: usize,
    pos: usize,
    kind: &str,
    faces: &Vec<String>,
    obs: &ObsState,
) -> (r: Result<Press, &'static str>)
    requires
        s.grid.wf(),
    ensures
        press_result(r) == match manual_choice(deck_views(decks@), s.deck_id@, s.page_id@) {
            None => Err("no_such_key"@),
            Some((d, p)) => deck_press(
                deck_views(decks@)[d],
                deck_views(decks@)[d].pages[p],
                s.grid,
                page as int,
                pos as int,
                kind@,
                face_set(faces@),
                *obs,
            ),
        },
{
    let (d, p) = match manual_target(decks, s.deck_id.as_str(), s.page_id.as_str()) {
        Some(t) => t,
        None => {
            return Err("no_such_key");
        },
    };
    let deck = &decks[d];
    let pg = &deck.pages[p];
    assert(deck_views(decks@)[d as int] == deck@);
    assert(deck@.pages[p as int] == pg@);
    let key = match resolve(pg, s.grid, page, pos) {
        Some(k) => k,
        None => {
            return Err("no_such_key");
        },
    };
    match key.kind {
        KeyKind::Folder | KeyKind::Page => {
            let t = match &key.target {
                Some(t) => t,
                None => {
                    return Err("no_such_key");
                },
            };
            match deck.page_at(t.as_str()) {
                Some(_) => Ok(Press::Go(t.clone())),
                None => Err("no_such_key"),
            }
        },
        KeyKind::Action => {
            if same(kind, "short") && key.toggle.is_some() {
                let at = match flat(s.grid, page, pos) {
                    Some(a) => a,
                    None => {
                        return Err("no_such_key");
                    },
                };
                let a = addr(deck.id.as_str(), pg.id.as_str(), at);
                let live = live_face(key, obs);
                let on = match live {
                    Some(v) => v,
                    None => is_on(faces, a.as_str()),
                };
                match showing_action(key, on) {
                    None => Err("no_such_key"),
                    Some(act) => {
                        if live.is_some() {
                            Ok(Press::Run(act))
                        } else {
                            Ok(Press::Toggle(act, a))
                        }
                    },
                }
            } else {
                match key.action_for(kind) {
                    Some(act) => Ok(Press::Run(act)),
                    None => Err("no_such_key"),
                }
            }
        },
        KeyKind::Empty => Err("no_such_key"),
    }
}

/// What a press means in an auto session: the layout the host published last, resolved the same
/// way a deck page is, and nothing before there is one.
pub fn resolve_auto_press(auto: Option<&AutoLayout>, grid: Grid, page: usize, pos: usize, kind: &str) -> (r: Result<Press, &'static str>)
    requires
        grid.wf(),
    ensures
        press_result(r) == match auto {
            None => Err("no_such_key"@),
            Some(a) => match resolved(crate::config::key_views(a.keys@), grid, page as int, pos as int) {
                None => Err("no_such_key"@),
                Some(k) => run_of(k, kind@),
            },
        },
{
    let a = match auto {
        Some(a) => a,
        None => {
            return Err("no_such_key");
        },
    };
    let pg = a.as_page();
    match resolve(&pg, grid, page, pos) {
        None => Err("no_such_key"),
        Some(k) => match k.action_for(kind) {
            Some(act) => Ok(Press::Run(act)),
            None => Err("no_such_key"),
        },
    }
}

/// What a press at (client page, cell) means for this session.
pub fn resolve_press(
    s: &Session,
    decks: &Vec<Deck>,
    auto: Option<&AutoLayout>,
    page: usize,
    pos: usize,
    kind: &str,
    faces: &Vec<String>,
    obs: &ObsState,
) -> (r: Result<Press, &'static str>)
    requires
        s.grid.wf(),
    ensures
        !s.manual ==> press_result(r) == match auto {
            None => Err("no_such_key"@),
            Some(a) => match resolved(crate::config::key_views(a.keys@), s.grid, page as int, pos as int) {
                None => Err("no_such_key"@),
                Some(k) => run_of(k, kind@),
            },
        },
        s.manual ==> press_result(r) == match manual_choice(deck_views(decks@), s.deck_id@, s.page_id@) {
            None => Err("no_such_key"@),
            Some((d, p)) => deck_press(
                deck_views(decks@)[d],
                deck_views(decks@)[d].pages[p],
                s.grid,
                page as int,
                pos as int,
                kind@,
                face_set(faces@),
                *obs,
            ),
        },
{
    if !s.manual {
        resolve_auto_press(auto, s.grid, page, pos, kind)
    } else {
        resolve_deck_press(s, decks, page, pos, kind, faces, obs)
    }
}

// ---------------------------------------------------------------------------------------------
// Continuous input and session actions
// ---------------------------------------------------------------------------------------------

/// A continuous input as a client sent it: what kind, and whichever fields that kind reads.
pub struct Input {
    pub kind: Option<String>,
    pub dx: Option<i64>,
    pub dy: Option<i64>,
    pub n: Option<i64>,
    pub level: Option<i64>,
    pub button: Option<String>,
    pub down: Option<bool>,
    pub text: Option<String>,
}

/// A number field, absent as 0, kept within ±4096.
pub open spec fn num(v: Option<i64>) -> int {
    let x: int = match v {
        Some(x) => x as int,
        None => 0,
    };
    if x < -4096 {
        -4096
    } else if x > 4096 {
        4096
    } else {
        x
    }
}

/// The one fixed action shape each continuous input kind maps to. The vocabulary is closed: this
/// channel cannot carry a hotkey.
pub open spec fn input_spec(i: Input) -> Result<Seq<char>, Seq<char>> {
    match i.kind {
        None => Err("unknown_action"@),
        Some(k) => if k@ == "mouse"@ {
            Ok("mouse:"@ + crate::text::signed_decimal(num(i.dx)) + seq![','] + crate::text::signed_decimal(num(i.dy)))
        } else if k@ == "scroll"@ {
            Ok("scroll:"@ + crate::text::signed_decimal(num(i.n)))
        } else if k@ == "hscroll"@ {
            Ok("hscroll:"@ + crate::text::signed_decimal(num(i.n)))
        } else if k@ == "zoom"@ {
            Ok("zoom:"@ + crate::text::signed_decimal(num(i.n)))
        } else if k@ == "click"@ {
            if i.button matches Some(b) && b@ == "right"@ {
                Ok("click:right"@)
            } else {
                Ok("click:left"@)
            }
        } else if k@ == "drag"@ {
            if i.down == Some(true) {
                Ok("hold:left"@)
            } else {
                Ok("release:left"@)
            }
        } else if k@ == "vol"@ {
            let l = num(i.level);
            Ok("vol:"@ + crate::text::signed_decimal(if l < 0 { 0 } else if l > 100 { 100 } else { l }))
        } else if k@ == "text"@ {
            match i.text {
                Some(t) => if t@.len() > 0 {
                    Ok("type:"@ + t@)
                } else {
                    Err("unknown_action"@)
                },
                None => Err("unknown_action"@),
            }
        } else {
            Err("unknown_action"@)
        },
    }
}

/// A number field within ±4096.
fn num_exec(v: Option<i64>) -> (r: i64)
    ensures
        r == num(v),
{
    let x = match v {
        Some(x) => x,
        None => 0,
    };
    if x < -4096 {
        -4096
    } else if x > 4096 {
        4096
    } else {
        x
    }
}

/// Appends a signed number in decimal.
fn push_signed(m: &mut String, n: i64)
    ensures
        final(m)@ == old(m)@ + crate::text::signed_decimal(n as int),
{
    let d = crate::text::signed_decimal_exec(n);
    let ds = string_of(d.as_slice());
    m.append(ds.as_str());
}

/// The action a continuous input maps to.
pub fn input_action(i: &Input) -> (r: Result<String, &'static str>)
    ensures
        match r {
            Ok(a) => input_spec(*i) == Ok::<Seq<char>, Seq<char>>(a@),
            Err(e) => input_spec(*i) == Err::<Seq<char>, Seq<char>>(e@),
        },
{
    let k = match &i.kind {
        Some(k) => k.as_str(),
        None => {
            return Err("unknown_action");
        },
    };
    if same(k, "mouse") {
        let mut a = String::from_str("mouse:");
        push_signed(&mut a, num_exec(i.dx));
        a.append(",");
        push_signed(&mut a, num_exec(i.dy));
        proof {
            reveal_strlit(",");
        }
        assert(a@ =~= "mouse:"@ + crate::text::signed_decimal(num(i.dx)) + seq![','] + crate::text::signed_decimal(num(i.dy)));
        Ok(a)
    } else if same(k, "scroll") {
        let mut a = String::from_str("scroll:");
        push_signed(&mut a, num_exec(i.n));
        Ok(a)
    } else if same(k, "hscroll") {
        let mut a = String::from_str("hscroll:");
        push_signed(&mut a, num_exec(i.n));
        Ok(a)
    } else if same(k, "zoom") {
        let mut a = String::from_str("zoom:");
        push_signed(&mut a, num_exec(i.n));
        Ok(a)
    } else if same(k, "click") {
        let right = match &i.button {
            Some(b) => same(b.as_str(), "right"),
            None => false,
        };
        if right {
            Ok(String::from_str("click:right"))
        } else {
            Ok(String::from_str("click:left"))
        }
    } else if same(k, "drag") {
        if i.down == Some(true) {
            Ok(String::from_str("hold:left"))
        } else {
            Ok(String::from_str("release:left"))
        }
    } else if same(k, "vol") {
        let l = num_exec(i.level);
        let v: i64 = if l < 0 { 0 } else if l > 100 { 100 } else { l };
        let mut a = String::from_str("vol:");
        push_signed(&mut a, v);
        Ok(a)
    } else if same(k, "text") {
        match &i.text {
            Some(t) => {
                if t.as_str().is_empty() {
                    Err("unknown_action")
                } else {
                    let mut a = String::from_str("type:");
                    a.append(t.as_str());
                    Ok(a)
                }
            },
            None => Err("unknown_action"),
        }
    } else {
        Err("unknown_action")
    }
}

/// Screens the client opens itself: the host has nothing to do but answer ok.
pub open spec fn client_action(a: Seq<char>) -> bool {
    a == "trackpad"@ || a == "dictate"@
}

/// Whether the client opens this screen itself.
pub fn is_client_action(action: &str) -> (r: bool)
    ensures
        r == client_action(action@),
{
    same(action, "trackpad") || same(action, "dictate")
}

/// Actions that move the session (to a deck, a mode, the window switcher) or open a screen on the
/// client, rather than driving the desktop.
pub fn is_session_action(action: &str) -> (r: bool)
    ensures
        r == (action@ == "windows"@ || client_action(action@) || is_prefix("deck:"@, action@)
            || is_prefix("mode:"@, action@)),
{
    let c = chars_of(action);
    same(action, "windows") || is_client_action(action) || starts_with_lit(c.as_slice(), "deck:")
        || starts_with_lit(c.as_slice(), "mode:")
}

// ---------------------------------------------------------------------------------------------
// What the clients see
// ---------------------------------------------------------------------------------------------

/// The decks the clients see: the editor's unsaved preview while there is one, the saved ones
/// otherwise. Rendering and resolving both go through this, so a press is always resolved against
/// the decks that were drawn.
pub fn with_decks<'a>(preview: &'a Option<Vec<Deck>>, saved: &'a Vec<Deck>) -> (r: &'a Vec<Deck>)
    ensures
        match preview {
            Some(p) => r == p,
            None => r == saved,
        },
{
    match preview {
        Some(p) => p,
        None => saved,
    }
}

/// Shows unsaved decks to the clients until the preview is cleared.
pub fn set_preview(preview: &mut Option<Vec<Deck>>, decks: Vec<Deck>)
    ensures
        *final(preview) == Some(decks),
{
    *preview = Some(decks);
}

/// Back to the saved decks. Returns whether there was a preview, so the clients need redrawing.
pub fn clear_preview(preview: &mut Option<Vec<Deck>>) -> (r: bool)
    ensures
        r == (*old(preview) is Some),
        *final(preview) is None,
{
    let had = preview.is_some();
    *preview = None;
    had
}

/// The app ids of the keys of a page, in order.
pub open spec fn page_app_ids(keys: Seq<KeyView>) -> Seq<Seq<char>>
    decreases keys.len(),
{
    if keys.len() == 0 {
        Seq::empty()
    } else {
        match app_target(keys.last().action) {
            Some(id) => page_app_ids(keys.drop_last()).push(id),
            None => page_app_ids(keys.drop_last()),
        }
    }
}

/// Whether some key of some page of some deck names app `id`.
pub open spec fn decks_name_app(decks: Seq<DeckView>, id: Seq<char>) -> bool {
    exists|d: int, p: int|
        0 <= d < decks.len() && 0 <= p < decks[d].pages.len() && #[trigger] page_app_ids(
            decks[d].pages[p].keys,
        ).contains(id)
}

/// Every app a manual deck can show, sorted, each once; none at all while no client is connected,
/// so nobody pays for enumerating windows to answer a question nobody asks.
pub fn manual_app_ids(clients: usize, decks: &Vec<Deck>) -> (r: Vec<String>)
    ensures
        strictly_sorted(string_views(r@)),
        clients == 0 ==> r@.len() == 0,
        clients > 0 ==> forall|x: Seq<char>|
            #[trigger] string_views(r@).contains(x) == decks_name_app(deck_views(decks@), x),
{
    let mut out: Vec<String> = Vec::new();
    if clients == 0 {
        return out;
    }
    let ghost dv = deck_views(decks@);
    let mut d: usize = 0;
    while d < decks.len()
        invariant
            d <= decks@.len(),
            dv == deck_views(decks@),
            strictly_sorted(string_views(out@)),
            forall|x: Seq<char>|
                #[trigger] string_views(out@).contains(x) == exists|a: int, p: int|
                    0 <= a < d && 0 <= p < dv[a].pages.len() && #[trigger] page_app_ids(
                        dv[a].pages[p].keys,
                    ).contains(x),
        decreases decks@.len() - d,
    {
        let deck = &decks[d];
        assert(dv[d as int] == deck@);
        let mut p: usize = 0;
        while p < deck.pages.len()
            invariant
                p <= deck@.pages.len(),
                d < decks@.len(),
                dv == deck_views(decks@),
                dv[d as int] == deck@,
                strictly_sorted(string_views(out@)),
                forall|x: Seq<char>|
                    #[trigger] string_views(out@).contains(x) == ((exists|a: int, q: int|
                        0 <= a < d && 0 <= q < dv[a].pages.len() && #[trigger] page_app_ids(
                            dv[a].pages[q].keys,
                        ).contains(x)) || exists|q: int| 0 <= q < p && #[trigger] page_app_ids(
                        dv[d as int].pages[q].keys,
                    ).contains(x)),
            decreases deck@.pages.len() - p,
        {
            let pg = &deck.pages[p];
            assert(deck@.pages[p as int] == pg@);
            let ghost base = string_views(out@);
            let mut k: usize = 0;
            while k < pg.keys.len()
                invariant
                    k <= pg@.keys.len(),
                    strictly_sorted(string_views(out@)),
                    forall|x: Seq<char>|
                        #[trigger] string_views(out@).contains(x) == (base.contains(x)
                            || page_app_ids(pg@.keys.subrange(0, k as int)).contains(x)),
                decreases pg@.keys.len() - k,
            {
                proof {
                    let pre = pg@.keys.subrange(0, k + 1);
                    assert(pre.drop_last() =~= pg@.keys.subrange(0, k as int));
                    assert(pre.last() == pg.keys@[k as int]@);
                }
                match app_target_exec(&pg.keys[k].action) {
                    Some(id) => {
                        let ghost idv = id@;
                        let ghost before = string_views(out@);
                        insert_sorted(&mut out, id);
                        proof {
                            let prev_ids = page_app_ids(pg@.keys.subrange(0, k as int));
                            let next_ids = page_app_ids(pg@.keys.subrange(0, k + 1));
                            assert(next_ids == prev_ids.push(idv));
                            assert forall|x: Seq<char>| #[trigger] next_ids.contains(x) == (prev_ids.contains(x) || x == idv) by {
                                if next_ids.contains(x) {
                                    let j = choose|j: int| 0 <= j < next_ids.len() && #[trigger] next_ids[j] == x;
                                    if j < prev_ids.len() {
                                        assert(prev_ids[j] == x);
                                    }
                                }
                                if prev_ids.contains(x) {
                                    let j = choose|j: int| 0 <= j < prev_ids.len() && #[trigger] prev_ids[j] == x;
                                    assert(next_ids[j] == x);
                                }
                                if x == idv {
                                    assert(next_ids[prev_ids.len() as int] == x);
                                }
                            }
                        }
                    },
                    None => {},
                }
                k = k + 1;
            }
            proof {
                assert(pg@.keys.subrange(0, pg@.keys.len() as int) =~= pg@.keys);
                assert forall|x: Seq<char>| #[trigger] string_views(out@).contains(x) == ((exists|a: int, q: int|
                    0 <= a < d && 0 <= q < dv[a].pages.len() && #[trigger] page_app_ids(
                        dv[a].pages[q].keys,
                    ).contains(x)) || exists|q: int| 0 <= q < p + 1 && #[trigger] page_app_ids(
                    dv[d as int].pages[q].keys,
                ).contains(x)) by {
                    if page_app_ids(pg@.keys).contains(x) {
                        assert(page_app_ids(dv[d as int].pages[p as int].keys).contains(x));
                    }
                    if exists|q: int| 0 <= q < p + 1 && #[trigger] page_app_ids(dv[d as int].pages[q].keys).contains(x) {
                        let q = choose|q: int| 0 <= q < p + 1 && #[trigger] page_app_ids(dv[d as int].pages[q].keys).contains(x);
                        if q < p {
                            assert(exists|q2: int| 0 <= q2 < p && #[trigger] page_app_ids(dv[d as int].pages[q2].keys).contains(x));
                        }
                    }
                }
            }
            p = p + 1;
        }
        proof {
            assert forall|x: Seq<char>| #[trigger] string_views(out@).contains(x) == exists|a: int, q: int|
                0 <= a < d + 1 && 0 <= q < dv[a].pages.len() && #[trigger] page_app_ids(
                    dv[a].pages[q].keys,
                ).contains(x) by {
                if exists|a: int, q: int|
                    0 <= a < d + 1 && 0 <= q < dv[a].pages.len() && #[trigger] page_app_ids(dv[a].pages[q].keys).contains(x) {
                    let (a, q) = choose|a: int, q: int|
                        0 <= a < d + 1 && 0 <= q < dv[a].pages.len() && #[trigger] page_app_ids(dv[a].pages[q].keys).contains(x);
                    if a < d {
                        assert(exists|a2: int, q2: int| 0 <= a2 < d && 0 <= q2 < dv[a2].pages.len() && #[trigger] page_app_ids(dv[a2].pages[q2].keys).contains(x));
                    } else {
                        assert(exists|q2: int| 0 <= q2 < deck@.pages.len() && #[trigger] page_app_ids(dv[d as int].pages[q2].keys).contains(x));
                    }
                }
            }
        }
        d = d + 1;
    }
    out
}

/// The client pages either side of `here` that exist: what to preload so a swipe has something to
/// draw.
pub fn preload_pages(page: &Page, grid: Grid, here: usize) -> (r: Vec<usize>)
    requires
        grid.wf(),
    ensures
        r@ == (if here >= 1 && here - 1 < crate::deck::page_count(page@.keys, grid) {
            seq![(here - 1) as usize]
        } else {
            Seq::empty()
        }) + (if here + 1 < crate::deck::page_count(page@.keys, grid) {
            seq![(here + 1) as usize]
        } else {
            Seq::empty()
        }),
{
    let total = crate::deck::pages(page, grid);
    let mut out: Vec<usize> = Vec::new();
    if here >= 1 && here - 1 < total {
        out.push(here - 1);
    }
    if here < total && here + 1 < total {
        out.push(here + 1);
    }
    assert(out@ =~= (if here >= 1 && here - 1 < total {
        seq![(here - 1) as usize]
    } else {
        Seq::empty()
    }) + (if here + 1 < total {
        seq![(here + 1) as usize]
    } else {
        Seq::empty()
    }));
    out
}

} // verus!
