//! What the host answers each message a client sends, and how the message moves the client's
//! session, the pairing attempt, the paired devices and the profile catalogue. The socket, the
//! JSON and the desktop are the caller's: a message arrives here already parsed, and the answer
//! says what to send, what to run on the desktop, and what to draw.
use vstd::prelude::*;

use crate::config::{deck_views, lemma_page_index, opt_view, Deck, DeckView, Key, KeyView, Profile, ProfileView};
use crate::deck::{clamp, resolved, Grid, MAX_SIDE};
use crate::faces::face_set;
use crate::i18n::{lang_of, set_locale};
use crate::layout::{profile_views, AutoLayout};
use crate::pairing::{
    after_confirm, confirm, confirm_error, device_index, device_views, is_device_id, is_token,
    locked, others, slot_view, start, authenticate, Device, DeviceView, PendingPairing,
    PendingView, CODE_TTL_SECS, LOCKOUT_SECS,
};
use crate::session::{
    client_action, deck_press, deck_with_id, input_action, input_spec, is_client_action, is_session_action,
    manual_choice, manual_target, resolve_press, run_of, with_decks, Input, Press, PressView,
    Session, SessionView,
};
use crate::state::ObsState;
use crate::text::{is_prefix, own, same};

verus! {

/// A message from a client, parsed: its type and the fields that type reads, each absent when
/// the client left it out or sent something of another JSON type.
#[allow(inconsistent_fields)]
pub enum Request {
    PairRequest { device: Option<String>, platform: Option<String> },
    PairConfirm { code: Option<String> },
    Hello {
        v: Option<i64>,
        device_id: Option<String>,
        token: Option<String>,
        rows: Option<u64>,
        cols: Option<u64>,
        locale: Option<String>,
    },
    Key { id: Option<String>, page: Option<u64>, pos: Option<u64>, press: Option<String> },
    Input(Input),
    SetMode { mode: Option<String>, deck_id: Option<String> },
    SetGrid { rows: Option<u64>, cols: Option<u64> },
    SetPage { page: Option<u64> },
    ListWindows { page: Option<u64> },
    /// A profile scanned from another host's QR; `None` when it did not parse as one.
    ImportProfile(Option<Profile>),
    FocusWindow { id: Option<i64> },
    /// A type this host does not know.
    Unknown,
}

/// What to answer a message.
pub enum Answer {
    /// The layout of this deck and page, for the session's grid, page and language.
    Manual { deck: usize, page: usize },
    /// The current auto-mode layout, for the session's grid, page and language.
    Auto,
    /// A code is on the PC's screen; the client has this many seconds to type it.
    PairChallenge { expires_in: u64 },
    /// Paired: the client keeps this device's id and token.
    Paired(Device),
    PairRefused(&'static str),
    /// Authenticated; the answer names the host's decks and the session's mode.
    HelloOk,
    HelloRefused(&'static str),
    KeyOk(String),
    KeyFailed(String, &'static str),
    /// Run this action on the desktop, then answer with its result (for the key with this id, or
    /// for a continuous input when there is none); on success, flip the face at `flip`.
    Run { id: Option<String>, action: String, flip: Option<String> },
    InputFailed(&'static str),
    CommandOk,
    /// A profile was imported.
    Imported,
    CommandFailed(&'static str),
    /// This page of the window switcher.
    Windows(usize),
    /// Focus this window, then answer ok.
    Focus(isize),
}

/// An answer by its contents.
pub enum AnswerView {
    Manual { deck: int, page: int },
    Auto,
    PairChallenge { expires_in: u64 },
    Paired(DeviceView),
    PairRefused(Seq<char>),
    HelloOk,
    HelloRefused(Seq<char>),
    KeyOk(Seq<char>),
    KeyFailed(Seq<char>, Seq<char>),
    Run { id: Option<Seq<char>>, action: Seq<char>, flip: Option<Seq<char>> },
    InputFailed(Seq<char>),
    CommandOk,
    Imported,
    CommandFailed(Seq<char>),
    Windows(int),
    Focus(int),
}

impl View for Answer {
    type V = AnswerView;

    open spec fn view(&self) -> AnswerView {
        match self {
            Answer::Manual { deck, page } => AnswerView::Manual { deck: *deck as int, page: *page as int },
            Answer::Auto => AnswerView::Auto,
            Answer::PairChallenge { expires_in } => AnswerView::PairChallenge { expires_in: *expires_in },
            Answer::Paired(d) => AnswerView::Paired(d@),
            Answer::PairRefused(e) => AnswerView::PairRefused(e@),
            Answer::HelloOk => AnswerView::HelloOk,
            Answer::HelloRefused(e) => AnswerView::HelloRefused(e@),
            Answer::KeyOk(id) => AnswerView::KeyOk(id@),
            Answer::KeyFailed(id, e) => AnswerView::KeyFailed(id@, e@),
            Answer::Run { id, action, flip } => AnswerView::Run { id: opt_view(*id), action: action@, flip: opt_view(*flip) },
            Answer::InputFailed(e) => AnswerView::InputFailed(e@),
            Answer::CommandOk => AnswerView::CommandOk,
            Answer::Imported => AnswerView::Imported,
            Answer::CommandFailed(e) => AnswerView::CommandFailed(e@),
            Answer::Windows(p) => AnswerView::Windows(*p as int),
            Answer::Focus(w) => AnswerView::Focus(*w as int),
        }
    }
}

/// An optional answer by its contents.
pub open spec fn opt_answer(a: Option<Answer>) -> Option<AnswerView> {
    match a {
        Some(a) => Some(a@),
        None => None,
    }
}

/// `o`, or `d` when absent.
pub open spec fn or_str(o: Option<String>, d: Seq<char>) -> Seq<char> {
    match o {
        Some(s) => s@,
        None => d,
    }
}

fn or_default(o: &Option<String>, d: &str) -> (r: String)
    ensures
        r@ == or_str(*o, d@),
{
    match o {
        Some(s) => s.clone(),
        None => own(d),
    }
}

// ---------------------------------------------------------------------------------------------
// What a session is shown
// ---------------------------------------------------------------------------------------------

/// The deck and page a manual session is shown: it snaps onto what exists (the first deck, the
/// entry page) and remembers where it landed.
pub open spec fn manual_shown(s: SessionView, decks: Seq<DeckView>) -> (SessionView, Option<AnswerView>) {
    match manual_choice(decks, s.deck_id, s.page_id) {
        None => (s, None),
        Some((d, p)) => (
            SessionView { deck_id: decks[d].id, page_id: decks[d].pages[p].id, ..s },
            Some(AnswerView::Manual { deck: d, page: p }),
        ),
    }
}

/// What a session is shown: its deck in manual mode, the current auto layout otherwise (when
/// there is one yet).
pub open spec fn shown(s: SessionView, decks: Seq<DeckView>, has_auto: bool) -> (SessionView, Option<AnswerView>) {
    if s.manual {
        manual_shown(s, decks)
    } else {
        (s, if has_auto { Some(AnswerView::Auto) } else { None })
    }
}

fn show_manual(s: &mut Session, decks: &Vec<Deck>) -> (r: Option<Answer>)
    ensures
        (final(s)@, opt_answer(r)) == manual_shown(old(s)@, deck_views(decks@)),
        final(s).grid == old(s).grid,
{
    match manual_target(decks, s.deck_id.as_str(), s.page_id.as_str()) {
        None => None,
        Some((d, p)) => {
            s.deck_id = decks[d].id.clone();
            s.page_id = decks[d].pages[p].id.clone();
            Some(Answer::Manual { deck: d, page: p })
        },
    }
}

fn show(s: &mut Session, decks: &Vec<Deck>, has_auto: bool) -> (r: Option<Answer>)
    ensures
        (final(s)@, opt_answer(r)) == shown(old(s)@, deck_views(decks@), has_auto),
        final(s).grid == old(s).grid,
{
    if s.manual {
        show_manual(s, decks)
    } else if has_auto {
        Some(Answer::Auto)
    } else {
        None
    }
}

// ---------------------------------------------------------------------------------------------
// Presses that move the session
// ---------------------------------------------------------------------------------------------

/// What a session action does (a press of `a`, from the key with id `id`): a screen the client
/// opens itself is answered ok; `deck:<id>` moves the session to the entry page of that saved
/// deck in manual mode; `mode:<m>` switches mode and shows what the session then sees;
/// `windows` opens the window switcher. The desktop is never touched.
pub open spec fn session_moved(
    a: Seq<char>,
    s: SessionView,
    id: Seq<char>,
    saved: Seq<DeckView>,
    decks: Seq<DeckView>,
    has_auto: bool,
) -> (SessionView, AnswerView) {
    if client_action(a) {
        (s, AnswerView::KeyOk(id))
    } else if is_prefix("deck:"@, a) {
        let want = a.subrange(5, a.len() as int);
        if crate::seeding::deck_index(saved, want) is None {
            (s, AnswerView::KeyFailed(id, "no_such_key"@))
        } else {
            let s1 = SessionView { deck_id: want, page_id: Seq::empty(), page: 0, manual: true, ..s };
            let (s2, shown_now) = manual_shown(s1, decks);
            match shown_now {
                Some(ans) => (s2, ans),
                None => (s2, AnswerView::KeyFailed(id, "no_such_key"@)),
            }
        }
    } else if is_prefix("mode:"@, a) {
        let s1 = SessionView { manual: a.subrange(5, a.len() as int) == "manual"@, page: 0, ..s };
        let (s2, shown_now) = shown(s1, decks, has_auto);
        match shown_now {
            Some(ans) => (s2, ans),
            None => (s2, if s1.manual {
                AnswerView::KeyFailed(id, "no_such_key"@)
            } else {
                AnswerView::KeyOk(id)
            }),
        }
    } else if a == "windows"@ {
        (s, AnswerView::Windows(0))
    } else {
        (s, AnswerView::KeyFailed(id, "unknown_action"@))
    }
}

fn session_action(
    a: &str,
    s: &mut Session,
    id: String,
    saved: &Vec<Deck>,
    decks: &Vec<Deck>,
    has_auto: bool,
) -> (r: Answer)
    ensures
        (final(s)@, r@) == session_moved(a@, old(s)@, id@, deck_views(saved@), deck_views(decks@), has_auto),
        final(s).grid == old(s).grid,
{
    proof {
        reveal_strlit("deck:");
        reveal_strlit("mode:");
    }
    if is_client_action(a) {
        return Answer::KeyOk(id);
    }
    let c = crate::text::chars_of(a);
    match crate::text::strip_prefix_lit(c.as_slice(), "deck:") {
        Some(want) => {
            let want = crate::text::string_of(want.as_slice());
            match crate::seeding::find_deck(saved, want.as_str()) {
                None => {
                    return Answer::KeyFailed(id, "no_such_key");
                },
                Some(_) => {},
            }
            s.deck_id = want;
            s.page_id = String::new();
            s.page = 0;
            s.manual = true;
            return match show_manual(s, decks) {
                Some(ans) => ans,
                None => Answer::KeyFailed(id, "no_such_key"),
            };
        },
        None => {},
    }
    match crate::text::strip_prefix_lit(c.as_slice(), "mode:") {
        Some(mode) => {
            s.manual = crate::text::is(mode.as_slice(), "manual");
            s.page = 0;
            let manual = s.manual;
            return match show(s, decks, has_auto) {
                Some(ans) => ans,
                None => if manual {
                    Answer::KeyFailed(id, "no_such_key")
                } else {
                    Answer::KeyOk(id)
                },
            };
        },
        None => {},
    }
    if same(a, "windows") {
        return Answer::Windows(0);
    }
    Answer::KeyFailed(id, "unknown_action")
}

// ---------------------------------------------------------------------------------------------
// Presses
// ---------------------------------------------------------------------------------------------

/// The keys of the current auto layout, when there is one.
pub open spec fn auto_keys(auto: Option<&AutoLayout>) -> Option<Seq<KeyView>> {
    match auto {
        Some(a) => Some(crate::config::key_views(a.keys@)),
        None => None,
    }
}

/// Actions that move the session or open a screen on the client instead of driving the desktop.
pub open spec fn moves_session(a: Seq<char>) -> bool {
    a == "windows"@ || client_action(a) || is_prefix("deck:"@, a) || is_prefix("mode:"@, a)
}

/// What a press at (page, cell) of the session's layout means: resolved against the auto layout
/// in auto mode, against the session's deck and page (the preview when there is one) in manual
/// mode.
pub open spec fn press_meaning(
    s: SessionView,
    decks: Seq<DeckView>,
    auto: Option<Seq<KeyView>>,
    page: int,
    pos: int,
    kind: Seq<char>,
    faces: Seq<Seq<char>>,
    obs: ObsState,
) -> Result<PressView, Seq<char>> {
    if !s.manual {
        match auto {
            None => Err("no_such_key"@),
            Some(keys) => match resolved(keys, s.grid, page, pos) {
                None => Err("no_such_key"@),
                Some(k) => run_of(k, kind),
            },
        }
    } else {
        match manual_choice(decks, s.deck_id, s.page_id) {
            None => Err("no_such_key"@),
            Some((d, p)) => deck_press(decks[d], decks[d].pages[p], s.grid, page, pos, kind, faces, obs),
        }
    }
}

/// What pressing a key does: a navigating key moves the session to its page and shows it; a
/// session action moves the session; anything else is run on the desktop, a two-state key
/// flipping its face once its action succeeded. A press that means nothing is refused.
pub open spec fn key_pressed(
    s: SessionView,
    id: Seq<char>,
    page: int,
    pos: int,
    kind: Seq<char>,
    saved: Seq<DeckView>,
    decks: Seq<DeckView>,
    auto: Option<Seq<KeyView>>,
    faces: Seq<Seq<char>>,
    obs: ObsState,
) -> (SessionView, AnswerView) {
    match press_meaning(s, decks, auto, page, pos, kind, faces, obs) {
        Err(e) => (s, AnswerView::KeyFailed(id, e)),
        Ok(PressView::Go(t)) => {
            let s1 = SessionView { page_id: t, page: 0, ..s };
            let (s2, shown_now) = manual_shown(s1, decks);
            match shown_now {
                Some(ans) => (s2, ans),
                None => (s2, AnswerView::KeyFailed(id, "no_such_key"@)),
            }
        },
        Ok(PressView::Run(a)) => if moves_session(a) {
            session_moved(a, s, id, saved, decks, auto is Some)
        } else {
            (s, AnswerView::Run { id: Some(id), action: a, flip: None })
        },
        Ok(PressView::Toggle(a, at)) => if moves_session(a) {
            session_moved(a, s, id, saved, decks, auto is Some)
        } else {
            (s, AnswerView::Run { id: Some(id), action: a, flip: Some(at) })
        },
    }
}

fn press_key(
    s: &mut Session,
    id: String,
    page: usize,
    pos: usize,
    kind: &str,
    saved: &Vec<Deck>,
    decks: &Vec<Deck>,
    auto: Option<&AutoLayout>,
    faces: &Vec<String>,
    obs: &ObsState,
) -> (r: Answer)
    requires
        old(s).grid.wf(),
    ensures
        (final(s)@, r@) == key_pressed(
            old(s)@,
            id@,
            page as int,
            pos as int,
            kind@,
            deck_views(saved@),
            deck_views(decks@),
            auto_keys(auto),
            face_set(faces@),
            *obs,
        ),
        final(s).grid == old(s).grid,
{
    let meaning = resolve_press(s, decks, auto, page, pos, kind, faces, obs);
    match meaning {
        Err(e) => Answer::KeyFailed(id, e),
        Ok(Press::Go(t)) => {
            s.page_id = t;
            s.page = 0;
            match show_manual(s, decks) {
                Some(ans) => ans,
                None => Answer::KeyFailed(id, "no_such_key"),
            }
        },
        Ok(Press::Run(a)) => {
            if is_session_action(a.as_str()) {
                session_action(a.as_str(), s, id, saved, decks, auto.is_some())
            } else {
                Answer::Run { id: Some(id), action: a, flip: None }
            }
        },
        Ok(Press::Toggle(a, at)) => {
            if is_session_action(a.as_str()) {
                session_action(a.as_str(), s, id, saved, decks, auto.is_some())
            } else {
                Answer::Run { id: Some(id), action: a, flip: Some(at) }
            }
        },
    }
}

// ---------------------------------------------------------------------------------------------
// Messages
// ---------------------------------------------------------------------------------------------

/// Why a pairing request is refused, if it is.
pub open spec fn start_error(slot: Option<PendingView>, pairing_open: bool, now: u64) -> Option<Seq<char>> {
    if !pairing_open {
        Some("pairing_closed"@)
    } else if slot matches Some(p) && locked(p, now) {
        Some("rate_limited"@)
    } else {
        None
    }
}

/// Why a reconnecting device is refused, if it is.
pub open spec fn auth_error(devs: Seq<DeviceView>, id: Seq<char>, token: Seq<char>) -> Option<Seq<char>> {
    match device_index(devs, id) {
        None => Some("revoked"@),
        Some(i) => if devs[i].token != token {
            Some("invalid_token"@)
        } else {
            None
        },
    }
}

/// The devices after one with this id was seen at `now`.
pub open spec fn seen(devs: Seq<DeviceView>, id: Seq<char>, now: u64) -> Seq<DeviceView> {
    match device_index(devs, id) {
        Some(i) => devs.update(i, DeviceView { last_seen: now, ..devs[i] }),
        None => devs,
    }
}

/// A number field, or `d` when absent.
pub open spec fn or_u64(o: Option<u64>, d: u64) -> u64 {
    match o {
        Some(x) => x,
        None => d,
    }
}

/// The grid a client declares, 3×5 for a side it leaves out, each side clamped.
pub open spec fn grid_of(rows: Option<u64>, cols: Option<u64>) -> Grid {
    Grid {
        rows: clamp((or_u64(rows, 3) as usize) as int, 1, MAX_SIDE as int) as usize,
        cols: clamp((or_u64(cols, 5) as usize) as int, 1, MAX_SIDE as int) as usize,
        reserve: 0,
    }
}

/// The profiles without any of this id.
pub open spec fn without_profile(ps: Seq<ProfileView>, id: Seq<char>) -> Seq<ProfileView>
    decreases ps.len(),
{
    if ps.len() == 0 {
        Seq::empty()
    } else if ps.last().id == id {
        without_profile(ps.drop_last(), id)
    } else {
        without_profile(ps.drop_last(), id).push(ps.last())
    }
}

/// The catalogue after importing `p`: it goes first, so it wins matching over the built-in
/// profiles, and replaces any profile of the same id.
pub open spec fn imported(ps: Seq<ProfileView>, p: ProfileView) -> Seq<ProfileView> {
    seq![p] + without_profile(ps, p.id)
}

/// How a message that only concerns the session moves it, and what it is answered. Everything
/// but the pairing handshake needs an authenticated session.
pub open spec fn respond(
    s: SessionView,
    req: Request,
    saved: Seq<DeckView>,
    decks: Seq<DeckView>,
    auto: Option<Seq<KeyView>>,
    faces: Seq<Seq<char>>,
    obs: ObsState,
) -> (SessionView, AnswerView) {
    match req {
        Request::Key { id, page, pos, press } => {
            let idv = or_str(id, ""@);
            if !s.authed {
                (s, AnswerView::KeyFailed(idv, "not_paired"@))
            } else {
                key_pressed(
                    s,
                    idv,
                    (or_u64(page, 0) as usize) as int,
                    (or_u64(pos, 0) as usize) as int,
                    or_str(press, "short"@),
                    saved,
                    decks,
                    auto,
                    faces,
                    obs,
                )
            }
        },
        Request::Input(i) => if !s.authed {
            (s, AnswerView::InputFailed("not_paired"@))
        } else {
            let s1 = if i.kind matches Some(k) && k@ == "drag"@ {
                SessionView { dragging: i.down == Some(true), ..s }
            } else {
                s
            };
            match input_spec(i) {
                Ok(a) => (s1, AnswerView::Run { id: None, action: a, flip: None }),
                Err(e) => (s1, AnswerView::InputFailed(e)),
            }
        },
        Request::SetMode { mode, deck_id } => if !s.authed {
            (s, AnswerView::CommandFailed("not_paired"@))
        } else {
            let s1 = SessionView {
                manual: mode matches Some(m) && m@ == "manual"@,
                page: 0,
                ..s
            };
            let s2 = match deck_id {
                Some(d) => SessionView { deck_id: d@, page_id: Seq::empty(), ..s1 },
                None => s1,
            };
            let (s3, shown_now) = shown(s2, decks, auto is Some);
            match shown_now {
                Some(ans) => (s3, ans),
                None => (s3, if s2.manual {
                    AnswerView::CommandFailed("no_such_key"@)
                } else {
                    AnswerView::CommandOk
                }),
            }
        },
        Request::SetGrid { rows, cols } => if !s.authed {
            (s, AnswerView::CommandFailed("not_paired"@))
        } else {
            let s1 = SessionView { grid: grid_of(rows, cols), page: 0, ..s };
            let (s2, shown_now) = shown(s1, decks, auto is Some);
            match shown_now {
                Some(ans) => (s2, ans),
                None => (s2, AnswerView::CommandOk),
            }
        },
        Request::SetPage { page } => if !s.authed {
            (s, AnswerView::CommandFailed("not_paired"@))
        } else {
            let s1 = SessionView { page: or_u64(page, 0) as usize, ..s };
            let (s2, shown_now) = shown(s1, decks, auto is Some);
            match shown_now {
                Some(ans) => (s2, ans),
                None => (s2, AnswerView::CommandFailed("no_such_key"@)),
            }
        },
        Request::ListWindows { page } => if !s.authed {
            (s, AnswerView::CommandFailed("not_paired"@))
        } else {
            (s, AnswerView::Windows((or_u64(page, 0) as usize) as int))
        },
        Request::FocusWindow { id } => if !s.authed {
            (s, AnswerView::CommandFailed("not_paired"@))
        } else {
            (s, AnswerView::Focus((match id {
                Some(x) => x,
                None => 0i64,
            } as isize) as int))
        },
        Request::Unknown => (s, AnswerView::CommandFailed("unknown_type"@)),
        _ => (s, AnswerView::CommandOk),
    }
}

/// Whether a message is part of the pairing handshake or edits the profile catalogue, rather than
/// only concerning the session.
pub open spec fn touches_host(req: Request) -> bool {
    req is PairRequest || req is PairConfirm || req is Hello || req is ImportProfile
}

fn grid_from(rows: &Option<u64>, cols: &Option<u64>) -> (g: Grid)
    ensures
        g == grid_of(*rows, *cols),
        g.wf(),
{
    let r = match rows {
        Some(x) => *x,
        None => 3,
    };
    let c = match cols {
        Some(x) => *x,
        None => 5,
    };
    Grid::new(r as usize, c as usize)
}

fn u64_or(o: &Option<u64>, d: u64) -> (r: u64)
    ensures
        r == or_u64(*o, d),
{
    match o {
        Some(x) => *x,
        None => d,
    }
}

fn import_profile(profiles: &mut Vec<Profile>, p: Profile)
    ensures
        profile_views(final(profiles)@) == imported(profile_views(old(profiles)@), p@),
{
    let ghost pv = p@;
    let mut r: Vec<Profile> = Vec::new();
    let mut i: usize = 0;
    while i < profiles.len()
        invariant
            i <= profiles.len(),
            pv == p@,
            profile_views(r@) == without_profile(profile_views(profiles@.subrange(0, i as int)), pv.id),
        decreases profiles.len() - i,
    {
        proof {
            let next = profile_views(profiles@.subrange(0, i + 1));
            assert(next.drop_last() =~= profile_views(profiles@.subrange(0, i as int)));
            assert(next.last() == profiles@[i as int]@);
        }
        let ghost prev = profile_views(profiles@.subrange(0, i as int));
        let ghost next = profile_views(profiles@.subrange(0, i + 1));
        assert(next.len() == i + 1);
        assert(next.drop_last() =~= prev);
        assert(next.last() == profiles@[i as int]@);
        assert(next.last().id == profiles@[i as int].id@);
        if !same(profiles[i].id.as_str(), p.id.as_str()) {
            let ghost before = profile_views(r@);
            r.push(profiles[i].clone());
            assert(profile_views(r@) =~= before.push(profiles@[i as int]@));
            assert(without_profile(next, pv.id) == without_profile(prev, pv.id).push(next.last()));
        } else {
            assert(without_profile(next, pv.id) == without_profile(prev, pv.id));
        }
        i = i + 1;
    }
    assert(profiles@.subrange(0, profiles@.len() as int) =~= profiles@);
    let mut out: Vec<Profile> = vec![p];
    let ghost kept = profile_views(r@);
    out.append(&mut r);
    assert(profile_views(out@) =~= seq![pv] + kept);
    *profiles = out;
}

/// What the host answers a message, and what the message changes: the session always; the
/// pending pairing attempt and the paired devices for the handshake; the profile catalogue for an
/// import. `saved` are the stored decks, `preview` the editor's unsaved ones the clients are shown
/// instead while there are any, `auto` the current auto-mode layout.
pub fn handle_message(
    s: &mut Session,
    req: Request,
    pairing: &mut Option<PendingPairing>,
    devices: &mut Vec<Device>,
    profiles: &mut Vec<Profile>,
    pairing_open: bool,
    now: u64,
    saved: &Vec<Deck>,
    preview: &Option<Vec<Deck>>,
    auto: Option<&AutoLayout>,
    faces: &Vec<String>,
    obs: &ObsState,
) -> (r: Answer)
    requires
        old(s).grid.wf(),
        now <= u64::MAX - LOCKOUT_SECS,
    ensures
        final(s).grid.wf(),
        !touches_host(req) ==> (final(s)@, r@) == respond(
            old(s)@,
            req,
            deck_views(saved@),
            deck_views(
                match preview {
                    Some(p) => p@,
                    None => saved@,
                },
            ),
            auto_keys(auto),
            face_set(faces@),
            *obs,
        ) && slot_view(*final(pairing)) == slot_view(*old(pairing)) && device_views(
            final(devices)@,
        ) == device_views(old(devices)@) && profile_views(final(profiles)@) == profile_views(
            old(profiles)@,
        ),
        req matches Request::PairRequest { device, platform } ==> final(s)@ == old(s)@
            && device_views(final(devices)@) == device_views(old(devices)@) && profile_views(
            final(profiles)@,
        ) == profile_views(old(profiles)@) && match start_error(
            slot_view(*old(pairing)),
            pairing_open,
            now,
        ) {
            Some(e) => r@ == AnswerView::PairRefused(e) && slot_view(*final(pairing)) == slot_view(
                *old(pairing),
            ),
            None => r@ == AnswerView::PairChallenge { expires_in: CODE_TTL_SECS } && (slot_view(
                *final(pairing),
            ) matches Some(p) && p.device_name == or_str(device, "unknown"@) && p.platform
                == or_str(platform, ""@) && p.expires_at == now + CODE_TTL_SECS
                && p.failed_attempts == 0 && p.locked_until is None && crate::pairing::is_code(
                p.code,
            )),
        },
        req matches Request::PairConfirm { code } ==> final(s)@ == old(s)@ && profile_views(
            final(profiles)@,
        ) == profile_views(old(profiles)@) && slot_view(*final(pairing)) == after_confirm(
            slot_view(*old(pairing)),
            or_str(code, ""@),
            now,
        ) && match confirm_error(slot_view(*old(pairing)), or_str(code, ""@), now) {
            Some(e) => r@ == AnswerView::PairRefused(e) && device_views(final(devices)@)
                == device_views(old(devices)@),
            None => *old(pairing) matches Some(p) && r matches Answer::Paired(d) && d@.name
                == p@.device_name && d@.platform == p@.platform && d@.last_seen == now && is_token(
                d@.token,
            ) && is_device_id(d@.device_id) && device_views(final(devices)@) == others(
                device_views(old(devices)@),
                p@.device_name,
                p@.platform,
            ).push(d@),
        },
        req matches Request::Hello { v, device_id, token, rows, cols, locale } ==> slot_view(
            *final(pairing),
        ) == slot_view(*old(pairing)) && profile_views(final(profiles)@) == profile_views(
            old(profiles)@,
        ) && if v != Some(2i64) {
            r@ == AnswerView::HelloRefused("protocol_too_old"@) && final(s)@ == old(s)@
                && device_views(final(devices)@) == device_views(old(devices)@)
        } else {
            match auth_error(
                device_views(old(devices)@),
                or_str(device_id, ""@),
                or_str(token, ""@),
            ) {
                Some(e) => r@ == AnswerView::HelloRefused(e) && final(s)@ == old(s)@
                    && device_views(final(devices)@) == device_views(old(devices)@),
                None => r@ == AnswerView::HelloOk && device_views(final(devices)@) == seen(
                    device_views(old(devices)@),
                    or_str(device_id, ""@),
                    now,
                ) && final(s)@ == SessionView {
                    authed: true,
                    grid: grid_of(rows, cols),
                    lang: lang_of(or_str(locale, "es"@)),
                    ..old(s)@
                },
            }
        },
        req matches Request::ImportProfile(p) ==> final(s)@ == old(s)@ && slot_view(
            *final(pairing),
        ) == slot_view(*old(pairing)) && device_views(final(devices)@) == device_views(
            old(devices)@,
        ) && if !old(s).authed {
            r@ == AnswerView::CommandFailed("not_paired"@) && profile_views(final(profiles)@)
                == profile_views(old(profiles)@)
        } else {
            match p {
                None => r@ == AnswerView::CommandFailed("bad_profile"@) && profile_views(
                    final(profiles)@,
                ) == profile_views(old(profiles)@),
                Some(p) => r@ == AnswerView::Imported && profile_views(final(profiles)@) == imported(
                    profile_views(old(profiles)@),
                    p@,
                ),
            }
        },
{
    let decks = with_decks(preview, saved);
    let has_auto = auto.is_some();
    match req {
        Request::PairRequest { device, platform } => {
            proof {
                reveal_strlit("unknown");
                reveal_strlit("");
            }
            let name = or_default(&device, "unknown");
            let plat = or_default(&platform, "");
            match start(pairing, pairing_open, name.as_str(), plat.as_str(), now) {
                Ok((_, expires_in)) => Answer::PairChallenge { expires_in },
                Err(e) => Answer::PairRefused(e),
            }
        },
        Request::PairConfirm { code } => {
            proof {
                reveal_strlit("");
            }
            let c = or_default(&code, "");
            match confirm(pairing, devices, c.as_str(), now) {
                Ok(d) => Answer::Paired(d),
                Err(e) => Answer::PairRefused(e),
            }
        },
        Request::Hello { v, device_id, token, rows, cols, locale } => {
            if v != Some(2i64) {
                return Answer::HelloRefused("protocol_too_old");
            }
            proof {
                reveal_strlit("");
                reveal_strlit("es");
            }
            let id = or_default(&device_id, "");
            let tok = or_default(&token, "");
            proof {
                crate::pairing::lemma_device_index(device_views(devices@), id@);
            }
            match authenticate(devices, id.as_str(), tok.as_str(), now) {
                Ok(()) => {
                    s.authed = true;
                    s.grid = grid_from(&rows, &cols);
                    let loc = or_default(&locale, "es");
                    set_locale(&mut s.lang, loc.as_str());
                    Answer::HelloOk
                },
                Err(e) => Answer::HelloRefused(e),
            }
        },
        Request::ImportProfile(p) => {
            if !s.authed {
                return Answer::CommandFailed("not_paired");
            }
            match p {
                None => Answer::CommandFailed("bad_profile"),
                Some(p) => {
                    import_profile(profiles, p);
                    Answer::Imported
                },
            }
        },
        Request::Key { id, page, pos, press } => {
            proof {
                reveal_strlit("");
                reveal_strlit("short");
            }
            let idv = or_default(&id, "");
            if !s.authed {
                return Answer::KeyFailed(idv, "not_paired");
            }
            let kind = or_default(&press, "short");
            let pg = u64_or(&page, 0) as usize;
            let ps = u64_or(&pos, 0) as usize;
            press_key(s, idv, pg, ps, kind.as_str(), saved, decks, auto, faces, obs)
        },
        Request::Input(i) => {
            if !s.authed {
                return Answer::InputFailed("not_paired");
            }
            let drag = match &i.kind {
                Some(k) => same(k.as_str(), "drag"),
                None => false,
            };
            if drag {
                s.dragging = i.down == Some(true);
            }
            match input_action(&i) {
                Ok(a) => Answer::Run { id: None, action: a, flip: None },
                Err(e) => Answer::InputFailed(e),
            }
        },
        Request::SetMode { mode, deck_id } => {
            if !s.authed {
                return Answer::CommandFailed("not_paired");
            }
            s.manual = match &mode {
                Some(m) => same(m.as_str(), "manual"),
                None => false,
            };
            s.page = 0;
            match deck_id {
                Some(d) => {
                    s.deck_id = d;
                    s.page_id = String::new();
                },
                None => {},
            }
            let manual = s.manual;
            match show(s, decks, has_auto) {
                Some(ans) => ans,
                None => if manual {
                    Answer::CommandFailed("no_such_key")
                } else {
                    Answer::CommandOk
                },
            }
        },
        Request::SetGrid { rows, cols } => {
            if !s.authed {
                return Answer::CommandFailed("not_paired");
            }
            s.grid = grid_from(&rows, &cols);
            s.page = 0;
            match show(s, decks, has_auto) {
                Some(ans) => ans,
                None => Answer::CommandOk,
            }
        },
        Request::SetPage { page } => {
            if !s.authed {
                return Answer::CommandFailed("not_paired");
            }
            s.page = u64_or(&page, 0) as usize;
            match show(s, decks, has_auto) {
                Some(ans) => ans,
                None => Answer::CommandFailed("no_such_key"),
            }
        },
        Request::ListWindows { page } => {
            if !s.authed {
                return Answer::CommandFailed("not_paired");
            }
            Answer::Windows(u64_or(&page, 0) as usize)
        },
        Request::FocusWindow { id } => {
            if !s.authed {
                return Answer::CommandFailed("not_paired");
            }
            let w: i64 = match id {
                Some(x) => x,
                None => 0,
            };
            Answer::Focus(w as isize)
        },
        Request::Unknown => Answer::CommandFailed("unknown_type"),
    }
}

// ---------------------------------------------------------------------------------------------
// Laws
// ---------------------------------------------------------------------------------------------

/// The actions a key carries: its three press bindings and the action of its second face.
pub open spec fn carries(k: KeyView, a: Seq<char>) -> bool {
    k.action == Some(a) || k.hold == Some(a) || k.double == Some(a) || (k.toggle matches Some(f)
        && f.action == Some(a))
}

/// The keys of the layout a session is on: the auto layout's in auto mode, those of the session's
/// deck page in manual mode.
pub open spec fn layout_keys(s: SessionView, decks: Seq<DeckView>, auto: Option<Seq<KeyView>>) -> Seq<KeyView> {
    if !s.manual {
        match auto {
            Some(keys) => keys,
            None => Seq::empty(),
        }
    } else {
        match manual_choice(decks, s.deck_id, s.page_id) {
            Some((d, p)) => decks[d].pages[p].keys,
            None => Seq::empty(),
        }
    }
}

proof fn lemma_first_live(keys: Seq<KeyView>, p: usize, i: int)
    ensures
        crate::deck::first_live_from(keys, p, i) matches Some(j) ==> 0 <= j < keys.len(),
    decreases keys.len() - i,
{
    if 0 <= i < keys.len() && !(keys[i].pos == p && keys[i].kind != crate::config::KeyKind::Empty) {
        lemma_first_live(keys, p, i + 1);
    }
}

proof fn lemma_resolved_is_stored(keys: Seq<KeyView>, grid: Grid, want: int, pos: int)
    ensures
        resolved(keys, grid, want, pos) matches Some(k) ==> exists|j: int| 0 <= j < keys.len() && keys[j] == k,
{
    let a = crate::deck::arranged(keys, grid, want);
    if 0 <= pos < a.len() && a[pos].kind != crate::config::KeyKind::Empty {
        lemma_first_live(keys, a[pos].pos, 0);
        if let Some(i) = crate::deck::first_live_from(keys, a[pos].pos, 0) {
            assert(keys[i] == keys[i]);
        }
    }
}

/// A client sends a position, never an action: whatever a key press has the host run on the
/// desktop is an action carried by a key of the layout that client was given.
pub proof fn law_a_press_runs_only_what_the_layout_holds(
    s: SessionView,
    id: Seq<char>,
    page: int,
    pos: int,
    kind: Seq<char>,
    saved: Seq<DeckView>,
    decks: Seq<DeckView>,
    auto: Option<Seq<KeyView>>,
    faces: Seq<Seq<char>>,
    obs: ObsState,
)
    ensures
        key_pressed(s, id, page, pos, kind, saved, decks, auto, faces, obs).1 matches AnswerView::Run {
            action,
            ..
        } ==> exists|j: int|
            0 <= j < layout_keys(s, decks, auto).len() && carries(
                #[trigger] layout_keys(s, decks, auto)[j],
                action,
            ),
{
    let keys = layout_keys(s, decks, auto);
    if !s.manual {
        if let Some(ks) = auto {
            lemma_resolved_is_stored(ks, s.grid, page, pos);
        }
    } else {
        if let Some((d, p)) = manual_choice(decks, s.deck_id, s.page_id) {
            lemma_resolved_is_stored(decks[d].pages[p].keys, s.grid, page, pos);
        }
    }
    if let AnswerView::Run { action, .. } = key_pressed(s, id, page, pos, kind, saved, decks, auto, faces, obs).1 {
        let k = if !s.manual {
            resolved(auto->0, s.grid, page, pos)->0
        } else {
            let (d, p) = manual_choice(decks, s.deck_id, s.page_id)->0;
            resolved(decks[d].pages[p].keys, s.grid, page, pos)->0
        };
        let j = choose|j: int| 0 <= j < keys.len() && keys[j] == k;
        assert(carries(keys[j], action));
    }
}

/// Continuous input is a closed vocabulary: whatever it has the host run is a pointer move, a
/// scroll, a zoom, a click, a held or released left button, a volume level, or text typed
/// verbatim. It can never carry a hotkey.
pub proof fn law_input_cannot_carry_a_hotkey(i: Input, a: Seq<char>)
    requires
        input_spec(i) == Ok::<Seq<char>, Seq<char>>(a),
    ensures
        is_prefix("mouse:"@, a) || is_prefix("scroll:"@, a) || is_prefix("hscroll:"@, a)
            || is_prefix("zoom:"@, a) || a == "click:left"@ || a == "click:right"@ || a
            == "hold:left"@ || a == "release:left"@ || is_prefix("vol:"@, a) || is_prefix(
            "type:"@,
            a,
        ),
{
    reveal_strlit("mouse:");
    reveal_strlit("scroll:");
    reveal_strlit("hscroll:");
    reveal_strlit("zoom:");
    reveal_strlit("vol:");
    reveal_strlit("type:");
    let k = i.kind->0;
    if k@ == "mouse"@ {
        let rest = crate::text::signed_decimal(crate::session::num(i.dx)) + seq![','] + crate::text::signed_decimal(crate::session::num(i.dy));
        assert(a == "mouse:"@ + rest);
        assert(a.subrange(0, 6) =~= "mouse:"@);
    } else if k@ == "scroll"@ {
        assert(a.subrange(0, 7) =~= "scroll:"@);
    } else if k@ == "hscroll"@ {
        assert(a.subrange(0, 8) =~= "hscroll:"@);
    } else if k@ == "zoom"@ {
        assert(a.subrange(0, 5) =~= "zoom:"@);
    } else if k@ == "click"@ {
    } else if k@ == "drag"@ {
    } else if k@ == "vol"@ {
        let l = crate::session::num(i.level);
        let d = crate::text::signed_decimal(if l < 0 { 0 } else if l > 100 { 100 } else { l });
        assert(a == "vol:"@ + d);
        assert(a.subrange(0, 4) =~= "vol:"@);
    } else if k@ == "text"@ {
        let t = i.text->0;
        assert(a == "type:"@ + t@);
        assert(a.subrange(0, 5) =~= "type:"@);
    }
}

/// A deck found by id lies in the list and carries that id.
proof fn lemma_deck_with_id(decks: Seq<DeckView>, id: Seq<char>, i: int)
    requires
        0 <= i,
    ensures
        deck_with_id(decks, id, i) matches Some(d) ==> i <= d < decks.len() && decks[d].id == id,
    decreases decks.len() - i,
{
    if i < decks.len() && decks[i].id != id {
        lemma_deck_with_id(decks, id, i + 1);
    }
}

/// Switching mode does what was asked, for an authenticated client: the session is in manual mode
/// after `set_mode` exactly when the request says `manual`. A manual session is answered with the
/// layout of the deck and page it lands on, and it lands on one whenever there is a deck with a
/// page to show; an auto session is answered with the auto layout when there is one. No other
/// answer is ever a manual layout, and an auto session never gets one.
pub proof fn law_set_mode_switches_to_what_was_asked(
    s: SessionView,
    mode: Option<String>,
    deck_id: Option<String>,
    saved: Seq<DeckView>,
    decks: Seq<DeckView>,
    auto: Option<Seq<KeyView>>,
    faces: Seq<Seq<char>>,
    obs: ObsState,
)
    requires
        s.authed,
    ensures
        ({
            let (s2, a) = respond(s, Request::SetMode { mode, deck_id }, saved, decks, auto, faces, obs);
            let asked = mode matches Some(m) && m@ == "manual"@;
            &&& s2.manual == asked
            &&& a is Manual ==> asked
            &&& asked && decks.len() > 0 && (forall|d: int| 0 <= d < decks.len() ==> (#[trigger] decks[d]).pages.len() > 0)
                ==> (a matches AnswerView::Manual { deck, page } && 0 <= deck < decks.len() && 0 <= page
                < decks[deck].pages.len() && s2.deck_id == decks[deck].id && s2.page_id
                == decks[deck].pages[page].id)
            &&& !asked && auto is Some ==> a == AnswerView::Auto
        }),
{
    let did = match deck_id {
        Some(d) => d@,
        None => s.deck_id,
    };
    let pid = match deck_id {
        Some(_) => Seq::<char>::empty(),
        None => s.page_id,
    };
    lemma_deck_with_id(decks, did, 0);
    if decks.len() > 0 {
        let d = match deck_with_id(decks, did, 0) {
            Some(i) => i,
            None => 0,
        };
        assert(0 <= d < decks.len());
        lemma_page_index(decks[d].pages, pid);
    }
}

} // verus!
