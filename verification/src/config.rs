//! The persisted model: the profile catalogue's `Button`/`Profile`, the manual-mode
//! `Deck`/`Page`/`Key`, paired `Device`s, and the additive rules that bring stored decks forward.
use vstd::prelude::*;

use crate::text::{chars_eq, chars_of, is};

verus! {

/// An optional string, by its characters.
pub open spec fn opt_view(o: Option<String>) -> Option<Seq<char>> {
    match o {
        Some(s) => Some(s@),
        None => None,
    }
}

/// A copy of an optional string.
pub fn clone_opt(o: &Option<String>) -> (r: Option<String>)
    ensures
        r == *o,
{
    match o {
        Some(s) => Some(s.clone()),
        None => None,
    }
}

// ---------------------------------------------------------------------------------------------
// Profiles (auto mode)
// ---------------------------------------------------------------------------------------------

/// One key of an auto-mode profile.
pub struct Button {
    pub label: String,
    pub icon: String,
    /// A shortcut ("ctrl+shift+p", "alt+F4", "ctrl+c") or the keyword "screenshot".
    pub action: String,
    /// Dangerous action: the phone paints it red and asks for confirmation.
    pub danger: bool,
    /// Whether it is in the profile's default recommended selection.
    pub recommended: bool,
}

/// A button by its contents.
pub struct ButtonView {
    pub label: Seq<char>,
    pub icon: Seq<char>,
    pub action: Seq<char>,
    pub danger: bool,
    pub recommended: bool,
}

impl View for Button {
    type V = ButtonView;

    open spec fn view(&self) -> ButtonView {
        ButtonView {
            label: self.label@,
            icon: self.icon@,
            action: self.action@,
            danger: self.danger,
            recommended: self.recommended,
        }
    }
}

impl Clone for Button {
    fn clone(&self) -> (r: Self)
        ensures
            r == *self,
    {
        Button {
            label: self.label.clone(),
            icon: self.icon.clone(),
            action: self.action.clone(),
            danger: self.danger,
            recommended: self.recommended,
        }
    }
}

/// A profile: which apps it is for, and its keys.
pub struct Profile {
    pub id: String,
    /// Substrings that must appear in the active app's name OR the window title. Empty = fallback.
    pub matches: Vec<String>,
    pub buttons: Vec<Button>,
}

/// A profile by its contents.
pub struct ProfileView {
    pub id: Seq<char>,
    pub matches: Seq<Seq<char>>,
    pub buttons: Seq<ButtonView>,
}

impl View for Profile {
    type V = ProfileView;

    open spec fn view(&self) -> ProfileView {
        ProfileView {
            id: self.id@,
            matches: self.matches@.map_values(|m: String| m@),
            buttons: self.buttons@.map_values(|b: Button| b@),
        }
    }
}

impl Clone for Profile {
    fn clone(&self) -> (r: Self)
        ensures
            r@ == self@,
    {
        let mut matches: Vec<String> = Vec::new();
        let mut i: usize = 0;
        while i < self.matches.len()
            invariant
                i <= self.matches.len(),
                matches@.map_values(|m: String| m@) == self@.matches.subrange(0, i as int),
            decreases self.matches.len() - i,
        {
            let ghost before = matches@.map_values(|m: String| m@);
            matches.push(self.matches[i].clone());
            assert(matches@.map_values(|m: String| m@) =~= before.push(self@.matches[i as int]));
            assert(self@.matches.subrange(0, i + 1) =~= self@.matches.subrange(0, i as int).push(
                self@.matches[i as int],
            ));
            i = i + 1;
        }
        let mut buttons: Vec<Button> = Vec::new();
        let mut j: usize = 0;
        while j < self.buttons.len()
            invariant
                j <= self.buttons.len(),
                buttons@.map_values(|b: Button| b@) == self@.buttons.subrange(0, j as int),
            decreases self.buttons.len() - j,
        {
            let ghost before = buttons@.map_values(|b: Button| b@);
            buttons.push(self.buttons[j].clone());
            assert(buttons@.map_values(|b: Button| b@) =~= before.push(self@.buttons[j as int]));
            assert(self@.buttons.subrange(0, j + 1) =~= self@.buttons.subrange(0, j as int).push(
                self@.buttons[j as int],
            ));
            j = j + 1;
        }
        assert(self@.matches.subrange(0, self@.matches.len() as int) =~= self@.matches);
        assert(self@.buttons.subrange(0, self@.buttons.len() as int) =~= self@.buttons);
        let r = Profile { id: self.id.clone(), matches, buttons };
        assert(r@.matches =~= self@.matches);
        assert(r@.buttons =~= self@.buttons);
        r
    }
}

// ---------------------------------------------------------------------------------------------
// Manual mode: Deck > Page > Key
// ---------------------------------------------------------------------------------------------

/// What a key does when pressed. `Folder` and `Page` both navigate.
#[derive(Clone, Copy, PartialEq, Eq, Debug, Structural)]
pub enum KeyKind {
    Action,
    Folder,
    Page,
    /// A hole in the grid. Carries no label and executes nothing.
    Empty,
}

/// The live state painted on a key: recording, app running, the face of a toggle.
#[derive(Clone, Copy, PartialEq, Eq, Debug, Structural)]
pub struct KeyState {
    pub on: Option<bool>,
    pub running: Option<bool>,
}

/// What a two-state key looks like when it is ON. Every field overrides only itself.
pub struct Face {
    pub label: String,
    pub icon: String,
    pub image: Option<String>,
    pub color: Option<String>,
    pub action: Option<String>,
}

/// A face by its contents.
pub struct FaceView {
    pub label: Seq<char>,
    pub icon: Seq<char>,
    pub image: Option<Seq<char>>,
    pub color: Option<Seq<char>>,
    pub action: Option<Seq<char>>,
}

impl View for Face {
    type V = FaceView;

    open spec fn view(&self) -> FaceView {
        FaceView {
            label: self.label@,
            icon: self.icon@,
            image: opt_view(self.image),
            color: opt_view(self.color),
            action: opt_view(self.action),
        }
    }
}

impl Clone for Face {
    fn clone(&self) -> (r: Self)
        ensures
            r == *self,
    {
        Face {
            label: self.label.clone(),
            icon: self.icon.clone(),
            image: clone_opt(&self.image),
            color: clone_opt(&self.color),
            action: clone_opt(&self.action),
        }
    }
}

impl Default for Face {
    fn default() -> (r: Self)
        ensures
            r@ == (FaceView {
                label: Seq::empty(),
                icon: Seq::empty(),
                image: None,
                color: None,
                action: None,
            }),
    {
        Face { label: String::new(), icon: String::new(), image: None, color: None, action: None }
    }
}

/// One key on the grid. `pos` is its address in the DECK's own page, not the client's.
pub struct Key {
    pub pos: usize,
    pub label: String,
    pub icon: String,
    /// Real app icon or a custom image, as a `data:` URI.
    pub image: Option<String>,
    pub color: Option<String>,
    /// Optional glyph-only tint.
    pub icon_color: Option<String>,
    /// Short press.
    pub action: Option<String>,
    /// Long press.
    pub hold: Option<String>,
    /// Double press.
    pub double: Option<String>,
    /// The ON face of a two-state key. Never sent to a phone.
    pub toggle: Option<Face>,
    /// Page this key navigates to, for `Folder` and `Page` keys.
    pub target: Option<String>,
    pub danger: bool,
    /// Live state, filled in per send, never persisted.
    pub state: Option<KeyState>,
    pub kind: KeyKind,
}

/// A key by its contents.
pub struct KeyView {
    pub pos: usize,
    pub label: Seq<char>,
    pub icon: Seq<char>,
    pub image: Option<Seq<char>>,
    pub color: Option<Seq<char>>,
    pub icon_color: Option<Seq<char>>,
    pub action: Option<Seq<char>>,
    pub hold: Option<Seq<char>>,
    pub double: Option<Seq<char>>,
    pub toggle: Option<FaceView>,
    pub target: Option<Seq<char>>,
    pub danger: bool,
    pub state: Option<KeyState>,
    pub kind: KeyKind,
}

/// An optional face, by its contents.
pub open spec fn face_view(f: Option<Face>) -> Option<FaceView> {
    match f {
        Some(f) => Some(f@),
        None => None,
    }
}

impl View for Key {
    type V = KeyView;

    open spec fn view(&self) -> KeyView {
        KeyView {
            pos: self.pos,
            label: self.label@,
            icon: self.icon@,
            image: opt_view(self.image),
            color: opt_view(self.color),
            icon_color: opt_view(self.icon_color),
            action: opt_view(self.action),
            hold: opt_view(self.hold),
            double: opt_view(self.double),
            toggle: face_view(self.toggle),
            target: opt_view(self.target),
            danger: self.danger,
            state: self.state,
            kind: self.kind,
        }
    }
}

/// The empty key at `pos`: what a hole in a page looks like.
pub open spec fn empty_key(pos: usize) -> KeyView {
    KeyView {
        pos,
        label: Seq::empty(),
        icon: Seq::empty(),
        image: None,
        color: None,
        icon_color: None,
        action: None,
        hold: None,
        double: None,
        toggle: None,
        target: None,
        danger: false,
        state: None,
        kind: KeyKind::Empty,
    }
}

/// `k` moved to another position.
pub open spec fn at_pos(k: KeyView, pos: usize) -> KeyView {
    KeyView { pos, ..k }
}

impl Clone for Key {
    fn clone(&self) -> (r: Self)
        ensures
            r == *self,
    {
        Key {
            pos: self.pos,
            label: self.label.clone(),
            icon: self.icon.clone(),
            image: clone_opt(&self.image),
            color: clone_opt(&self.color),
            icon_color: clone_opt(&self.icon_color),
            action: clone_opt(&self.action),
            hold: clone_opt(&self.hold),
            double: clone_opt(&self.double),
            toggle: match &self.toggle {
                Some(f) => Some(f.clone()),
                None => None,
            },
            target: clone_opt(&self.target),
            danger: self.danger,
            state: self.state,
            kind: self.kind,
        }
    }
}

impl Default for Key {
    fn default() -> (r: Self)
        ensures
            r@ == empty_key(0),
    {
        Key::empty(0)
    }
}

impl Key {
    /// The empty key at `pos`.
    pub fn empty(pos: usize) -> (r: Key)
        ensures
            r@ == empty_key(pos),
    {
        Key {
            pos,
            label: String::new(),
            icon: String::new(),
            image: None,
            color: None,
            icon_color: None,
            action: None,
            hold: None,
            double: None,
            toggle: None,
            target: None,
            danger: false,
            state: None,
            kind: KeyKind::Empty,
        }
    }

    /// The action bound to a press type, by view.
    pub open spec fn spec_action_for(k: KeyView, press: Seq<char>) -> Option<Seq<char>> {
        if press == "short"@ {
            k.action
        } else if press == "long"@ {
            k.hold
        } else if press == "double"@ {
            k.double
        } else {
            None
        }
    }

    /// The action for a press type, or `None` if that press is unbound. `long`/`double` do NOT
    /// fall back to the short action.
    pub fn action_for(&self, press: &str) -> (r: Option<String>)
        ensures
            opt_view(r) == Self::spec_action_for(self@, press@),
    {
        let p = chars_of(press);
        if is(p.as_slice(), "short") {
            clone_opt(&self.action)
        } else if is(p.as_slice(), "long") {
            clone_opt(&self.hold)
        } else if is(p.as_slice(), "double") {
            clone_opt(&self.double)
        } else {
            None
        }
    }
}

/// A copy of a list of keys.
pub fn clone_keys(keys: &Vec<Key>) -> (r: Vec<Key>)
    ensures
        r@ == keys@,
{
    let mut r: Vec<Key> = Vec::new();
    let mut i: usize = 0;
    while i < keys.len()
        invariant
            i <= keys.len(),
            r@ == keys@.subrange(0, i as int),
        decreases keys.len() - i,
    {
        r.push(keys[i].clone());
        i = i + 1;
    }
    assert(keys@.subrange(0, keys@.len() as int) == keys@);
    r
}

/// A grid's worth of keys. `id` exists so `folder`/`page` keys can name a destination.
pub struct Page {
    pub id: String,
    pub name: String,
    pub keys: Vec<Key>,
}

/// A page by its contents.
pub struct PageView {
    pub id: Seq<char>,
    pub name: Seq<char>,
    pub keys: Seq<KeyView>,
}

/// A list of keys by their contents.
pub open spec fn key_views(keys: Seq<Key>) -> Seq<KeyView> {
    keys.map_values(|k: Key| k@)
}

impl View for Page {
    type V = PageView;

    open spec fn view(&self) -> PageView {
        PageView { id: self.id@, name: self.name@, keys: key_views(self.keys@) }
    }
}

impl Clone for Page {
    fn clone(&self) -> (r: Self)
        ensures
            r@ == self@,
    {
        let keys = clone_keys(&self.keys);
        let r = Page { id: self.id.clone(), name: self.name.clone(), keys };
        assert(r@.keys =~= self@.keys);
        r
    }
}

impl Default for Page {
    fn default() -> (r: Self)
        ensures
            r@.id == Seq::<char>::empty(),
            r@.name == Seq::<char>::empty(),
            r@.keys == Seq::<KeyView>::empty(),
    {
        let r = Page { id: String::new(), name: String::new(), keys: Vec::new() };
        assert(r@.keys =~= Seq::<KeyView>::empty());
        r
    }
}

/// A deck the user picks in manual mode. `pages[0]` is the entry page.
pub struct Deck {
    pub id: String,
    pub name: String,
    pub icon: String,
    pub pages: Vec<Page>,
}

/// A deck by its contents.
pub struct DeckView {
    pub id: Seq<char>,
    pub name: Seq<char>,
    pub icon: Seq<char>,
    pub pages: Seq<PageView>,
}

impl View for Deck {
    type V = DeckView;

    open spec fn view(&self) -> DeckView {
        DeckView {
            id: self.id@,
            name: self.name@,
            icon: self.icon@,
            pages: self.pages@.map_values(|p: Page| p@),
        }
    }
}

impl Clone for Deck {
    fn clone(&self) -> (r: Self)
        ensures
            r@ == self@,
    {
        let mut pages: Vec<Page> = Vec::new();
        let mut i: usize = 0;
        while i < self.pages.len()
            invariant
                i <= self.pages.len(),
                pages@.map_values(|p: Page| p@) == self@.pages.subrange(0, i as int),
            decreases self.pages.len() - i,
        {
            let ghost before = pages@.map_values(|p: Page| p@);
            pages.push(self.pages[i].clone());
            assert(pages@.map_values(|p: Page| p@) =~= before.push(self@.pages[i as int]));
            assert(self@.pages.subrange(0, i + 1) =~= self@.pages.subrange(0, i as int).push(
                self@.pages[i as int],
            ));
            i = i + 1;
        }
        let r = Deck {
            id: self.id.clone(),
            name: self.name.clone(),
            icon: self.icon.clone(),
            pages,
        };
        assert(self@.pages.subrange(0, self@.pages.len() as int) =~= self@.pages);
        assert(r@.pages =~= self@.pages);
        r
    }
}

/// A list of decks by their contents.
pub open spec fn deck_views(decks: Seq<Deck>) -> Seq<DeckView> {
    decks.map_values(|d: Deck| d@)
}

impl Default for Deck {
    fn default() -> (r: Self)
        ensures
            r@.id == Seq::<char>::empty(),
            r@.name == Seq::<char>::empty(),
            r@.icon == Seq::<char>::empty(),
            r@.pages == Seq::<PageView>::empty(),
    {
        let r = Deck { id: String::new(), name: String::new(), icon: String::new(), pages: Vec::new() };
        assert(r@.pages =~= Seq::<PageView>::empty());
        r
    }
}

/// The index of the first page with id `id`.
pub open spec fn page_index(pages: Seq<PageView>, id: Seq<char>) -> Option<int>
    decreases pages.len(),
{
    if pages.len() == 0 {
        None
    } else if pages[0].id == id {
        Some(0)
    } else {
        match page_index(pages.drop_first(), id) {
            Some(i) => Some(i + 1),
            None => None,
        }
    }
}

/// `page_index` names a page that exists and is the first with that id.
pub proof fn lemma_page_index(pages: Seq<PageView>, id: Seq<char>)
    ensures
        page_index(pages, id) matches Some(i) ==> 0 <= i < pages.len() && pages[i].id == id
            && forall|j: int| 0 <= j < i ==> pages[j].id != id,
        page_index(pages, id) is None ==> forall|j: int| 0 <= j < pages.len() ==> pages[j].id != id,
    decreases pages.len(),
{
    if pages.len() > 0 && pages[0].id != id {
        lemma_page_index(pages.drop_first(), id);
        assert forall|j: int| 1 <= j < pages.len() implies pages[j] == pages.drop_first()[j - 1] by {}
    }
}

impl Deck {
    /// The index of the first page with this id.
    pub fn page_at(&self, id: &str) -> (r: Option<usize>)
        ensures
            r matches Some(i) ==> page_index(self@.pages, id@) == Some(i as int),
            r is None ==> page_index(self@.pages, id@) is None,
    {
        let want = chars_of(id);
        let mut i: usize = 0;
        proof {
            lemma_page_index(self@.pages, id@);
        }
        while i < self.pages.len()
            invariant
                i <= self.pages.len(),
                want@ == id@,
                forall|j: int| 0 <= j < i ==> self@.pages[j].id != id@,
                page_index(self@.pages, id@) matches Some(k) ==> 0 <= k < self@.pages.len()
                    && self@.pages[k].id == id@ && forall|j: int|
                    0 <= j < k ==> self@.pages[j].id != id@,
                page_index(self@.pages, id@) is None ==> forall|j: int|
                    0 <= j < self@.pages.len() ==> self@.pages[j].id != id@,
            decreases self.pages.len() - i,
        {
            let pid = chars_of(self.pages[i].id.as_str());
            if chars_eq(pid.as_slice(), want.as_slice()) {
                assert(self@.pages[i as int].id == id@);
                return Some(i);
            }
            i = i + 1;
        }
        None
    }

    /// The page with this id.
    pub fn page(&self, id: &str) -> (r: Option<&Page>)
        ensures
            r matches Some(p) ==> page_index(self@.pages, id@) matches Some(i) && p@ == self@.pages[i],
            r is None ==> page_index(self@.pages, id@) is None,
    {
        proof {
            lemma_page_index(self@.pages, id@);
        }
        match self.page_at(id) {
            Some(i) => Some(&self.pages[i]),
            None => None,
        }
    }
}

} // verus!
