//! Rejects decks a client could not render or resolve. The editor is not the only writer (the
//! config file is one a user can edit by hand) but it is the one that can be told why.
//!
//! Only structural rules live here, the ones that would make a press resolve to nothing. Action
//! strings are not checked: a press on a typo already answers `unknown_action`, and a deck full of
//! typos is still a deck the user can open and fix.
use vstd::prelude::*;
use vstd::utf8::encode_utf8;

use crate::config::{Deck, DeckView, KeyKind, KeyView, Page, PageView, deck_views};
use crate::deck::positions_distinct;
use crate::text::{decimal, push_decimal, push_quoted, quoted, same};

verus! {

/// How many bytes of stored images one page may hold: three quarters of a 64 KB frame, leaving
/// the labels, actions and scaffolding room in the same message.
pub const IMAGE_BUDGET: usize = 49152;

/// The bytes a key's stored image takes, as UTF-8.
pub open spec fn image_len(k: KeyView) -> int {
    match k.image {
        Some(i) => encode_utf8(i).len() as int,
        None => 0,
    }
}

/// The bytes all stored images of a page take.
pub open spec fn image_bytes(keys: Seq<KeyView>) -> int
    decreases keys.len(),
{
    if keys.len() == 0 {
        0
    } else {
        image_bytes(keys.drop_last()) + image_len(keys.last())
    }
}

/// Every page's images, added up, fit a `usize`: true of anything that fits in memory at once.
pub open spec fn decks_fit(decks: Seq<DeckView>) -> bool {
    forall|i: int, k: int|
        0 <= i < decks.len() && 0 <= k < decks[i].pages.len() ==> image_bytes(
            #[trigger] decks[i].pages[k].keys,
        ) <= usize::MAX
}

/// Whether some key before `m` sits at position `p`.
pub open spec fn pos_taken(keys: Seq<KeyView>, m: int, p: usize) -> bool {
    exists|x: int| 0 <= x < m && #[trigger] keys[x].pos == p
}

/// Whether the deck has a page with this id.
pub open spec fn has_page(deck: DeckView, id: Seq<char>) -> bool {
    exists|p: int| 0 <= p < deck.pages.len() && #[trigger] deck.pages[p].id == id
}

/// What is wrong with key `m` of a page, if anything.
pub open spec fn key_problem(deck: DeckView, page: PageView, m: int) -> Option<Seq<char>> {
    let k = page.keys[m];
    if pos_taken(page.keys, m, k.pos) {
        Some(
            "two keys share position "@ + decimal(k.pos as nat) + " on page "@ + quoted(page.id),
        )
    } else {
        match k.kind {
            KeyKind::Folder | KeyKind::Page => {
                let t = match k.target {
                    Some(t) => t,
                    None => Seq::empty(),
                };
                if has_page(deck, t) {
                    None
                } else {
                    Some(
                        "key "@ + quoted(k.label) + " points at a page that does not exist ("@
                            + quoted(t) + ")"@,
                    )
                }
            },
            KeyKind::Action => {
                if k.action is None || k.action->0.len() == 0 {
                    Some("key "@ + quoted(k.label) + " has no action"@)
                } else {
                    None
                }
            },
            KeyKind::Empty => None,
        }
    }
}

/// The first problem among the keys of a page from `m` on.
pub open spec fn keys_problem_from(deck: DeckView, page: PageView, m: int) -> Option<Seq<char>>
    decreases page.keys.len() - m,
{
    if m < 0 || m >= page.keys.len() {
        None
    } else {
        match key_problem(deck, page, m) {
            Some(e) => Some(e),
            None => keys_problem_from(deck, page, m + 1),
        }
    }
}

/// What is wrong with the contents of a page, if anything: too many image bytes first, then its
/// keys in order.
pub open spec fn page_problem(deck: DeckView, page: PageView) -> Option<Seq<char>> {
    let b = image_bytes(page.keys);
    if b > IMAGE_BUDGET {
        Some(
            "page "@ + quoted(page.id) + " stores "@ + decimal((b / 1024) as nat)
                + " KB of images; a page must stay under 48 KB so the layout fits one frame"@,
        )
    } else {
        keys_problem_from(deck, page, 0)
    }
}

/// The first problem among the contents of the pages from `k` on.
pub open spec fn pages_problem_from(deck: DeckView, k: int) -> Option<Seq<char>>
    decreases deck.pages.len() - k,
{
    if k < 0 || k >= deck.pages.len() {
        None
    } else {
        match page_problem(deck, deck.pages[k]) {
            Some(e) => Some(e),
            None => pages_problem_from(deck, k + 1),
        }
    }
}

/// Whether some page before `k` has this id.
pub open spec fn page_id_taken(deck: DeckView, k: int, id: Seq<char>) -> bool {
    exists|x: int| 0 <= x < k && #[trigger] deck.pages[x].id == id
}

/// What is wrong with the id of page `k`, if anything.
pub open spec fn page_id_problem(deck: DeckView, k: int) -> Option<Seq<char>> {
    let id = deck.pages[k].id;
    if id.len() == 0 {
        Some("a page of deck "@ + quoted(deck.id) + " has no id"@)
    } else if page_id_taken(deck, k, id) {
        Some("deck "@ + quoted(deck.id) + " repeats the page id "@ + quoted(id))
    } else {
        None
    }
}

/// The first problem among the page ids from `k` on.
pub open spec fn page_ids_problem_from(deck: DeckView, k: int) -> Option<Seq<char>>
    decreases deck.pages.len() - k,
{
    if k < 0 || k >= deck.pages.len() {
        None
    } else {
        match page_id_problem(deck, k) {
            Some(e) => Some(e),
            None => page_ids_problem_from(deck, k + 1),
        }
    }
}

/// Whether some deck before `i` has this id.
pub open spec fn deck_id_taken(decks: Seq<DeckView>, i: int, id: Seq<char>) -> bool {
    exists|x: int| 0 <= x < i && #[trigger] decks[x].id == id
}

/// What is wrong with deck `i`, if anything: its id, then its pages' ids, then their contents.
pub open spec fn deck_problem(decks: Seq<DeckView>, i: int) -> Option<Seq<char>> {
    let d = decks[i];
    if d.id.len() == 0 {
        Some("a deck has no id"@)
    } else if deck_id_taken(decks, i, d.id) {
        Some("two decks share the id "@ + quoted(d.id))
    } else if d.pages.len() == 0 {
        Some("deck "@ + quoted(d.id) + " has no pages"@)
    } else {
        match page_ids_problem_from(d, 0) {
            Some(e) => Some(e),
            None => pages_problem_from(d, 0),
        }
    }
}

/// The first problem among the decks from `i` on.
pub open spec fn decks_problem_from(decks: Seq<DeckView>, i: int) -> Option<Seq<char>>
    decreases decks.len() - i,
{
    if i < 0 || i >= decks.len() {
        None
    } else {
        match deck_problem(decks, i) {
            Some(e) => Some(e),
            None => decks_problem_from(decks, i + 1),
        }
    }
}

/// The first problem in a list of decks, in the order the checks run.
pub open spec fn decks_problem(decks: Seq<DeckView>) -> Option<Seq<char>> {
    decks_problem_from(decks, 0)
}

/// The image bytes of a page, added up.
fn page_image_bytes(page: &Page) -> (r: usize)
    requires
        image_bytes(page@.keys) <= usize::MAX,
    ensures
        r == image_bytes(page@.keys),
{
    let ghost kv = page@.keys;
    let mut total: usize = 0;
    let mut m: usize = 0;
    while m < page.keys.len()
        invariant
            m <= page.keys.len(),
            kv == page@.keys,
            image_bytes(kv) <= usize::MAX,
            total == image_bytes(kv.subrange(0, m as int)),
        decreases page.keys.len() - m,
    {
        proof {
            assert(kv.subrange(0, m + 1).drop_last() =~= kv.subrange(0, m as int));
            lemma_image_bytes_prefix(kv, m + 1);
        }
        match &page.keys[m].image {
            Some(img) => {
                total = total + img.as_str().len();
            },
            None => {},
        }
        m = m + 1;
    }
    assert(kv.subrange(0, kv.len() as int) =~= kv);
    total
}

/// A prefix never takes more image bytes than the whole.
proof fn lemma_image_bytes_prefix(keys: Seq<KeyView>, n: int)
    requires
        0 <= n <= keys.len(),
    ensures
        image_bytes(keys.subrange(0, n)) <= image_bytes(keys),
    decreases keys.len() - n,
{
    if n < keys.len() {
        lemma_image_bytes_prefix(keys, n + 1);
        assert(keys.subrange(0, n + 1).drop_last() =~= keys.subrange(0, n));
    } else {
        assert(keys.subrange(0, n) =~= keys);
    }
}

/// What is wrong with key `m` of page `k` of a deck.
fn key_problem_exec(deck: &Deck, k: usize, m: usize) -> (r: Option<String>)
    requires
        k < deck.pages.len(),
        m < deck.pages@[k as int].keys.len(),
    ensures
        match r {
            Some(e) => key_problem(deck@, deck@.pages[k as int], m as int) == Some(e@),
            None => key_problem(deck@, deck@.pages[k as int], m as int) is None,
        },
{
    let page = &deck.pages[k];
    let ghost pv = page@;
    assert(pv == deck@.pages[k as int]);
    let key = &page.keys[m];
    assert(pv.keys[m as int] == key@);
    let mut x: usize = 0;
    while x < m
        invariant
            x <= m,
            m < page.keys.len(),
            k < deck.pages.len(),
            pv == page@,
            pv == deck@.pages[k as int],
            pv.keys[m as int] == key@,
            forall|y: int| 0 <= y < x ==> pv.keys[y].pos != key.pos,
        decreases m - x,
    {
        if page.keys[x].pos == key.pos {
            assert(pv.keys[x as int].pos == key.pos);
            let mut e = String::from_str("two keys share position ");
            push_decimal(&mut e, key.pos as u64);
            e.append(" on page ");
            push_quoted(&mut e, page.id.as_str());
            assert(pos_taken(pv.keys, m as int, key.pos));
            assert(e@ =~= "two keys share position "@ + decimal(key.pos as nat) + " on page "@
                + quoted(pv.id));
            return Some(e);
        }
        x = x + 1;
    }
    match key.kind {
        KeyKind::Folder | KeyKind::Page => {
            let t: &str = match &key.target {
                Some(t) => t.as_str(),
                None => "",
            };
            proof {
                reveal_strlit("");
            }
            let mut p: usize = 0;
            while p < deck.pages.len()
                invariant
                    p <= deck.pages.len(),
                    k < deck.pages.len(),
                    m < page.keys.len(),
                    pv == deck@.pages[k as int],
                    pv.keys[m as int] == key@,
                    !pos_taken(pv.keys, m as int, key.pos),
                    key@.kind == KeyKind::Folder || key@.kind == KeyKind::Page,
                    t@ == match key@.target {
                        Some(t) => t,
                        None => Seq::empty(),
                    },
                    forall|y: int| 0 <= y < p ==> deck@.pages[y].id != t@,
                decreases deck.pages.len() - p,
            {
                if same(deck.pages[p].id.as_str(), t) {
                    assert(deck@.pages[p as int].id == t@);
                    assert(has_page(deck@, t@));
                    return None;
                }
                p = p + 1;
            }
            let mut e = String::from_str("key ");
            push_quoted(&mut e, key.label.as_str());
            e.append(" points at a page that does not exist (");
            push_quoted(&mut e, t);
            e.append(")");
            assert(!has_page(deck@, t@));
            assert(e@ =~= "key "@ + quoted(key@.label) + " points at a page that does not exist ("@
                + quoted(t@) + ")"@);
            Some(e)
        },
        KeyKind::Action => {
            let missing = match &key.action {
                Some(a) => a.as_str().is_empty(),
                None => true,
            };
            if missing {
                let mut e = String::from_str("key ");
                push_quoted(&mut e, key.label.as_str());
                e.append(" has no action");
                assert(e@ =~= "key "@ + quoted(key@.label) + " has no action"@);
                Some(e)
            } else {
                None
            }
        },
        KeyKind::Empty => None,
    }
}

/// What is wrong with the contents of page `k` of a deck.
fn page_problem_exec(deck: &Deck, k: usize) -> (r: Option<String>)
    requires
        k < deck.pages.len(),
        image_bytes(deck@.pages[k as int].keys) <= usize::MAX,
    ensures
        match r {
            Some(e) => page_problem(deck@, deck@.pages[k as int]) == Some(e@),
            None => page_problem(deck@, deck@.pages[k as int]) is None,
        },
{
    let page = &deck.pages[k];
    let ghost pv = page@;
    assert(pv == deck@.pages[k as int]);
    let bytes = page_image_bytes(page);
    if bytes > IMAGE_BUDGET {
        let mut e = String::from_str("page ");
        push_quoted(&mut e, page.id.as_str());
        e.append(" stores ");
        push_decimal(&mut e, (bytes / 1024) as u64);
        e.append(" KB of images; a page must stay under 48 KB so the layout fits one frame");
        assert(e@ =~= "page "@ + quoted(pv.id) + " stores "@ + decimal((bytes / 1024) as nat)
            + " KB of images; a page must stay under 48 KB so the layout fits one frame"@);
        return Some(e);
    }
    let mut m: usize = 0;
    while m < page.keys.len()
        invariant
            m <= page.keys.len(),
            k < deck.pages.len(),
            pv == page@,
            pv == deck@.pages[k as int],
            image_bytes(pv.keys) <= IMAGE_BUDGET,
            keys_problem_from(deck@, pv, 0) == keys_problem_from(deck@, pv, m as int),
        decreases page.keys.len() - m,
    {
        let found = key_problem_exec(deck, k, m);
        if found.is_some() {
            return found;
        }
        m = m + 1;
    }
    None
}

/// What is wrong with the id of page `k` of a deck.
fn page_id_problem_exec(deck: &Deck, k: usize) -> (r: Option<String>)
    requires
        k < deck.pages.len(),
    ensures
        match r {
            Some(e) => page_id_problem(deck@, k as int) == Some(e@),
            None => page_id_problem(deck@, k as int) is None,
        },
{
    let id = deck.pages[k].id.as_str();
    assert(id@ == deck@.pages[k as int].id);
    if id.is_empty() {
        let mut e = String::from_str("a page of deck ");
        push_quoted(&mut e, deck.id.as_str());
        e.append(" has no id");
        assert(e@ =~= "a page of deck "@ + quoted(deck@.id) + " has no id"@);
        return Some(e);
    }
    let mut x: usize = 0;
    while x < k
        invariant
            x <= k,
            k < deck.pages.len(),
            id@ == deck@.pages[k as int].id,
            id@.len() > 0,
            forall|y: int| 0 <= y < x ==> deck@.pages[y].id != id@,
        decreases k - x,
    {
        if same(deck.pages[x].id.as_str(), id) {
            assert(deck@.pages[x as int].id == id@);
            let mut e = String::from_str("deck ");
            push_quoted(&mut e, deck.id.as_str());
            e.append(" repeats the page id ");
            push_quoted(&mut e, id);
            assert(page_id_taken(deck@, k as int, id@));
            assert(e@ =~= "deck "@ + quoted(deck@.id) + " repeats the page id "@ + quoted(id@));
            return Some(e);
        }
        x = x + 1;
    }
    None
}

/// What is wrong with deck `i` of a list.
fn deck_problem_exec(decks: &Vec<Deck>, i: usize) -> (r: Option<String>)
    requires
        i < decks.len(),
        decks_fit(deck_views(decks@)),
    ensures
        match r {
            Some(e) => deck_problem(deck_views(decks@), i as int) == Some(e@),
            None => deck_problem(deck_views(decks@), i as int) is None,
        },
{
    let ghost dv = deck_views(decks@);
    let d = &decks[i];
    assert(dv[i as int] == d@);
    if d.id.as_str().is_empty() {
        return Some(String::from_str("a deck has no id"));
    }
    let mut x: usize = 0;
    while x < i
        invariant
            x <= i,
            i < decks.len(),
            dv == deck_views(decks@),
            dv[i as int] == d@,
            d@.id.len() > 0,
            forall|y: int| 0 <= y < x ==> dv[y].id != d@.id,
        decreases i - x,
    {
        if same(decks[x].id.as_str(), d.id.as_str()) {
            assert(dv[x as int].id == d@.id);
            let mut e = String::from_str("two decks share the id ");
            push_quoted(&mut e, d.id.as_str());
            assert(deck_id_taken(dv, i as int, d@.id));
            assert(e@ =~= "two decks share the id "@ + quoted(d@.id));
            return Some(e);
        }
        x = x + 1;
    }
    if d.pages.len() == 0 {
        let mut e = String::from_str("deck ");
        push_quoted(&mut e, d.id.as_str());
        e.append(" has no pages");
        assert(e@ =~= "deck "@ + quoted(d@.id) + " has no pages"@);
        return Some(e);
    }
    let mut k: usize = 0;
    while k < d.pages.len()
        invariant
            k <= d.pages.len(),
            i < decks.len(),
            dv == deck_views(decks@),
            dv[i as int] == d@,
            d@.id.len() > 0,
            d@.pages.len() > 0,
            !deck_id_taken(dv, i as int, d@.id),
            page_ids_problem_from(d@, 0) == page_ids_problem_from(d@, k as int),
        decreases d.pages.len() - k,
    {
        let found = page_id_problem_exec(d, k);
        if found.is_some() {
            return found;
        }
        k = k + 1;
    }
    let mut k: usize = 0;
    while k < d.pages.len()
        invariant
            k <= d.pages.len(),
            i < decks.len(),
            dv == deck_views(decks@),
            dv[i as int] == d@,
            decks_fit(dv),
            d@.id.len() > 0,
            d@.pages.len() > 0,
            !deck_id_taken(dv, i as int, d@.id),
            page_ids_problem_from(d@, 0) is None,
            pages_problem_from(d@, 0) == pages_problem_from(d@, k as int),
        decreases d.pages.len() - k,
    {
        assert(image_bytes(dv[i as int].pages[k as int].keys) <= usize::MAX);
        let found = page_problem_exec(d, k);
        if found.is_some() {
            return found;
        }
        k = k + 1;
    }
    None
}

/// Checks a list of decks: `Ok` exactly when nothing is wrong, otherwise the first problem found,
/// in words the user can act on.
pub fn validate(decks: &Vec<Deck>) -> (r: Result<(), String>)
    requires
        decks_fit(deck_views(decks@)),
    ensures
        match r {
            Ok(_) => decks_problem(deck_views(decks@)) is None,
            Err(e) => decks_problem(deck_views(decks@)) == Some(e@),
        },
{
    let ghost dv = deck_views(decks@);
    let mut i: usize = 0;
    while i < decks.len()
        invariant
            i <= decks.len(),
            dv == deck_views(decks@),
            decks_fit(dv),
            decks_problem_from(dv, 0) == decks_problem_from(dv, i as int),
        decreases decks.len() - i,
    {
        match deck_problem_exec(decks, i) {
            Some(e) => {
                return Err(e);
            },
            None => {},
        }
        i = i + 1;
    }
    Ok(())
}

/// No problem from `i` on means no problem in any deck from `i` on.
proof fn lemma_no_deck_problem(decks: Seq<DeckView>, i: int, j: int)
    requires
        0 <= i <= j < decks.len(),
        decks_problem_from(decks, i) is None,
    ensures
        deck_problem(decks, j) is None,
    decreases j - i,
{
    if i < j {
        lemma_no_deck_problem(decks, i + 1, j);
    }
}

/// No problem among the pages from `k` on means none in any of them.
proof fn lemma_no_page_problem(deck: DeckView, k: int, j: int)
    requires
        0 <= k <= j < deck.pages.len(),
        pages_problem_from(deck, k) is None,
    ensures
        page_problem(deck, deck.pages[j]) is None,
    decreases j - k,
{
    if k < j {
        lemma_no_page_problem(deck, k + 1, j);
    }
}

/// No problem among the keys from `m` on means none in any of them.
proof fn lemma_no_key_problem(deck: DeckView, page: PageView, m: int, j: int)
    requires
        0 <= m <= j < page.keys.len(),
        keys_problem_from(deck, page, m) is None,
    ensures
        key_problem(deck, page, j) is None,
    decreases j - m,
{
    if m < j {
        lemma_no_key_problem(deck, page, m + 1, j);
    }
}

/// Decks that pass the check can be pressed without ambiguity: on every page of every deck, no
/// two keys share a position, so every press resolves to the key that was drawn there.
pub proof fn law_valid_decks_have_distinct_positions(decks: Seq<DeckView>, i: int, k: int)
    requires
        decks_problem(decks) is None,
        0 <= i < decks.len(),
        0 <= k < decks[i].pages.len(),
    ensures
        positions_distinct(decks[i].pages[k].keys),
{
    let d = decks[i];
    let page = d.pages[k];
    lemma_no_deck_problem(decks, 0, i);
    assert(d.id.len() > 0 && !deck_id_taken(decks, i, d.id) && d.pages.len() > 0);
    lemma_no_page_problem(d, 0, k);
    assert(image_bytes(page.keys) <= IMAGE_BUDGET);
    assert forall|x: int, y: int| 0 <= x < y < page.keys.len() implies page.keys[x].pos
        != page.keys[y].pos by {
        lemma_no_key_problem(d, page, 0, y);
        if page.keys[x].pos == page.keys[y].pos {
            assert(pos_taken(page.keys, y, page.keys[y].pos));
        }
    }
}

/// A key that points at a page of its own deck, whichever page that is, is never refused for its
/// target: a Folder or Page key whose target is the id of some page of the deck, at a position
/// no earlier key of its page holds, has no problem.
pub proof fn law_a_key_pointing_into_its_deck_is_fine(deck: DeckView, page: PageView, m: int, p: int)
    requires
        0 <= m < page.keys.len(),
        0 <= p < deck.pages.len(),
        page.keys[m].kind == KeyKind::Folder || page.keys[m].kind == KeyKind::Page,
        page.keys[m].target == Some(deck.pages[p].id),
        forall|x: int| 0 <= x < m ==> (#[trigger] page.keys[x]).pos != page.keys[m].pos,
    ensures
        key_problem(deck, page, m) is None,
{
    assert(deck.pages[p].id == deck.pages[p].id);
    assert(!pos_taken(page.keys, m, page.keys[m].pos));
}

/// Whether a page's keys are all fine within `deck`: distinct positions, every Folder or Page key
/// aimed at one of the deck's pages, every action key with an action.
pub open spec fn keys_sound(deck: DeckView, keys: Seq<KeyView>) -> bool {
    &&& forall|x: int, y: int| 0 <= x < y < keys.len() ==> (#[trigger] keys[x]).pos != (#[trigger] keys[y]).pos
    &&& forall|x: int|
        0 <= x < keys.len() && ((#[trigger] keys[x]).kind == KeyKind::Folder || keys[x].kind
            == KeyKind::Page) ==> exists|p: int| 0 <= p < deck.pages.len() && keys[x].target == Some(
            #[trigger] deck.pages[p].id,
        )
    &&& forall|x: int|
        0 <= x < keys.len() && (#[trigger] keys[x]).kind == KeyKind::Action ==> (keys[x].action matches Some(
            a,
        ) && a.len() > 0)
}

/// Whether a deck is fine on its own: a non-empty id, at least one page, page ids non-empty and
/// distinct, and every page within the image budget with sound keys.
pub open spec fn deck_sound(d: DeckView) -> bool {
    &&& d.id.len() > 0
    &&& d.pages.len() > 0
    &&& forall|k: int| 0 <= k < d.pages.len() ==> (#[trigger] d.pages[k]).id.len() > 0
    &&& forall|k: int, l: int| 0 <= k < l < d.pages.len() ==> (#[trigger] d.pages[k]).id != (#[trigger] d.pages[l]).id
    &&& forall|k: int| 0 <= k < d.pages.len() ==> image_bytes((#[trigger] d.pages[k]).keys) <= IMAGE_BUDGET
    &&& forall|k: int| 0 <= k < d.pages.len() ==> keys_sound(d, (#[trigger] d.pages[k]).keys)
}

proof fn lemma_sound_keys(deck: DeckView, page: PageView, m: int)
    requires
        0 <= m,
        keys_sound(deck, page.keys),
    ensures
        keys_problem_from(deck, page, m) is None,
    decreases page.keys.len() - m,
{
    if m < page.keys.len() {
        let k = page.keys[m];
        assert(!pos_taken(page.keys, m, k.pos)) by {
            if pos_taken(page.keys, m, k.pos) {
                let x = choose|x: int| 0 <= x < m && #[trigger] page.keys[x].pos == k.pos;
                assert(page.keys[x].pos != page.keys[m].pos);
            }
        }
        if k.kind == KeyKind::Folder || k.kind == KeyKind::Page {
            let p = choose|p: int| 0 <= p < deck.pages.len() && k.target == Some(#[trigger] deck.pages[p].id);
            assert(deck.pages[p].id == deck.pages[p].id);
        }
        lemma_sound_keys(deck, page, m + 1);
    }
}

proof fn lemma_sound_pages(d: DeckView, k: int)
    requires
        0 <= k,
        deck_sound(d),
    ensures
        pages_problem_from(d, k) is None,
        page_ids_problem_from(d, k) is None,
    decreases d.pages.len() - k,
{
    if k < d.pages.len() {
        assert(image_bytes(d.pages[k].keys) <= IMAGE_BUDGET);
        assert(keys_sound(d, d.pages[k].keys));
        lemma_sound_keys(d, d.pages[k], 0);
        assert(!page_id_taken(d, k, d.pages[k].id)) by {
            if page_id_taken(d, k, d.pages[k].id) {
                let x = choose|x: int| 0 <= x < k && #[trigger] d.pages[x].id == d.pages[k].id;
                assert(d.pages[x].id != d.pages[k].id);
            }
        }
        assert(d.pages[k].id.len() > 0);
        lemma_sound_pages(d, k + 1);
    }
}

proof fn lemma_sound_decks(decks: Seq<DeckView>, i: int)
    requires
        0 <= i,
        forall|j: int| 0 <= j < decks.len() ==> deck_sound(#[trigger] decks[j]),
        forall|a: int, b: int| 0 <= a < b < decks.len() ==> (#[trigger] decks[a]).id != (#[trigger] decks[b]).id,
    ensures
        decks_problem_from(decks, i) is None,
    decreases decks.len() - i,
{
    if i < decks.len() {
        let d = decks[i];
        assert(deck_sound(d));
        assert(!deck_id_taken(decks, i, d.id)) by {
            if deck_id_taken(decks, i, d.id) {
                let x = choose|x: int| 0 <= x < i && #[trigger] decks[x].id == d.id;
                assert(decks[x].id != decks[i].id);
            }
        }
        lemma_sound_pages(d, 0);
        lemma_sound_decks(decks, i + 1);
    }
}

/// The check refuses only what is wrong: decks with distinct non-empty ids, each with at least
/// one page, whose pages have distinct non-empty ids and stay within the image budget, and whose
/// keys sit at distinct positions, point only at pages of their own deck (any of them) and carry
/// an action where they are action keys, are accepted.
pub proof fn law_sound_decks_are_accepted(decks: Seq<DeckView>)
    requires
        forall|j: int| 0 <= j < decks.len() ==> deck_sound(#[trigger] decks[j]),
        forall|a: int, b: int| 0 <= a < b < decks.len() ==> (#[trigger] decks[a]).id != (#[trigger] decks[b]).id,
    ensures
        decks_problem(decks) is None,
{
    lemma_sound_decks(decks, 0);
}

} // verus!
