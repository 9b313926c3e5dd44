use kiboard::config::{Deck, Face, Key, KeyKind, Page};
use kiboard::deck::{flat, keys_for, pages, preload_page, render_page, resolve, Grid, MAX_SIDE};
use kiboard::faces::{addr, face_is_on, flip, is_on, live_face, live_faces, live_on, showing_action};
use kiboard::state::obs_state;
use kiboard::validation::validate;

fn page_of(n: usize) -> Page {
    Page {
        id: "p0".into(),
        name: String::new(),
        keys: (0..n)
            .map(|pos| Key {
                pos,
                label: format!("k{pos}"),
                action: Some(format!("act{pos}")),
                kind: KeyKind::Action,
                ..Default::default()
            })
            .collect(),
    }
}

fn arrow_page(all_four: bool) -> Page {
    let mut page = page_of(if all_four { 12 } else { 8 });
    page.keys[1].label = "Up".into();
    page.keys[1].icon = "scrollup".into();
    page.keys[2].label = "Down".into();
    page.keys[2].icon = "scrolldown".into();
    if all_four {
        page.keys[3].label = "Left".into();
        page.keys[3].icon = "prev".into();
        page.keys[4].label = "Right".into();
        page.keys[4].icon = "next".into();
    }
    page
}

#[test]
fn a_preload_exists_only_where_a_page_does() {
    let p = page_of(15);
    let g = Grid::new(2, 3); // 6 per page -> 3 pages
    let deck = Deck { id: "d".into(), name: "D".into(), pages: vec![p.clone()], ..Default::default() };
    let at = |n: isize| preload_page(&p, g, n);

    assert!(at(-1).is_none(), "nothing before the first page");
    assert!(at(3).is_none(), "nothing after the last");
    assert!(at(0).is_some() && at(1).is_some() && at(2).is_some());

    let rendered = render_page(&deck, &p, g, at(1).unwrap(), &Vec::new(), &obs_state());
    assert_eq!(rendered.page, 1);
    assert_eq!(rendered.pages, 3);
    assert_eq!(rendered.keys[0].label, "k6", "page 1 of a 6-per-page grid starts at k6");
}

#[test]
fn reserve_shrinks_the_page_and_the_addressing_together() {
    let p = page_of(20);
    let g = Grid::new(3, 5).reserving(2);
    assert_eq!(g.size(), 15, "the client still DRAWS fifteen cells");
    assert_eq!(g.usable(), 13);

    let first = keys_for(&p, g, 0);
    assert_eq!(first.len(), 13, "a page must not fill the reserved cells");
    assert_eq!(first[12].label, "k12");

    assert_eq!(pages(&p, g), 2, "20 keys at 13 a page");
    let second = keys_for(&p, g, 1);
    assert_eq!(second[0].label, "k13", "page 2 starts where page 1 stopped");
    assert_eq!(resolve(&p, g, 1, 0).map(|k| k.label.as_str()), Some("k13"));
}

#[test]
fn same_deck_repaginates_to_any_grid() {
    let p = page_of(15);
    assert_eq!(pages(&p, Grid::new(3, 5)), 1);
    assert_eq!(pages(&p, Grid::new(2, 3)), 3);
    assert_eq!(pages(&p, Grid::new(4, 5)), 1);

    let g = Grid::new(2, 3);
    let seen: Vec<String> = (0..pages(&p, g))
        .flat_map(|i| keys_for(&p, g, i))
        .filter(|k| k.kind == KeyKind::Action)
        .map(|k| k.label)
        .collect();
    assert_eq!(seen, (0..15).map(|i| format!("k{i}")).collect::<Vec<_>>());
}

#[test]
fn four_arrows_are_laid_out_like_a_keyboard_without_losing_keys() {
    let page = arrow_page(true);
    let grid = Grid::new(3, 5);
    let shown = keys_for(&page, grid, 0);
    let at = |label: &str| shown.iter().position(|key| key.label == label).unwrap();

    let up = at("Up");
    let down = at("Down");
    let left = at("Left");
    let right = at("Right");
    assert_eq!(up + grid.cols, down, "Up sits directly above Down");
    assert_eq!(left + 1, down, "Left sits immediately left of Down");
    assert_eq!(down + 1, right, "Right sits immediately right of Down");
    assert_eq!(shown.iter().filter(|key| key.kind == KeyKind::Action).count(), 12);

    for (pos, key) in shown.iter().enumerate().filter(|(_, key)| key.kind == KeyKind::Action) {
        assert_eq!(resolve(&page, grid, 0, pos).unwrap().action, key.action);
    }
}

#[test]
fn an_up_down_pair_is_vertical_like_the_keyboard() {
    let page = arrow_page(false);
    let grid = Grid::new(3, 5);
    let shown = keys_for(&page, grid, 0);
    let up = shown.iter().position(|key| key.label == "Up").unwrap();
    let down = shown.iter().position(|key| key.label == "Down").unwrap();
    assert_eq!(up + grid.cols, down);
}

#[test]
fn last_page_is_padded_with_empties() {
    let g = Grid::new(2, 3);
    let keys = keys_for(&page_of(8), g, 1);
    assert_eq!(keys.len(), 6);
    assert_eq!(keys[1].kind, KeyKind::Action);
    assert_eq!(keys[2].kind, KeyKind::Empty);
    assert!(keys.iter().enumerate().all(|(i, k)| k.pos == i));
}

#[test]
fn resolve_is_the_inverse_of_pagination() {
    let p = page_of(15);
    let g = Grid::new(2, 3);
    for at in 0..pages(&p, g) {
        for (pos, shown) in keys_for(&p, g, at).iter().enumerate() {
            match resolve(&p, g, at, pos) {
                Some(k) => assert_eq!(k.label, shown.label),
                None => assert_eq!(shown.kind, KeyKind::Empty),
            }
        }
    }
}

#[test]
fn out_of_range_presses_resolve_to_nothing() {
    let p = page_of(6);
    let g = Grid::new(2, 3);
    assert!(resolve(&p, g, 0, 6).is_none());
    assert!(resolve(&p, g, 9, 0).is_none());
    assert!(resolve(&p, g, usize::MAX, 1).is_none());
}

#[test]
fn holes_do_not_shift_later_keys() {
    let p = Page {
        id: "p0".into(),
        name: String::new(),
        keys: vec![
            Key { pos: 0, label: "a".into(), action: Some("a".into()), kind: KeyKind::Action, ..Default::default() },
            Key { pos: 3, label: "d".into(), action: Some("d".into()), kind: KeyKind::Action, ..Default::default() },
        ],
    };
    let g = Grid::new(1, 4);
    let keys = keys_for(&p, g, 0);
    assert_eq!(keys[0].label, "a");
    assert_eq!(keys[1].kind, KeyKind::Empty);
    assert_eq!(keys[3].label, "d");
    assert_eq!(resolve(&p, g, 0, 3).unwrap().action.as_deref(), Some("d"));
    assert!(resolve(&p, g, 0, 1).is_none());
}

#[test]
fn validate_rejects_what_the_phone_could_not_resolve() {
    let key = |pos: usize, kind: KeyKind| Key { pos, kind, ..Default::default() };
    let act = |pos: usize| Key { pos, action: Some("ctrl+c".into()), kind: KeyKind::Action, ..Default::default() };
    let deck = |pages: Vec<Page>| Deck { id: "d".into(), pages, ..Default::default() };
    let page = |id: &str, keys: Vec<Key>| Page { id: id.into(), keys, ..Default::default() };

    assert!(validate(&vec![deck(vec![page("p0", vec![act(0), act(1)])])]).is_ok());
    assert!(validate(&vec![]).is_ok(), "no decks at all is not an error");

    assert!(validate(&vec![deck(vec![page("p0", vec![act(0), act(0)])])]).is_err());
    assert!(validate(&vec![deck(vec![page("p0", vec![key(0, KeyKind::Folder)])])]).is_err());
    let dangling = Key { pos: 0, target: Some("gone".into()), kind: KeyKind::Page, ..Default::default() };
    assert!(validate(&vec![deck(vec![page("p0", vec![dangling])])]).is_err());
    assert!(validate(&vec![deck(vec![page("p0", vec![key(0, KeyKind::Action)])])]).is_err());
    assert!(validate(&vec![deck(vec![])]).is_err());
    assert!(validate(&vec![deck(vec![page("p0", vec![]), page("p0", vec![])])]).is_err());
    assert!(validate(&vec![deck(vec![page("p0", vec![])]), deck(vec![page("p0", vec![])])]).is_err());
    assert!(validate(&vec![deck(vec![page("p0", vec![key(0, KeyKind::Empty)])])]).is_ok());

    let with_image = |pos: usize, bytes: usize| Key { image: Some("x".repeat(bytes)), ..act(pos) };
    assert!(validate(&vec![deck(vec![page("p0", (0..15).map(|i| with_image(i, 3_000)).collect())])]).is_ok());
    let fat = validate(&vec![deck(vec![page("p0", vec![with_image(0, 2_000_000)])])]);
    assert!(fat.is_err());
    assert!(fat.unwrap_err().contains("one frame"), "the error has to say why");
}

#[test]
fn a_two_state_key_swaps_its_face_and_never_ships_the_spare() {
    let deck = Deck {
        id: "d".into(),
        pages: vec![Page {
            id: "p0".into(),
            keys: vec![Key {
                pos: 6,
                label: "Mute".into(),
                action: Some("vol:mute".into()),
                kind: KeyKind::Action,
                toggle: Some(Face { label: "Unmute".into(), action: Some("vol:unmute".into()), ..Default::default() }),
                ..Default::default()
            }],
            ..Default::default()
        }],
        ..Default::default()
    };
    let page = &deck.pages[0];
    let at = addr("d", "p0", 6);
    let mut faces: Vec<String> = Vec::new();
    let obs = obs_state();

    let grid = Grid::new(2, 3);
    let off = render_page(&deck, page, grid, 1, &faces, &obs);
    assert_eq!(off.keys[0].label, "Mute");
    assert_eq!(off.keys[0].state.and_then(|s| s.on), Some(false));
    assert!(off.keys.iter().all(|k| k.toggle.is_none()), "the spare face must not reach the phone");

    let key = resolve(page, grid, 1, 0).expect("the key");
    assert_eq!(showing_action(key, is_on(&faces, &at)).as_deref(), Some("vol:mute"));
    assert!(flip(&mut faces, &at));
    assert_eq!(showing_action(key, is_on(&faces, &at)).as_deref(), Some("vol:unmute"));

    let on = render_page(&deck, page, grid, 1, &faces, &obs);
    assert_eq!(on.keys[0].label, "Unmute");
    assert_eq!(on.keys[0].state.and_then(|s| s.on), Some(true));

    let wide = render_page(&deck, page, Grid::new(1, 7), 0, &faces, &obs);
    assert_eq!(wide.keys[6].label, "Unmute");
    assert!(!flip(&mut faces, &at));
}

#[test]
fn a_face_is_forgotten_when_its_key_stops_having_two() {
    let with_toggle = |pos: usize| Key {
        pos,
        action: Some("wait:1".into()),
        kind: KeyKind::Action,
        toggle: Some(Face { label: "ON".into(), ..Default::default() }),
        ..Default::default()
    };
    let deck_of = |keys: Vec<Key>| {
        vec![Deck { id: "d".into(), pages: vec![Page { id: "p0".into(), keys, ..Default::default() }], ..Default::default() }]
    };

    let after = live_faces(&deck_of(vec![with_toggle(0), Key { pos: 1, kind: KeyKind::Action, ..Default::default() }]));
    assert!(after.contains(&addr("d", "p0", 0)), "a toggle that still exists keeps its face");
    assert!(!after.contains(&addr("d", "p0", 1)), "one that does not must not come back on");

    assert!(live_faces(&vec![]).is_empty());
}

#[test]
fn obs_owns_the_face_of_an_obs_key() {
    let mut obs = obs_state();
    assert_eq!(live_on("obs:record", &obs), None);
    assert_eq!(live_on("obs:scene:Intro", &obs), None);

    obs.connected = true;
    obs.recording = true;
    obs.mic_muted = false;
    obs.current_scene = "Intro".into();
    assert_eq!(live_on("obs:record", &obs), Some(true));
    assert_eq!(live_on("obs:mic", &obs), Some(false));
    assert_eq!(live_on("obs:scene:Intro", &obs), Some(true));
    assert_eq!(live_on("obs:scene:Outro", &obs), Some(false));
    assert_eq!(live_on("launch:notepad.exe", &obs), None);
    assert_eq!(live_on("obs:record>>wait:100", &obs), None);

    let key = Key {
        pos: 0,
        label: "Record".into(),
        action: Some("obs:record".into()),
        kind: KeyKind::Action,
        toggle: Some(Face { label: "Stop".into(), ..Default::default() }),
        ..Default::default()
    };
    let at = addr("d", "p0", 0);
    let faces: Vec<String> = Vec::new(); // memory says OFF
    assert_eq!(live_face(&key, &obs), Some(true), "OBS says recording");
    assert!(face_is_on(&key, &at, &faces, &obs), "so the ON face shows regardless of memory");
}

#[test]
fn client_grid_is_clamped() {
    assert_eq!(Grid::new(0, 0).size(), 1);
    assert_eq!(Grid::new(9999, 9999), Grid::new(MAX_SIDE, MAX_SIDE));
}

#[test]
fn a_press_address_is_absolute_whatever_the_grid() {
    assert_eq!(flat(Grid::new(2, 3), 1, 0), Some(6));
    assert_eq!(flat(Grid::new(1, 7), 0, 6), Some(6));
    assert_eq!(flat(Grid::new(2, 3), 0, 6), None);
    assert_eq!(addr("d", "p0", 6), "d/p0/6");
}

#[test]
fn flipping_twice_restores_the_face() {
    let mut faces: Vec<String> = Vec::new();
    let at = addr("d", "p0", 2);
    assert!(!is_on(&faces, &at));
    assert!(flip(&mut faces, &at));
    assert!(is_on(&faces, &at));
    assert!(!flip(&mut faces, &at));
    assert!(!is_on(&faces, &at));
    assert!(faces.is_empty());
}

