use kiboard::config::{Deck, Key, KeyKind, Page};
use kiboard::deck::{render_page, Grid};
use kiboard::session::{
    clear_preview, input_action, is_client_action, is_session_action, manual_app_ids, manual_target, preload_pages,
    resolve_press, set_preview, with_decks, Input, Press, Session,
};
use kiboard::state::obs_state;

fn deck_saying(label: &str) -> Vec<Deck> {
    vec![Deck {
        id: "d".into(),
        name: "D".into(),
        pages: vec![Page {
            id: "p0".into(),
            keys: vec![Key {
                pos: 0,
                label: label.into(),
                action: Some(format!("type:{label}")),
                kind: KeyKind::Action,
                ..Default::default()
            }],
            ..Default::default()
        }],
        ..Default::default()
    }]
}

fn deck_of(n: usize) -> Vec<Deck> {
    vec![Deck {
        id: "d".into(),
        name: "D".into(),
        pages: vec![Page {
            id: "p0".into(),
            keys: (0..n)
                .map(|pos| Key {
                    pos,
                    label: format!("k{pos}"),
                    action: Some("noop".into()),
                    kind: KeyKind::Action,
                    ..Default::default()
                })
                .collect(),
            ..Default::default()
        }],
        ..Default::default()
    }]
}

fn session() -> Session {
    Session { authed: true, manual: true, deck_id: "d".into(), page_id: "p0".into(), ..Default::default() }
}

/// The page a manual session is drawn: what the phone sees.
fn drawn(s: &Session, decks: &Vec<Deck>) -> Option<Vec<String>> {
    let (d, p) = manual_target(decks, &s.deck_id, &s.page_id)?;
    let r = render_page(&decks[d], &decks[d].pages[p], s.grid, s.page, &Vec::new(), &obs_state());
    Some(r.keys.into_iter().map(|k| k.label).collect())
}

#[test]
fn a_preview_owns_both_the_layout_and_the_press() {
    let saved: Vec<Deck> = Vec::new();
    let mut preview: Option<Vec<Deck>> = None;
    clear_preview(&mut preview);
    set_preview(&mut preview, deck_saying("PREVIEW"));

    let s = session();
    let layout = drawn(&s, with_decks(&preview, &saved)).expect("a layout");
    assert!(layout.iter().any(|l| l == "PREVIEW"), "the preview is what gets drawn");

    match resolve_press(&s, with_decks(&preview, &saved), None, 0, 0, "short", &Vec::new(), &obs_state()) {
        Ok(Press::Run(action)) => assert_eq!(action, "type:PREVIEW", "and what gets run"),
        other => panic!("expected the preview's action, got {:?}", other.is_ok()),
    }

    assert!(clear_preview(&mut preview));
    let s2 = session();
    let after = drawn(&s2, with_decks(&preview, &saved));
    assert!(
        after.map(|l| !l.iter().any(|x| x == "PREVIEW")).unwrap_or(true),
        "the preview must not survive being cleared"
    );
    assert!(!clear_preview(&mut preview), "a second clear has nothing to re-send");
}

#[test]
fn preloads_are_the_two_neighbours_and_never_more() {
    let two = deck_of(20);
    let s = session();
    let first = preload_pages(&two[0].pages[0], s.grid, 0);
    assert_eq!(first, vec![1], "page 0 has nothing before it");

    let last = preload_pages(&two[0].pages[0], s.grid, 1);
    assert_eq!(last, vec![0], "the last page has nothing after it");

    let one = deck_saying("ONE");
    assert!(preload_pages(&one[0].pages[0], s.grid, 0).is_empty());

    let many = deck_of(60);
    assert_eq!(preload_pages(&many[0].pages[0], Grid::new(3, 5), 2), vec![1, 3]);
}

#[test]
fn input_is_a_closed_vocabulary() {
    let none = blank();
    let mouse = Input { kind: Some("mouse".into()), dx: Some(5000), dy: Some(-3), ..blank() };
    assert_eq!(input_action(&mouse).unwrap(), "mouse:4096,-3");
    let vol = Input { kind: Some("vol".into()), level: Some(150), ..blank() };
    assert_eq!(input_action(&vol).unwrap(), "vol:100");
    let drag = Input { kind: Some("drag".into()), down: Some(true), ..blank() };
    assert_eq!(input_action(&drag).unwrap(), "hold:left");
    let right = Input { kind: Some("click".into()), button: Some("right".into()), ..blank() };
    assert_eq!(input_action(&right).unwrap(), "click:right");
    let text = Input { kind: Some("text".into()), text: Some("ctrl+alt+del".into()), ..blank() };
    assert_eq!(input_action(&text).unwrap(), "type:ctrl+alt+del");
    let empty_text = Input { kind: Some("text".into()), text: Some(String::new()), ..blank() };
    assert_eq!(input_action(&empty_text).err(), Some("unknown_action"));
    assert_eq!(input_action(&none).err(), Some("unknown_action"));
}

fn blank() -> Input {
    Input { kind: None, dx: None, dy: None, n: None, level: None, button: None, down: None, text: None }
}

#[test]
fn session_actions_are_told_apart() {
    assert!(is_client_action("trackpad") && is_client_action("dictate"));
    assert!(!is_client_action("windows"));
    assert!(is_session_action("windows"));
    assert!(is_session_action("deck:launcher") && is_session_action("mode:auto"));
    assert!(is_session_action("trackpad"));
    assert!(!is_session_action("ctrl+c"));
}

#[test]
fn manual_app_ids_are_sorted_once_and_only_with_clients() {
    let decks = vec![Deck {
        id: "d".into(),
        pages: vec![Page {
            id: "p0".into(),
            keys: vec![
                Key { pos: 0, action: Some("launch:zeta".into()), kind: KeyKind::Action, ..Default::default() },
                Key { pos: 1, action: Some("focus: alpha ".into()), kind: KeyKind::Action, ..Default::default() },
                Key { pos: 2, action: Some("kill:zeta".into()), kind: KeyKind::Action, ..Default::default() },
                Key { pos: 3, action: Some("ctrl+c".into()), kind: KeyKind::Action, ..Default::default() },
            ],
            ..Default::default()
        }],
        ..Default::default()
    }];
    assert!(manual_app_ids(0, &decks).is_empty());
    assert_eq!(manual_app_ids(1, &decks), vec!["alpha".to_string(), "zeta".to_string()]);
}
