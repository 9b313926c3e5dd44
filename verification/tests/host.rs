use kiboard::config::{Deck, Face, Key, KeyKind, Page};
use kiboard::host::{preview_decks, safe_file_name, save_decks, set_obs_password, unpair_all};
use kiboard::seeding::Config;

fn toggle_deck(keys: Vec<Key>) -> Deck {
    Deck {
        id: "d".into(),
        name: "D".into(),
        pages: vec![Page { id: "p0".into(), keys, ..Default::default() }],
        ..Default::default()
    }
}

fn action(pos: usize) -> Key {
    Key { pos, kind: KeyKind::Action, action: Some("ctrl+c".into()), ..Default::default() }
}

fn toggle(pos: usize) -> Key {
    Key { toggle: Some(Face { label: "On".into(), ..Default::default() }), ..action(pos) }
}

#[test]
fn a_deck_id_cannot_escape_the_decks_folder() {
    assert_eq!(safe_file_name("launcher"), "launcher");
    assert_eq!(safe_file_name("my-deck_2"), "my-deck_2");
    assert!(!safe_file_name("../../evil").contains('.'));
    assert!(!safe_file_name("..\\..\\evil").contains('\\'));
    assert!(!safe_file_name("C:/Windows/System32/x").contains(':'));
    assert!(!safe_file_name("con.txt").contains('.'));
    assert_eq!(safe_file_name("///"), "deck");
    assert_eq!(safe_file_name(""), "deck");
}

#[test]
fn flattening_keeps_the_length_and_the_plain_characters() {
    assert_eq!(safe_file_name("../a b"), "---a-b");
    assert_eq!(safe_file_name("año"), "a-o");
}

#[test]
fn saving_valid_decks_replaces_them_forgets_orphan_faces_and_drops_the_preview() {
    let mut c = Config::fresh();
    let mut faces = vec!["d/p0/0".to_string(), "d/p0/1".to_string()];
    let mut preview = Some(vec![toggle_deck(vec![])]);
    let decks = vec![toggle_deck(vec![toggle(0), action(1)])];
    assert_eq!(save_decks(&mut c, &mut faces, &mut preview, decks), Ok(()));
    assert_eq!(c.decks.len(), 1);
    assert_eq!(c.decks[0].pages[0].keys.len(), 2);
    assert_eq!(faces, vec!["d/p0/0".to_string()]);
    assert!(preview.is_none());
}

#[test]
fn invalid_decks_are_neither_saved_nor_previewed() {
    let mut c = Config::fresh();
    let mut faces = vec!["d/p0/0".to_string()];
    let mut preview = None;
    let clash = vec![toggle_deck(vec![action(0), action(0)])];
    let e = save_decks(&mut c, &mut faces, &mut preview, clash).unwrap_err();
    assert!(!e.is_empty());
    assert!(c.decks.is_empty());
    assert_eq!(faces, vec!["d/p0/0".to_string()]);
    assert!(preview.is_none());
    let clash = vec![toggle_deck(vec![action(0), action(0)])];
    assert!(preview_decks(&mut preview, clash).is_err());
    assert!(preview.is_none());
    assert_eq!(preview_decks(&mut preview, vec![toggle_deck(vec![action(0)])]), Ok(()));
    assert_eq!(preview.map(|p| p.len()), Some(1));
}

#[test]
fn unpairing_everything_rolls_the_shared_token_and_keeps_devices() {
    let mut c = Config::fresh();
    c.paired = vec!["phone".into()];
    unpair_all(&mut c);
    assert_eq!(c.token.len(), 32);
    assert!(c.token.chars().all(|ch| ch.is_ascii_hexdigit()));
    assert!(c.paired.is_empty());
    let first = c.token.clone();
    unpair_all(&mut c);
    assert_ne!(c.token, first);
}

#[test]
fn the_obs_password_is_stored_trimmed() {
    let mut c = Config::fresh();
    set_obs_password(&mut c, "  s3cret\n");
    assert_eq!(c.obs_password, "s3cret");
    set_obs_password(&mut c, "   ");
    assert_eq!(c.obs_password, "");
}
