use kiboard::apps::App;
use kiboard::config::{Deck, Key, KeyKind, Page};
use kiboard::seeding::{backfill_launcher, default_decks, launcher_deck, replace_launcher, set_manual_enabled, upgrade, Config};

const REFERENCE_PAGE: usize = 15;

fn launcher() -> Deck {
    Deck {
        id: "launcher".into(),
        name: "Launcher".into(),
        pages: vec![Page { id: "p0".into(), keys: vec![Key { pos: 0, ..Default::default() }], ..Default::default() }],
        ..Default::default()
    }
}

fn starter(keys: Vec<Key>) -> Vec<Deck> {
    vec![Deck {
        id: "starter".into(),
        name: "KiBoard".into(),
        pages: vec![Page { id: "p0".into(), keys, ..Default::default() }],
        ..Default::default()
    }]
}

fn generated_launcher(label: &str, id: &str) -> Deck {
    Deck {
        id: "launcher".into(),
        name: "Launcher".into(),
        icon: "apps".into(),
        pages: vec![Page {
            id: "p0".into(),
            keys: vec![
                Key {
                    pos: 0,
                    label: "Auto".into(),
                    icon: "mode".into(),
                    action: Some("mode:auto".into()),
                    kind: KeyKind::Action,
                    ..Default::default()
                },
                Key {
                    pos: 1,
                    label: label.into(),
                    icon: "app".into(),
                    action: Some(format!("launch:{id}")),
                    hold: Some(format!("focus:{id}")),
                    kind: KeyKind::Action,
                    ..Default::default()
                },
            ],
            ..Default::default()
        }],
    }
}

fn key_at(pos: usize, action: &str) -> Key {
    Key { pos, action: Some(action.into()), kind: KeyKind::Action, ..Default::default() }
}

fn app(id: &str, name: &str, exe: &str) -> App {
    App { id: id.into(), name: name.into(), exe: exe.into(), last_opened: 0 }
}

#[test]
fn backfilling_the_launcher_only_ever_adds() {
    let mut decks = starter(vec![key_at(0, "ctrl+c"), key_at(1, "ctrl+v")]);
    backfill_launcher(&mut decks, launcher());
    assert_eq!(decks.len(), 2);
    assert_eq!(decks[1].id, "launcher");
    assert_eq!(decks[0].pages[0].keys.len(), 3);
    assert_eq!(decks[0].pages[0].keys[0].action.as_deref(), Some("ctrl+c"));
    let added = decks[0].pages[0].keys.last().unwrap();
    assert_eq!(added.pos, 2);
    assert_eq!(added.action.as_deref(), Some("deck:launcher"));

    backfill_launcher(&mut decks, launcher());
    assert_eq!(decks.len(), 2);
    assert_eq!(decks[0].pages[0].keys.len(), 3);
}

#[test]
fn backfilling_respects_what_the_user_already_did() {
    let mut decks = starter(vec![key_at(0, "deck:launcher")]);
    backfill_launcher(&mut decks, launcher());
    assert_eq!(decks[0].pages[0].keys.len(), 1, "their key is the way there");
    assert_eq!(decks.len(), 2);

    let mine = Deck { id: "launcher".into(), name: "Mine".into(), ..Default::default() };
    let mut decks = vec![mine];
    backfill_launcher(&mut decks, launcher());
    assert_eq!(decks.len(), 1);
    assert_eq!(decks[0].name, "Mine");
}

#[test]
fn refreshing_the_launcher_replaces_any_legacy_launcher() {
    let mut decks = vec![generated_launcher("Old", "old")];
    assert!(replace_launcher(&mut decks, Some(generated_launcher("Recent", "recent"))));
    assert_eq!(decks[0].pages[0].keys[1].label, "Recent");

    let mut custom = vec![Deck { id: "launcher".into(), name: "My launcher".into(), ..Default::default() }];
    assert!(replace_launcher(&mut custom, Some(generated_launcher("Recent", "recent"))));
    assert_eq!(custom[0].name, "Launcher");
    assert_eq!(custom[0].pages[0].keys[1].label, "Recent");

    let mut deleted = Vec::new();
    assert!(replace_launcher(&mut deleted, Some(generated_launcher("Recent", "recent"))));
    assert_eq!(deleted[0].id, "launcher");
}

#[test]
fn the_jump_key_lands_past_the_last_key_not_in_a_gap() {
    let mut decks = starter(vec![key_at(0, "ctrl+c"), key_at(7, "ctrl+v")]);
    backfill_launcher(&mut decks, launcher());
    assert_eq!(decks[0].pages[0].keys.last().unwrap().pos, 8);
}

#[test]
fn starter_deck_is_addressable_by_position() {
    let recent = [app("notepad", "Bloc de notas", r"C:\Apps\notepad.exe")];
    let refs: Vec<&App> = recent.iter().collect();
    for decks in [default_decks(None), default_decks(launcher_deck(&refs, r"C:\Windows"))] {
        assert!(!decks.is_empty(), "a starter deck");
        for deck in &decks {
            assert!(!deck.pages.is_empty());
            for page in &deck.pages {
                if deck.id != "launcher" {
                    assert!(page.keys.len() <= REFERENCE_PAGE);
                }
                for (i, k) in page.keys.iter().enumerate() {
                    assert_eq!(k.pos, i, "page {} key {} has pos {}", page.id, i, k.pos);
                }
                for k in &page.keys {
                    if matches!(k.kind, KeyKind::Folder | KeyKind::Page) {
                        let t = k.target.as_deref().expect("a navigating key needs a target");
                        assert!(deck.page(t).is_some(), "key targets missing page {t}");
                    }
                    if matches!(k.kind, KeyKind::Action) {
                        assert!(k.action.is_some(), "an action key needs an action");
                    }
                }
            }
        }
    }
}

#[test]
fn starter_manual_deck_contains_only_common_actions() {
    let starter = default_decks(None).into_iter().find(|deck| deck.id == "starter").expect("the Manual starter deck");
    let actions: Vec<&str> = starter.pages[0].keys.iter().filter_map(|key| key.action.as_deref()).collect();
    assert_eq!(actions.len(), 9);
    for common in ["ctrl+c", "ctrl+v", "ctrl+x", "ctrl+z", "ctrl+y", "ctrl+a", "screenshot", "trackpad", "dictate"] {
        assert!(actions.contains(&common), "starter is missing {common}");
    }
    for redundant in ["windows", "mode:auto", "deck:launcher"] {
        assert!(!actions.contains(&redundant));
    }
}

#[test]
fn unbound_presses_do_not_fall_back() {
    let k = Key { action: Some("ctrl+c".into()), kind: KeyKind::Action, ..Default::default() };
    assert_eq!(k.action_for("short").as_deref(), Some("ctrl+c"));
    assert_eq!(k.action_for("long"), None);
    assert_eq!(k.action_for("double"), None);
    assert_eq!(k.action_for("nonsense"), None);
}

#[test]
fn the_launcher_leaves_out_windows_own_programs_and_keeps_the_order() {
    let recent = [
        app("edge", "Edge", r"C:\Program Files\Edge\msedge.exe"),
        app("calc", "Calculadora", r"C:\WINDOWS\System32\calc.exe"),
        app("Pkg!App", "Fotos", ""),
    ];
    let refs: Vec<&App> = recent.iter().collect();
    let deck = launcher_deck(&refs, r"C:\Windows").expect("a launcher");
    assert_eq!(deck.id, "launcher");
    assert_eq!(deck.pages.len(), 1);
    let keys = &deck.pages[0].keys;
    assert_eq!(keys.len(), 3);
    assert_eq!(keys[0].action.as_deref(), Some("mode:auto"));
    assert_eq!(keys[1].label, "Edge");
    assert_eq!(keys[1].action.as_deref(), Some("launch:edge"));
    assert_eq!(keys[1].hold.as_deref(), Some("focus:edge"));
    assert_eq!(keys[2].label, "Fotos");
    assert_eq!(keys[2].pos, 2);

    let only_windows = [app("calc", "Calculadora", r"c:\windows\system32\calc.exe")];
    let refs: Vec<&App> = only_windows.iter().collect();
    assert!(launcher_deck(&refs, r"C:\Windows").is_none(), "no empty deck");
}

#[test]
fn the_launcher_is_capped() {
    let many: Vec<App> = (0..70).map(|i| app(&format!("a{i}"), &format!("App {i}"), "")).collect();
    let refs: Vec<&App> = many.iter().collect();
    let deck = launcher_deck(&refs, r"C:\Windows").expect("a launcher");
    assert_eq!(deck.pages[0].keys.len(), 61);
    assert_eq!(deck.pages[0].keys[60].label, "App 59");
}

#[test]
fn replacing_with_the_same_launcher_changes_nothing() {
    let mut decks = vec![generated_launcher("Same", "same")];
    assert!(!replace_launcher(&mut decks, Some(generated_launcher("Same", "same"))));
    assert!(replace_launcher(&mut decks, None));
    assert!(decks.is_empty());
    assert!(!replace_launcher(&mut decks, None));
}

#[test]
fn loading_an_old_config_brings_it_forward() {
    let mut c = Config::fresh();
    c.decks = starter(vec![key_at(0, "ctrl+c")]);
    let backup = upgrade(&mut c, Some(generated_launcher("Edge", "edge")));
    assert!(backup, "a file from before the current shape is kept");
    assert_eq!(c.config_version, 2);
    assert_eq!(c.decks_version, 3);
    assert_eq!(c.decks.len(), 2);
    assert_eq!(c.decks[0].pages[0].keys[1].action.as_deref(), Some("deck:launcher"));
    assert_eq!(c.token.len(), 32);
    assert_eq!(c.host_id.len(), 8);
    assert!(c.token.chars().all(|ch| ch.is_ascii_hexdigit() && !ch.is_ascii_uppercase()));
    assert_eq!(c.profiles_version, 50);
    assert!(!c.profiles.is_empty());
    assert!(c.pairing_open && c.analytics && !c.manual_enabled && !c.manual_intro_seen);

    let token = c.token.clone();
    assert!(!upgrade(&mut c, None), "a current file needs no copy");
    assert_eq!(c.token, token, "the token survives");
    assert_eq!(c.decks.len(), 1, "no launcher to offer: the stale one goes");
}

#[test]
fn a_fresh_install_gets_the_starter_and_the_launcher() {
    let mut c = Config::fresh();
    upgrade(&mut c, Some(generated_launcher("Edge", "edge")));
    assert_eq!(c.decks.len(), 2);
    assert_eq!(c.decks[0].id, "starter");
    assert_eq!(c.decks[1].id, "launcher");
}

#[test]
fn the_manual_intro_is_shown_the_first_time_manual_is_switched_on_only() {
    let mut c = Config::fresh();
    assert!(!set_manual_enabled(&mut c, false));
    assert!(!c.manual_enabled && !c.manual_intro_seen);
    assert!(set_manual_enabled(&mut c, true));
    assert!(c.manual_enabled && c.manual_intro_seen);
    assert!(!set_manual_enabled(&mut c, false));
    assert!(!c.manual_enabled);
    assert!(!set_manual_enabled(&mut c, true));
    assert!(c.manual_enabled);
}
