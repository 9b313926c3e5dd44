use kiboard::config::{Key, KeyKind};
use kiboard::layout::{obs_pins, pin_close_app, tidy_action_exec};

fn button(label: &str, action: &str, rec: bool) -> (bool, Key) {
    (rec, Key { label: label.into(), action: Some(action.into()), kind: KeyKind::Action, ..Default::default() })
}

fn labels(buttons: &[(bool, Key)]) -> Vec<&str> {
    buttons.iter().map(|(_, k)| k.label.as_str()).collect()
}

#[test]
fn close_app_lands_on_the_third_cell_whatever_the_profile_says() {
    let mut b = vec![
        button("Copiar", "ctrl+c", true),
        button("Pegar", "ctrl+v", true),
        button("Nueva carpeta", "ctrl+shift+n", true),
        button("Renombrar", "f2", true),
        button("Cerrar app", "alt+F4", true),
        button("Cortar", "ctrl+x", false),
    ];
    pin_close_app(&mut b);
    assert_eq!(labels(&b), ["Copiar", "Pegar", "Cerrar app", "Nueva carpeta", "Renombrar", "Cortar"]);
    pin_close_app(&mut b);
    assert_eq!(labels(&b)[2], "Cerrar app");
}

#[test]
fn the_action_is_matched_however_it_was_typed() {
    let mut b = vec![button("a", "ctrl+c", true), button("Cerrar", "alt+f4", false)];
    pin_close_app(&mut b);
    assert_eq!(labels(&b)[1], "Cerrar", "two keys: last is as close to third as it gets");
}

#[test]
fn a_profile_without_one_is_left_alone() {
    let mut b = vec![button("a", "ctrl+c", true), button("b", "ctrl+v", true)];
    pin_close_app(&mut b);
    assert_eq!(labels(&b), ["a", "b"]);
    let mut empty: Vec<(bool, Key)> = vec![];
    pin_close_app(&mut empty);
    assert!(empty.is_empty());
}

#[test]
fn pinning_twice_is_pinning_once() {
    let mut b = vec![
        button("x", "alt+F4", false),
        button("a", "ctrl+c", true),
        button("b", "ctrl+v", true),
        button("c", "ctrl+x", true),
    ];
    pin_close_app(&mut b);
    let once: Vec<String> = labels(&b).iter().map(|s| s.to_string()).collect();
    pin_close_app(&mut b);
    assert_eq!(labels(&b), once.iter().map(|s| s.as_str()).collect::<Vec<_>>());
    assert_eq!(labels(&b)[2], "x");
}

#[test]
fn picker_option_names_are_trimmed_and_nothing_else() {
    assert_eq!(tidy_action_exec("picker: Uno =ctrl+1; Dos=ctrl+2"), "picker:Uno=ctrl+1;Dos=ctrl+2");
    assert_eq!(tidy_action_exec("ctrl+c"), "ctrl+c");
    assert_eq!(tidy_action_exec("picker:solo"), "picker:solo");
}

#[test]
fn obs_pins_its_profile_only_while_connected_and_on_air() {
    assert!(!obs_pins(true, false, false));
    assert!(!obs_pins(false, true, true));
    assert!(obs_pins(true, true, false));
    assert!(obs_pins(true, false, true));
}
