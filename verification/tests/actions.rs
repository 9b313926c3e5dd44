use kiboard::actions::{
    choose_action, parse_key, parse_modifier, parse_step, plan_action, Button, KeyCode, Modifier,
    Step,
};

#[test]
fn wait_pauses_and_validates() {
    assert!(parse_step("wait:50").is_ok());
    assert!(parse_step("wait:abc").is_err());
}

#[test]
fn a_picker_runs_the_branch_that_was_chosen() {
    let a = "picker:Fable=type:/model>>wait:400>>type: model-fable-5;Opus=type:/model>>wait:400>>type: model-opus-5";
    assert_eq!(
        choose_action(a, Some(1), None).as_deref(),
        Some("type:/model>>wait:400>>type: model-opus-5"),
        "the value is a whole chain, `=` splits once"
    );
    assert!(choose_action(a, Some(0), None).unwrap().starts_with("type:/model"));
    assert_eq!(choose_action(a, None, None), None);
    assert_eq!(choose_action(a, Some(9), None), None);
}

#[test]
fn a_colour_swatch_runs_the_palette_entry() {
    let a = "colorpicker:Negro=000000;Rojo=ED1C24";
    assert_eq!(choose_action(a, Some(1), None).as_deref(), Some("uia:Rojo"));
    assert_eq!(choose_action(a, None, None), None);
}

#[test]
fn a_prompt_fills_the_hole_and_refuses_to_open_a_step() {
    let a = "prompt:Nombre de la carpeta=type:mkdir {}>>enter";
    assert_eq!(
        choose_action(a, None, Some("informes")).as_deref(),
        Some("type:mkdir informes>>enter")
    );
    assert_eq!(choose_action(a, None, Some("  ")), None, "empty is not a folder name");
    assert_eq!(choose_action(a, None, None), None);
    assert_eq!(
        choose_action(a, None, Some("x>>ctrl+s")),
        None,
        "`>>` would run a step the user was never shown"
    );
}

#[test]
fn anything_else_is_returned_as_it_came() {
    assert_eq!(choose_action("ctrl+c", None, None).as_deref(), Some("ctrl+c"));
    assert_eq!(choose_action("ctrl+c", Some(3), Some("x")).as_deref(), Some("ctrl+c"));
}

#[test]
fn parses_keys() {
    assert!(parse_key("c").is_ok());
    assert!(parse_key("F4").is_ok());
    assert!(parse_key("enter").is_ok());
    assert!(parse_key("left").is_ok());
    assert!(parse_key("nope").is_err());
    for t in ["volup", "voldown", "volmute", "playpause", "nexttrack", "prevtrack"] {
        assert!(parse_key(t).is_ok(), "media token {t}");
    }
}

#[test]
fn function_keys_stop_at_twelve() {
    assert_eq!(parse_key("F12"), Ok(KeyCode::F(12)));
    assert_eq!(parse_key("f13"), Err("bad_key"));
    assert_eq!(parse_key("f0"), Err("bad_key"));
    assert_eq!(parse_key("f"), Ok(KeyCode::Unicode('f')));
    assert_eq!(parse_key("add"), Ok(KeyCode::Other(0x6B)));
    assert_eq!(parse_modifier("CTRL"), Ok(Modifier::Control));
    assert_eq!(parse_modifier("cmd"), Ok(Modifier::Meta));
    assert_eq!(parse_modifier("hyper"), Err("bad_modifier"));
}

fn hotkey_of(step: &str) -> Option<(Vec<Modifier>, KeyCode)> {
    match parse_step(step) {
        Ok(Step::Hotkey(m, k)) => Some((m, k)),
        _ => None,
    }
}

#[test]
fn a_hotkey_is_modifiers_then_one_key() {
    assert_eq!(
        hotkey_of("ctrl+shift+p"),
        Some((vec![Modifier::Control, Modifier::Shift], KeyCode::Unicode('p')))
    );
    assert_eq!(hotkey_of("alt+F4"), Some((vec![Modifier::Alt], KeyCode::F(4))));
    assert!(matches!(parse_step("+ +"), Err("unknown_action")));
    assert!(matches!(parse_step("hyper+c"), Err("unknown_action")));
    assert!(matches!(parse_step("ctrl+nope"), Err("unknown_action")));
    assert!(matches!(parse_step("nonsense"), Err("unknown_action")));
}

#[test]
fn every_step_kind_reads_its_argument() {
    assert!(matches!(parse_step("wait:5000"), Ok(Step::Wait(2000))));
    assert!(matches!(parse_step("screenshot"), Ok(Step::Screenshot)));
    assert!(matches!(parse_step("scroll:-3"), Ok(Step::Scroll(-3))));
    assert!(matches!(parse_step("mouse: 4 , -2"), Ok(Step::Mouse(4, -2))));
    assert!(matches!(parse_step("mouse:4"), Err("bad_mouse")));
    assert!(matches!(parse_step("hold: right"), Ok(Step::Hold(Button::Right))));
    assert!(matches!(parse_step("release:left"), Ok(Step::Release(Button::Left))));
    assert!(matches!(parse_step("click:middle"), Ok(Step::Click(Button::Left))));
    assert!(matches!(parse_step("zoom:x"), Err("bad_zoom")));
    assert!(matches!(parse_step("hscroll:x"), Err("bad_scroll")));
    assert!(matches!(parse_step("run:calc"), Err("blocked_action")));
    assert!(matches!(parse_step("open:ms-settings:"), Err("blocked_action")));
    assert!(matches!(parse_step("open:ms-settings:display"), Err("blocked_action")));
    assert!(matches!(parse_step("open: shell:startup"), Err("blocked_action")));
    assert!(matches!(parse_step("open:notepad.exe"), Err("blocked_action")));
    match parse_step("open: https://example.com ") {
        Ok(Step::Open(t)) => assert_eq!(t, "https://example.com"),
        _ => panic!("a web address opens"),
    }
    match parse_step("type: hola >> ") {
        Ok(Step::Type(t)) => assert_eq!(t, " hola >> "),
        _ => panic!("type keeps its text"),
    }
    match parse_step("launch: notepad ") {
        Ok(Step::Launch(t)) => assert_eq!(t, "notepad"),
        _ => panic!("launch trims its id"),
    }
}

#[test]
fn a_chain_is_cut_at_every_double_arrow() {
    let plan = plan_action("ctrl+c>> wait:10 >>nope+x");
    assert_eq!(plan.len(), 3);
    assert!(matches!(plan[1], Ok(Step::Wait(10))));
    assert!(matches!(plan[2], Err("unknown_action")));
    let uia = plan_action("uia:Rotate>> Rotate 90 right");
    assert_eq!(uia.len(), 2);
    match &uia[1] {
        Ok(Step::Uia(name)) => assert_eq!(name, "Rotate 90 right"),
        _ => panic!("a uia chain presses controls by name"),
    }
}

#[test]
fn parsea_teclas() {
    assert!(parse_key("c").is_ok());
    assert!(parse_key("F4").is_ok());
    assert!(parse_key("enter").is_ok());
    assert!(parse_key("left").is_ok());
    assert!(parse_key("nope").is_err());
    for t in ["volup", "voldown", "volmute", "playpause", "nexttrack", "prevtrack"] {
        assert!(parse_key(t).is_ok(), "token multimedia {t}");
    }
}
