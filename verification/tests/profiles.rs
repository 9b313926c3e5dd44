use kiboard::actions::choose_action;
use kiboard::config::{Button, Profile};
use kiboard::layout::pick_profile;
use kiboard::profiles::default_profiles;

/// The profile an app and window title get, with no shell or OBS context.
fn profile_for(profiles: &Vec<Profile>, app: &str, title: &str) -> String {
    match pick_profile(profiles, app, title, None, false) {
        Some(i) => profiles[i].id.clone(),
        None => "empty".into(),
    }
}

#[test]
fn gmail_wins_over_chrome_and_explains_its_required_shortcuts() {
    let profiles = default_profiles();
    assert_eq!(profile_for(&profiles, "chrome", "Inbox - user@gmail.com - Gmail - Google Chrome"), "gmail");

    let gmail = profiles.iter().find(|p| p.id == "gmail").unwrap();
    let setup = gmail
        .buttons
        .iter()
        .find(|button| button.label == "Atajos Gmail")
        .expect("Gmail's letter shortcuts ship disabled and need an in-deck setup path");
    assert!(setup.recommended, "setup must be visible on the first page");
    assert_eq!(
        setup.action,
        "picker:Activar atajos=?>>tab>>enter;Abrir configuración=open:https://mail.google.com/mail/u/0/#settings/general;Ver estado=?"
    );
    assert_eq!(
        choose_action(&setup.action, Some(0), None).as_deref(),
        Some("?>>tab>>enter"),
        "the question mark must remain the first complete macro step"
    );
    assert_eq!(
        choose_action(&setup.action, Some(1), None).as_deref(),
        Some("open:https://mail.google.com/mail/u/0/#settings/general"),
        "Gmail settings are the keyboard-independent fallback"
    );
}

#[test]
fn ai_agents_have_separate_boards_without_frozen_provider_models() {
    let profiles = default_profiles();
    assert!(
        profiles
            .iter()
            .flat_map(|profile| &profile.buttons)
            .all(|button| !button.action.eq_ignore_ascii_case("alt+F4")),
        "closing the foreground app belongs to its reserved panel, not a profile key"
    );
    let expected_core = [
        (
            "codex-cli",
            [
                "Modelo",
                "Aprobaciones",
                "Compactar",
                "Nuevo chat",
                "Copiar",
                "Pegar",
                "Aceptar",
                "Rechazar",
            ],
        ),
        (
            "gemini-cli",
            [
                "Modelo", "Agentes", "MCP", "Limpiar", "Copiar", "Pegar", "Aceptar", "Rechazar",
            ],
        ),
        (
            "aider",
            [
                "Modelo",
                "Esfuerzo",
                "Arquitecto",
                "Código",
                "Deshacer",
                "Diferencias",
                "Aceptar",
                "Rechazar",
            ],
        ),
        (
            "codex-desktop",
            [
                "Modelo",
                "Esfuerzo -",
                "Esfuerzo +",
                "Velocidad",
                "Deshacer",
                "Revisar",
                "Aceptar",
                "Rechazar",
            ],
        ),
        (
            "lm-studio",
            [
                "",
                "",
                "Dictar",
                "Nueva línea",
                "Copiar",
                "Pegar",
                "Enviar",
                "Detener",
            ],
        ),
    ];
    for (id, slots) in expected_core {
        let profile = profiles
            .iter()
            .find(|p| p.id == id)
            .unwrap_or_else(|| panic!("missing AI board {id}"));
        let recommended: Vec<&Button> = profile
            .buttons
            .iter()
            .filter(|button| button.recommended)
            .collect();
        assert_eq!(
            recommended.len(),
            12,
            "{id} must fill the shared eight-slot core plus four arrows"
        );
        assert_eq!(
            recommended[..8]
                .iter()
                .map(|button| button.label.as_str())
                .collect::<Vec<_>>(),
            slots,
            "{id} drifted from the shared AI-board slot map"
        );
        assert_eq!(
            recommended[8..]
                .iter()
                .map(|button| button.action.as_str())
                .collect::<Vec<_>>(),
            ["up", "down", "left", "right"],
            "{id} must end in the same four-direction block"
        );
    }
    assert!(
        !profiles.iter().any(|p| p.id == "ai"),
        "the old mixed board must stay gone"
    );

    let codex = profiles.iter().find(|p| p.id == "codex-desktop").unwrap();
    let actions: Vec<&str> = codex.buttons.iter().map(|b| b.action.as_str()).collect();
    assert_eq!(codex.buttons.len(), 18);
    for action in [
        "enter",
        "esc",
        "ctrl+shift+m",
        "ctrl+alt+shift+i",
        "ctrl+alt+shift+k",
        "ctrl+alt+shift+f",
        "ctrl+z",
        "ctrl+shift+g",
        "tab",
        "shift+tab",
        "up",
        "down",
        "left",
        "right",
    ] {
        assert!(
            actions.contains(&action),
            "Codex Desktop is missing {action}"
        );
    }
    assert!(!actions.contains(&"alt+F4"));
}

#[test]
fn profile_by_shell_from_title() {
    let profiles = default_profiles();
    assert_eq!(profile_for(&profiles, "WindowsTerminal", "Windows PowerShell"), "shell-pwsh");
    assert_eq!(profile_for(&profiles, "cmd", r"C:\WINDOWS\system32\cmd.exe"), "shell-cmd");
    assert_eq!(profile_for(&profiles, "wsl", r"C:\WINDOWS\system32\wsl.exe"), "shell-bash");
    assert_eq!(profile_for(&profiles, "WindowsTerminal", "Ubuntu"), "shell-bash");
    assert_eq!(profile_for(&profiles, "WindowsTerminal", "ricardo@DESKTOP: ~"), "terminal");
    assert_eq!(profile_for(&profiles, "WindowsTerminal", ""), "terminal");
}

#[test]
fn an_unknown_app_gets_the_fallback_profile() {
    let profiles = default_profiles();
    assert_eq!(profiles.len(), 110);
    let fallback = profiles.iter().find(|p| p.matches.is_empty()).expect("a fallback");
    assert_eq!(profile_for(&profiles, "someunknownapp", "Untitled"), fallback.id);
    assert_eq!(profile_for(&Vec::new(), "someunknownapp", "Untitled"), "empty");
}
