use kiboard::shell::pick_shell;

fn procs(v: &[(u32, u32, &str)]) -> Vec<(u32, u32, String)> {
    v.iter().map(|(a, b, c)| (*a, *b, c.to_string())).collect()
}

#[test]
fn wsl_nested_in_powershell_wins_by_depth() {
    let p = procs(&[
        (12656, 1, "windowsterminal.exe"),
        (20816, 12656, "openconsole.exe"),
        (12516, 12656, "powershell.exe"),
        (15792, 12516, "wsl.exe"),
        (14856, 15792, "wsl.exe"),
    ]);
    assert_eq!(pick_shell(&p, 12656, "Windows PowerShell"), Some("shell-bash"));
}

#[test]
fn two_tabs_break_tie_by_title() {
    let p = procs(&[
        (100, 1, "windowsterminal.exe"),
        (200, 100, "powershell.exe"),
        (300, 100, "wsl.exe"),
    ]);
    assert_eq!(pick_shell(&p, 100, "Windows PowerShell"), Some("shell-pwsh"));
    assert_eq!(pick_shell(&p, 100, "ricardo@DESKTOP: ~"), Some("shell-bash"));
    assert_eq!(pick_shell(&p, 100, "Ubuntu"), Some("shell-bash"));
    assert_eq!(pick_shell(&p, 100, "no hints here"), None);
}

#[test]
fn bare_console() {
    let p = procs(&[(500, 1, "cmd.exe")]);
    assert_eq!(pick_shell(&p, 500, ""), Some("shell-cmd"));
    let p2 = procs(&[(600, 1, "wsl.exe")]);
    assert_eq!(pick_shell(&p2, 600, ""), Some("shell-bash"));
    let p3 = procs(&[(700, 1, "notepad.exe")]);
    assert_eq!(pick_shell(&p3, 700, ""), None);
}

#[test]
fn a_cycle_in_the_process_list_does_not_loop() {
    let p = procs(&[(1, 2, "cmd.exe"), (2, 1, "pwsh.exe")]);
    assert_eq!(pick_shell(&p, 1, ""), Some("shell-pwsh"));
}
