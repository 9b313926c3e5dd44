use kiboard::apps::{
    close, focus, launch, ranked_recent, running, seed_recent, touch_recent_id, touch_recent_window, App, Launch,
    RECENT_WINDOW_MS,
};

fn app(id: &str, name: &str) -> App {
    App {
        id: id.into(),
        name: name.into(),
        ..Default::default()
    }
}

#[test]
fn recent_apps_are_filtered_to_thirty_days_and_newest_first() {
    let now = 10 * RECENT_WINDOW_MS;
    let apps = vec![
        app("old", "Old"),
        app("yesterday", "Yesterday"),
        app("today-b", "Beta"),
        app("today-a", "Alpha"),
        app("never", "Never"),
    ];
    let values: Vec<(String, u64)> = vec![
        ("old".into(), now - RECENT_WINDOW_MS - 1),
        ("yesterday".into(), now - 24 * 60 * 60 * 1000),
        ("today-b".into(), now),
        ("today-a".into(), now),
    ];

    let ids: Vec<&str> = ranked_recent(&apps, &values, now)
        .into_iter()
        .map(|app| app.id.as_str())
        .collect();
    assert_eq!(ids, ["today-a", "today-b", "yesterday"]);
}

#[test]
fn known_folder_appid_matches_its_exe() {
    let id = r"{1AC14E77-02E7-4E5D-B744-2EB1AE5198B7}\cleanmgr.exe";
    assert!(kiboard::apps::matches(id, r"C:\WINDOWS\system32\cleanmgr.exe", ""));
    assert!(!kiboard::apps::matches(id, r"C:\WINDOWS\system32\notepad.exe", ""));
    assert!(!kiboard::apps::matches(id, "", ""));
}

#[test]
fn packaged_app_matches_by_package_family_when_the_window_has_no_aumid() {
    let notepad = "Microsoft.WindowsNotepad_8wekyb3d8bbwe!App";
    let win = r"C:\Program Files\WindowsApps\Microsoft.WindowsNotepad_11.2605.34.0_x64__8wekyb3d8bbwe\Notepad\Notepad.exe";
    assert!(
        kiboard::apps::matches(notepad, win, ""),
        "same package, no AUMID on the window"
    );

    let calc = "Microsoft.WindowsCalculator_8wekyb3d8bbwe!App";
    assert!(kiboard::apps::matches(
        calc,
        r"C:\Windows\System32\ApplicationFrameHost.exe",
        calc
    ));

    assert!(!kiboard::apps::matches(
        notepad,
        r"C:\Program Files\WindowsApps\Microsoft.WindowsCalculator_11.0_x64__8wekyb3d8bbwe\Calc.exe",
        ""
    ));
    assert!(!kiboard::apps::matches(notepad, r"C:\Windows\System32\notepad.exe", ""));

    let whats = "5319275A.WhatsAppDesktop_cv1g1gvanyjgm!App";
    assert!(kiboard::apps::matches(
        whats,
        r"C:\Program Files\WindowsApps\5319275A.WhatsAppDesktop_2.2629.100.0_x64__cv1g1gvanyjgm\WhatsApp.Root.exe",
        ""
    ));
}

#[test]
fn absolute_path_matches_regardless_of_case_or_folder() {
    let id = r"C:\Program Files\Foo\Foo.exe";
    assert!(kiboard::apps::matches(id, r"c:\program files\foo\FOO.EXE", ""));
    assert!(!kiboard::apps::matches(id, r"C:\Program Files\Bar\Bar.exe", ""));
    assert!(kiboard::apps::matches(
        "Chrome",
        r"C:\Program Files\Google\Chrome\Application\chrome.exe",
        ""
    ));
}

#[test]
fn packaged_app_matches_by_aumid_only() {
    let id = "Microsoft.WindowsCalculator_8wekyb3d8bbwe!App";
    let host = r"C:\WINDOWS\system32\ApplicationFrameHost.exe";
    assert!(kiboard::apps::matches(
        id,
        host,
        "Microsoft.WindowsCalculator_8wekyb3d8bbwe!App"
    ));
    assert!(kiboard::apps::matches(
        id,
        host,
        "microsoft.windowscalculator_8wekyb3d8bbwe!app"
    ));
    assert!(!kiboard::apps::matches(
        id,
        host,
        "Microsoft.WindowsCamera_8wekyb3d8bbwe!App"
    ));
    assert!(!kiboard::apps::matches(id, host, ""));
}

#[test]
fn aumid_never_falls_back_to_the_executable() {
    assert!(!kiboard::apps::matches("Foo.Bar_x!App", r"C:\a\Foo.Bar.exe", ""));
}

fn win(id: isize, exe: &str, aumid: &str) -> (isize, String, String) {
    (id, exe.to_string(), aumid.to_string())
}

#[test]
fn launch_focuses_a_running_instance_instead_of_starting_another() {
    let wins = vec![
        win(7, r"C:\Windows\notepad.exe", ""),
        win(9, r"C:\Program Files\Foo\Foo.exe", ""),
        win(11, r"C:\Program Files\Foo\foo.EXE", ""),
    ];
    assert_eq!(launch(r"C:\Program Files\Foo\Foo.exe", &wins), Launch::Focus(9));
    assert_eq!(launch(r"C:\Program Files\Bar\Bar.exe", &wins), Launch::Activate);
    assert_eq!(focus(r"C:\x\notepad.exe", &wins), Ok(7));
    assert_eq!(focus(r"C:\x\calc.exe", &wins), Err("not_running"));
    assert_eq!(close(r"C:\Program Files\Foo\Foo.exe", &wins), Ok(vec![9, 11]));
    assert_eq!(close(r"C:\x\calc.exe", &wins), Err("not_running"));
}

#[test]
fn running_answers_every_id_in_one_pass() {
    let wins = vec![
        (r"C:\Windows\notepad.exe".to_string(), String::new()),
        (
            r"C:\WINDOWS\system32\ApplicationFrameHost.exe".to_string(),
            "Microsoft.WindowsCalculator_8wekyb3d8bbwe!App".to_string(),
        ),
    ];
    let ids = vec![
        "notepad".to_string(),
        "Microsoft.WindowsCalculator_8wekyb3d8bbwe!App".to_string(),
        "Microsoft.WindowsCamera_8wekyb3d8bbwe!App".to_string(),
        String::new(),
    ];
    assert_eq!(running(&ids, &wins), vec![true, true, false, false]);
}

#[test]
fn touching_an_app_records_it_and_forgets_what_fell_out_of_the_month() {
    let now = 10 * RECENT_WINDOW_MS;
    let apps = vec![app("a", "A"), app(r"C:\x\b.exe", "B")];
    let mut values: Vec<(String, u64)> = vec![
        ("a".into(), now - 5),
        ("gone".into(), now - RECENT_WINDOW_MS - 1),
        ("kept".into(), now - 10),
    ];
    assert!(!touch_recent_id(&apps, &mut values, "unknown", now));
    assert_eq!(values.len(), 3);
    assert!(touch_recent_id(&apps, &mut values, "a", now));
    assert_eq!(values, vec![("kept".to_string(), now - 10), ("a".to_string(), now)]);
    assert!(touch_recent_window(&apps, &mut values, r"D:\tools\B.EXE", "", now + 1));
    assert_eq!(values.last(), Some(&(r"C:\x\b.exe".to_string(), now + 1)));
    assert!(!touch_recent_window(&apps, &mut values, r"D:\tools\c.exe", "", now + 2));
}

#[test]
fn the_history_is_seeded_from_the_platform_and_open_windows_at_start() {
    let now = 10 * RECENT_WINDOW_MS;
    let day = 24 * 60 * 60 * 1000;
    let apps = vec![
        App { last_opened: now - 3 * day, ..app("newer-on-platform", "A") },
        App { last_opened: now - 9 * day, ..app("older-on-platform", "B") },
        app("open-now", "C"),
        app("stale", "D"),
        App { last_opened: now - RECENT_WINDOW_MS - 1, ..app("too-old", "E") },
        app("future", "F"),
    ];
    let mut values: Vec<(String, u64)> = vec![
        ("newer-on-platform".into(), now - 5 * day),
        ("older-on-platform".into(), now - 2 * day),
        ("stale".into(), now - RECENT_WINDOW_MS - 1),
        ("future".into(), now + 2 * day),
    ];
    let open = vec![false, false, true, false, false, false];
    seed_recent(&apps, &mut values, &open, now);
    let get = |id: &str| values.iter().find(|(k, _)| k == id).map(|(_, v)| *v);
    assert_eq!(get("newer-on-platform"), Some(now - 3 * day));
    assert_eq!(get("older-on-platform"), Some(now - 2 * day));
    assert_eq!(get("open-now"), Some(now));
    assert_eq!(get("stale"), None);
    assert_eq!(get("too-old"), None);
    assert_eq!(get("future"), None);
    assert_eq!(values.len(), 3);
}

#[test]
fn a_window_touches_the_first_catalogue_entry_it_matches() {
    let now = 10 * RECENT_WINDOW_MS;
    let apps = vec![app(r"C:\one\tool.exe", "First"), app(r"C:\two\tool.exe", "Second")];
    let mut values: Vec<(String, u64)> = Vec::new();
    assert!(touch_recent_window(&apps, &mut values, r"D:\elsewhere\TOOL.exe", "", now));
    assert_eq!(values, vec![(r"C:\one\tool.exe".to_string(), now)]);
}
