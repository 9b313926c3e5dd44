use kiboard::state::{
    codex_fast_mode_pressed, codex_read_plan, codex_update, obs_state, service_tier_from_event,
    service_tier_is_fast, CodexSpeedCache, SettingsEvent,
};

#[test]
fn a_successful_speed_press_is_visible_before_codex_writes_its_event() {
    let mut cache = CodexSpeedCache::default();

    cache.fast = Some(true);
    cache.set_after_press(false);
    assert_eq!(cache.fast, Some(true));

    cache.fast = Some(false);
    cache.set_after_press(true);
    assert_eq!(cache.fast, Some(false));

    codex_fast_mode_pressed(&mut cache, false);
    assert_eq!(cache.fast, Some(true));
}

#[test]
fn codex_fast_state_only_reads_the_top_level_service_tier() {
    assert!(service_tier_is_fast(
        "model = \"gpt-5\"\nservice_tier = \"fast\"\n"
    ));
    assert!(service_tier_is_fast("service_tier = \"priority\"\n"));
    assert!(!service_tier_is_fast("service_tier = \"default\"\n"));
    assert!(!service_tier_is_fast("[plugin]\nservice_tier = \"fast\"\n"));
}

fn event(kind: Option<&str>, tier: Option<&str>) -> SettingsEvent {
    SettingsEvent {
        kind: kind.map(|s| s.to_string()),
        tier: tier.map(|s| s.to_string()),
    }
}

#[test]
fn codex_desktop_speed_comes_from_thread_settings_events() {
    let applied = Some("thread_settings_applied");
    assert_eq!(service_tier_from_event(&event(applied, Some("priority"))), Some(true));
    assert_eq!(service_tier_from_event(&event(applied, Some("fast"))), Some(true));
    assert_eq!(service_tier_from_event(&event(applied, Some("default"))), Some(false));
    assert_eq!(service_tier_from_event(&event(Some("other"), None)), None);
}

#[test]
fn the_poll_reads_only_what_the_session_log_gained() {
    let mut cache = CodexSpeedCache::default();
    assert_eq!(codex_read_plan(&cache, "a.jsonl", 100), Some(None));
    assert_eq!(codex_update(&mut cache, "a.jsonl".into(), 100, Some(true)), Some(true));
    assert_eq!(codex_read_plan(&cache, "a.jsonl", 100), None);
    assert_eq!(codex_read_plan(&cache, "a.jsonl", 150), Some(Some(99)));
    // The log grew without a settings event: the remembered speed stands.
    assert_eq!(codex_update(&mut cache, "a.jsonl".into(), 150, None), Some(true));
    // A shorter log is a new log, read whole, and what it says (nothing yet) replaces memory.
    assert_eq!(codex_read_plan(&cache, "a.jsonl", 10), Some(None));
    assert_eq!(codex_update(&mut cache, "a.jsonl".into(), 10, None), None);
    assert_eq!(codex_read_plan(&cache, "b.jsonl", 10), Some(None));
}

#[test]
fn obs_starts_disconnected() {
    let s = obs_state();
    assert!(!s.connected && !s.recording && s.scenes.is_empty());
}
