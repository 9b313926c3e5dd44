use kiboard::connection::{conn_start, conn_step, is_auth_attempt, is_layout_reply, ConnAction, ConnEvent};

fn failed_login() -> ConnEvent {
    ConnEvent::Answered { authed: false, manual: false, dragging: false, auth_attempt: true, layout_reply: false }
}

#[test]
fn five_failed_logins_close_the_connection() {
    let mut c = conn_start();
    for n in 1..5u32 {
        let (next, acts) = conn_step(&c, failed_login());
        assert_eq!(next.failed_auth, n);
        assert_eq!(acts, vec![ConnAction::Pause, ConnAction::Reply]);
        c = next;
    }
    let (next, acts) = conn_step(&c, failed_login());
    assert_eq!(next.failed_auth, 5);
    assert_eq!(acts, vec![ConnAction::Pause, ConnAction::Reply, ConnAction::Close]);
}

#[test]
fn a_session_that_authenticates_is_counted_and_sent_the_auto_layout() {
    let c = conn_start();
    let hello = ConnEvent::Answered { authed: true, manual: false, dragging: false, auth_attempt: true, layout_reply: false };
    let (c, acts) = conn_step(&c, hello);
    assert_eq!(acts, vec![ConnAction::Reply, ConnAction::CountClient, ConnAction::AutoLayout]);
    assert!(c.authed);
    let page = ConnEvent::Answered { authed: true, manual: false, dragging: false, auth_attempt: false, layout_reply: true };
    let (c, acts) = conn_step(&c, page);
    assert_eq!(acts, vec![ConnAction::Reply, ConnAction::Preloads]);
    assert_eq!(conn_step(&c, ConnEvent::Tick).1, vec![ConnAction::Ping]);
    assert_eq!(conn_step(&c, ConnEvent::LayoutChanged).1, vec![ConnAction::CurrentLayout]);
    assert!(conn_step(&c, ConnEvent::DecksChanged).1.is_empty());
}

#[test]
fn manual_sessions_follow_the_decks_and_unauthenticated_ones_get_nothing_pushed() {
    let c = conn_start();
    assert!(conn_step(&c, ConnEvent::Tick).1.is_empty());
    assert!(conn_step(&c, ConnEvent::LayoutChanged).1.is_empty());
    assert!(conn_step(&c, ConnEvent::DecksChanged).1.is_empty());
    let manual = ConnEvent::Answered { authed: true, manual: true, dragging: true, auth_attempt: true, layout_reply: true };
    let (c, _) = conn_step(&c, manual);
    assert_eq!(conn_step(&c, ConnEvent::DecksChanged).1, vec![ConnAction::CurrentLayout]);
    assert!(conn_step(&c, ConnEvent::LayoutChanged).1.is_empty());
    assert_eq!(conn_step(&c, ConnEvent::Ended).1, vec![ConnAction::ReleaseDrag, ConnAction::UncountClient]);
    assert!(conn_step(&conn_start(), ConnEvent::Ended).1.is_empty());
}

#[test]
fn what_counts_as_a_login_and_as_a_layout() {
    assert!(is_auth_attempt(r#"{"v":2,"type":"hello","deviceId":"x"}"#));
    assert!(is_auth_attempt(r#"{"type":"pair_confirm","code":"1"}"#));
    assert!(!is_auth_attempt(r#"{"type":"key","pos":1}"#));
    assert!(is_layout_reply(r#"{"v":2,"type":"layout","keys":[]}"#));
    assert!(!is_layout_reply(r#"{"v":2,"type":"key_result"}"#));
}
