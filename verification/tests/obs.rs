use kiboard::obs::{obs_action, obs_apply, obs_auth, obs_request_for, obs_scene_names, ObsMessage};
use kiboard::state::obs_state;

#[test]
fn maps_obs_actions() {
    assert_eq!(obs_request_for("record", "").unwrap().request_type, "ToggleRecord");
    assert_eq!(obs_request_for("stream", "").unwrap().request_type, "ToggleStream");
    assert_eq!(obs_request_for("replay", "").unwrap().request_type, "SaveReplayBuffer");
    let r = obs_request_for("scene:Gameplay", "").unwrap();
    assert_eq!(r.request_type, "SetCurrentProgramScene");
    assert_eq!(r.scene_name.as_deref(), Some("Gameplay"));
    let r = obs_request_for("mic", "Mic/Aux").unwrap();
    assert_eq!(r.request_type, "ToggleInputMute");
    assert_eq!(r.input_name.as_deref(), Some("Mic/Aux"));
    assert!(obs_request_for("mic", "").is_err());
    assert!(obs_request_for("scene:", "").is_err());
    assert!(obs_request_for("nope", "").is_err());
}

#[test]
fn mapea_acciones_obs() {
    assert_eq!(obs_request_for("record", "").unwrap().request_type, "ToggleRecord");
    assert_eq!(obs_request_for("stream", "").unwrap().request_type, "ToggleStream");
    assert_eq!(obs_request_for("replay", "").unwrap().request_type, "SaveReplayBuffer");
    let r = obs_request_for("scene:Gameplay", "").unwrap();
    assert_eq!(r.request_type, "SetCurrentProgramScene");
    assert_eq!(r.scene_name.as_deref(), Some("Gameplay"));
    let r = obs_request_for("mic", "Mic/Aux").unwrap();
    assert_eq!(r.request_type, "ToggleInputMute");
    assert_eq!(r.input_name.as_deref(), Some("Mic/Aux"));
    assert!(obs_request_for("mic", "").is_err());
    assert!(obs_request_for("scene:", "").is_err());
    assert!(obs_request_for("nope", "").is_err());
}

#[test]
fn an_action_needs_obs_to_be_connected() {
    let mut obs = obs_state();
    assert!(obs_action("record", &obs).is_err());
    obs.connected = true;
    assert_eq!(obs_action("record", &obs).unwrap().request_type, "ToggleRecord");
}

#[test]
fn the_auth_string_follows_the_obs_recipe() {
    // base64(sha256(base64(sha256(password + salt)) + challenge)), checked against an
    // independently computed value for these inputs.
    let a = obs_auth("supersecretpassword", "lM1GncleQOaCu9lT1yeUZhFYnqhsLLP1G5lAGo3ixaI=", "+IxH4CnCiqpX1rM9scsNynZzbOe4KhDeYcTNS3PDaeY=");
    assert_eq!(a, "1Ct943GAT+6YQUUX47Ia/ncufilbe6+oD6lY+5kaCu4=");
    assert_ne!(obs_auth("other", "lM1GncleQOaCu9lT1yeUZhFYnqhsLLP1G5lAGo3ixaI=", "+IxH4CnCiqpX1rM9scsNynZzbOe4KhDeYcTNS3PDaeY="), a);
}

#[test]
fn scene_names_skip_the_ones_without_a_name() {
    let scenes = Some(vec![Some("Intro".to_string()), None, Some("Outro".to_string())]);
    assert_eq!(obs_scene_names(&scenes), vec!["Outro".to_string(), "Intro".to_string()]);
    assert!(obs_scene_names(&None).is_empty());
}

#[test]
fn a_record_event_updates_the_state() {
    let mut st = obs_state();
    st.connected = true;
    let m = ObsMessage {
        op: Some(5),
        kind: Some("RecordStateChanged".into()),
        output_active: Some(true),
        input_name: None,
        input_muted: None,
        scene_name: None,
        scenes: None,
        current_program_scene_name: None,
        mics: Vec::new(),
        inputs: None,
    };
    let _ = obs_apply(&mut st, &m);
    assert!(st.recording);
}
