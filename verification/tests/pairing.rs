use kiboard::pairing::{
    authenticate, best_lan_ip, confirm, new_code, new_host_id, new_token, pending_status, pick_lan_address,
    qr_svg, revoke_device, start, svg_or_empty, Device, PendingPairing,
};

#[test]
fn codes_are_six_digits() {
    for _ in 0..50 {
        let c = new_code();
        assert_eq!(c.len(), 6, "code {c:?} isn't 6 chars");
        assert!(c.chars().all(|ch| ch.is_ascii_digit()), "code {c:?} has a non-digit");
    }
}

#[test]
fn tokens_and_host_ids_are_lower_case_hex() {
    let t = new_token();
    assert_eq!(t.len(), 32);
    assert!(t.chars().all(|c| c.is_ascii_digit() || ('a'..='f').contains(&c)));
    let h = new_host_id();
    assert_eq!(h.len(), 8);
    assert!(h.chars().all(|c| c.is_ascii_digit() || ('a'..='f').contains(&c)));
    assert_ne!(new_token(), new_token());
}

fn device(id: &str, name: &str, platform: &str, token: &str) -> Device {
    Device { device_id: id.into(), name: name.into(), platform: platform.into(), token: token.into(), last_seen: 0 }
}

#[test]
fn pairing_is_refused_while_closed() {
    let mut slot: Option<PendingPairing> = None;
    assert_eq!(start(&mut slot, false, "Pixel", "android", 1000).err(), Some("pairing_closed"));
    assert!(slot.is_none());
}

#[test]
fn a_right_code_pairs_once_and_replaces_the_same_phone() {
    let mut slot: Option<PendingPairing> = None;
    let mut devices = vec![device("old", "Pixel", "android", "t0"), device("other", "iPhone", "ios", "t1")];
    let (code, ttl) = start(&mut slot, true, "Pixel", "android", 1000).unwrap();
    assert_eq!(ttl, 120);
    let (who, shown, left) = pending_status(&mut slot, 1010).unwrap();
    assert_eq!((who.as_str(), shown.as_str(), left), ("Pixel", code.as_str(), 110));

    let d = confirm(&mut slot, &mut devices, &code, 1020).unwrap();
    assert_eq!(d.name, "Pixel");
    assert_eq!(d.platform, "android");
    assert_eq!(d.last_seen, 1020);
    assert_eq!(d.device_id.len(), 16);
    assert_eq!(d.token.len(), 32);
    assert_eq!(devices.len(), 2, "the earlier entry for this phone is replaced");
    assert_eq!(devices[0].device_id, "other");
    assert_eq!(devices[1].device_id, d.device_id);

    assert_eq!(confirm(&mut slot, &mut devices, &code, 1021).err(), Some("bad_code"), "single use");
    assert!(pending_status(&mut slot, 1021).is_none());
}

#[test]
fn an_expired_code_never_pairs() {
    let mut slot: Option<PendingPairing> = None;
    let mut devices = Vec::new();
    let (code, _) = start(&mut slot, true, "Pixel", "android", 1000).unwrap();
    assert_eq!(confirm(&mut slot, &mut devices, &code, 1121).err(), Some("bad_code"));
    assert!(slot.is_none());
    assert!(devices.is_empty());
}

#[test]
fn three_wrong_guesses_lock_out_for_five_minutes() {
    let mut slot: Option<PendingPairing> = None;
    let mut devices = Vec::new();
    let (code, _) = start(&mut slot, true, "Pixel", "android", 1000).unwrap();
    let wrong = if code == "000000" { "111111" } else { "000000" };
    for t in [1001, 1002, 1003] {
        assert_eq!(confirm(&mut slot, &mut devices, wrong, t).err(), Some("bad_code"));
    }
    assert_eq!(confirm(&mut slot, &mut devices, &code, 1004).err(), Some("rate_limited"));
    assert_eq!(start(&mut slot, true, "Pixel", "android", 1200).err(), Some("rate_limited"));
    assert!(start(&mut slot, true, "Pixel", "android", 1303).is_ok(), "the lockout ends");
}

#[test]
fn a_device_authenticates_with_its_own_token_only() {
    let mut devices = vec![device("a", "Pixel", "android", "ta"), device("b", "iPhone", "ios", "tb")];
    assert_eq!(authenticate(&mut devices, "zz", "ta", 5).err(), Some("revoked"));
    assert_eq!(authenticate(&mut devices, "a", "tb", 5).err(), Some("invalid_token"));
    assert_eq!(devices[0].last_seen, 0);
    assert!(authenticate(&mut devices, "a", "ta", 5).is_ok());
    assert_eq!(devices[0].last_seen, 5);
    assert_eq!(devices[1].last_seen, 0);

    revoke_device(&mut devices, "a");
    assert_eq!(devices.len(), 1);
    assert_eq!(authenticate(&mut devices, "a", "ta", 6).err(), Some("revoked"));
    assert!(authenticate(&mut devices, "b", "tb", 6).is_ok(), "everyone else keeps working");
}

#[test]
fn the_home_network_wins_over_virtual_adapters() {
    let addrs = [(127, 0, 0, 1), (172, 20, 0, 1), (169, 254, 3, 4), (10, 0, 0, 5), (192, 168, 1, 20), (192, 168, 224, 1)];
    assert_eq!(pick_lan_address(&addrs), Some(4));
    assert_eq!(best_lan_ip(&addrs), "192.168.1.20");
    assert_eq!(best_lan_ip(&[(172, 16, 0, 2), (10, 1, 2, 3)]), "10.1.2.3");
    assert_eq!(best_lan_ip(&[(127, 0, 0, 1), (169, 254, 0, 1)]), "127.0.0.1");
    assert_eq!(best_lan_ip(&[]), "127.0.0.1");
}

#[test]
fn a_pairing_qr_is_a_black_on_white_svg_of_at_least_220_pixels() {
    let svg = qr_svg("{\"ip\":\"192.168.1.20\",\"port\":8770}");
    assert!(svg.starts_with("<?xml"), "{svg}");
    assert!(svg.ends_with("</svg>"), "{svg}");
    assert!(svg.contains("fill=\"#000000\""));
    assert!(svg.contains("fill=\"#ffffff\""));
    let width: u32 = svg.split("width=\"").nth(1).unwrap().split('"').next().unwrap().parse().unwrap();
    assert!(width >= 220, "{width}");
    assert_ne!(qr_svg("a"), qr_svg("b"));
}

#[test]
fn data_too_long_for_any_qr_code_shows_nothing() {
    let long = "9".repeat(8000);
    assert_eq!(qr_svg(&long), "");
    assert_eq!(svg_or_empty(None), "");
    assert_eq!(svg_or_empty(Some("<svg/>".to_string())), "<svg/>");
}
