use kiboard::windows::{order, touch, Win};

fn w(id: isize) -> Win {
    Win {
        id,
        title: format!("t{id}"),
        exe: format!("C:\\a{id}.exe"),
        minimized: false,
    }
}

fn ids(v: &[Win]) -> Vec<isize> {
    v.iter().map(|x| x.id).collect()
}

#[test]
fn current_leads_then_most_recent() {
    let raw = vec![w(1), w(2), w(3), w(4)];
    // Used 3, then 2. 1 is in the foreground now; 4 was never touched.
    let out = order(raw, &[1, 3, 2], 1);
    assert_eq!(ids(&out), vec![1, 3, 2, 4]);
}

#[test]
fn untouched_windows_keep_z_order() {
    let out = order(vec![w(7), w(8), w(9)], &[], 0);
    assert_eq!(ids(&out), vec![7, 8, 9]);
}

#[test]
fn minimized_does_not_sink() {
    let mut raw = vec![w(1), w(2)];
    raw[1].minimized = true;
    let out = order(raw, &[2, 1], 0);
    assert_eq!(ids(&out), vec![2, 1]);
}

#[test]
fn closed_windows_in_the_mru_are_ignored() {
    let out = order(vec![w(1), w(2)], &[99, 2, 98, 1], 0);
    assert_eq!(ids(&out), vec![2, 1]);
}

#[test]
fn touch_moves_to_front_without_duplicating() {
    let mut list = vec![3, 2, 1];
    touch(&mut list, 1);
    touch(&mut list, 1);
    assert_eq!(list, vec![1, 3, 2]);
}

#[test]
fn touch_ignores_no_window_and_caps_the_list() {
    let mut list: Vec<isize> = (1..=64).collect();
    touch(&mut list, 0);
    assert_eq!(list.len(), 64);
    assert_eq!(list[0], 1);
    touch(&mut list, 100);
    assert_eq!(list.len(), 64);
    assert_eq!(list[0], 100);
    assert_eq!(list[63], 63);
}

#[test]
fn a_window_the_list_names_twice_is_ranked_by_its_first_entry() {
    let out = order(vec![w(1), w(2), w(3)], &[3, 1, 3], 0);
    assert_eq!(ids(&out), vec![3, 1, 2]);
}
