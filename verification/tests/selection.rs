use pi_constellation_mapper::selection::{select_tapped_star, selected_entry, TapCandidate};

fn c(index: usize, within_reach: bool, distance_key: u32) -> TapCandidate {
    TapCandidate { index, within_reach, distance_key }
}

#[test]
fn tap_with_no_stars_selects_nothing() {
    assert_eq!(select_tapped_star(&vec![]), None);
}

#[test]
fn tap_far_from_every_star_selects_nothing() {
    let v = vec![c(0, false, 5), c(1, false, 1)];
    assert_eq!(select_tapped_star(&v), None);
}

#[test]
fn tap_selects_closest_star_within_reach() {
    let v = vec![c(7, true, 10), c(3, false, 1), c(5, true, 4), c(2, true, 6)];
    assert_eq!(select_tapped_star(&v), Some(5));
}

#[test]
fn tap_prefers_first_of_equally_close_stars() {
    let v = vec![c(7, true, 10), c(5, true, 4), c(9, true, 4)];
    assert_eq!(select_tapped_star(&v), Some(5));
}

#[test]
fn tap_key_order_follows_float_distance_order() {
    // Keys made from non-negative distances keep the distances' order.
    let d = [3.5f32, 0.25, 24.0, 0.0];
    let v: Vec<TapCandidate> =
        d.iter().enumerate().map(|(i, x)| c(i + 10, *x <= 24.0, x.to_bits())).collect();
    assert_eq!(select_tapped_star(&v), Some(13));
}

#[test]
fn no_selection_has_no_entry() {
    assert_eq!(selected_entry(None, &vec![1, 2, 3]), None);
}

#[test]
fn selected_star_found_at_first_position() {
    assert_eq!(selected_entry(Some(8), &vec![4, 8, 8]), Some(1));
    assert_eq!(selected_entry(Some(4), &vec![4, 8, 8]), Some(0));
}

#[test]
fn selected_star_not_drawn_has_no_entry() {
    assert_eq!(selected_entry(Some(6), &vec![4, 8, 8]), None);
    assert_eq!(selected_entry(Some(6), &vec![]), None);
}
