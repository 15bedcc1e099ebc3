use pi_constellation_mapper::polyline::polyline_segments;

fn near(a: i32, b: i32) -> bool {
    (a - b).abs() < 10
}

#[test]
fn no_points_no_segments() {
    let v: Vec<Option<i32>> = vec![];
    assert_eq!(polyline_segments(&v, &near), vec![]);
}

#[test]
fn one_point_no_segments() {
    assert_eq!(polyline_segments(&vec![Some(1)], &near), vec![]);
}

#[test]
fn consecutive_present_points_are_joined() {
    let v = vec![Some(0), Some(5), Some(9)];
    assert_eq!(polyline_segments(&v, &near), vec![(0, 5), (5, 9)]);
}

#[test]
fn missing_points_break_the_line() {
    let v = vec![Some(0), None, Some(2), Some(3), None, None, Some(4)];
    assert_eq!(polyline_segments(&v, &near), vec![(2, 3)]);
}

#[test]
fn rejected_jumps_break_the_line() {
    let v = vec![Some(0), Some(50), Some(52), Some(1)];
    assert_eq!(polyline_segments(&v, &near), vec![(50, 52)]);
}
