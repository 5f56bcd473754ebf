use vehicle_controller::curve::pair_curve_points;

#[test]
fn pairs_lists_of_equal_length() {
    let rpms: Vec<f32> = vec![1000.0, 3000.0, 6000.0];
    let torques: Vec<f32> = vec![150.0, 300.0, 250.0];
    let points = pair_curve_points(&rpms, &torques);
    assert_eq!(points, vec![(1000.0, 150.0), (3000.0, 300.0), (6000.0, 250.0)]);
}

#[test]
fn longer_list_is_cut_to_the_shorter() {
    let rpms: Vec<f32> = vec![1000.0, 3000.0, 6000.0];
    let torques: Vec<f32> = vec![150.0];
    assert_eq!(pair_curve_points(&rpms, &torques), vec![(1000.0, 150.0)]);
    assert_eq!(pair_curve_points(&torques, &rpms), vec![(150.0, 1000.0)]);
}

#[test]
fn empty_list_gives_no_point() {
    let rpms: Vec<f32> = vec![];
    let torques: Vec<f32> = vec![1.0, 2.0];
    assert!(pair_curve_points(&rpms, &torques).is_empty());
}
