use vehicle_controller::wheel_role::{wheel_axle_from_code, WheelAxle, WheelRole};

#[test]
fn axle_code_zero_is_front() {
    assert_eq!(wheel_axle_from_code(0), WheelAxle::Front);
}

#[test]
fn other_axle_codes_are_rear() {
    assert_eq!(wheel_axle_from_code(1), WheelAxle::Rear);
    assert_eq!(wheel_axle_from_code(2), WheelAxle::Rear);
    assert_eq!(wheel_axle_from_code(u32::MAX), WheelAxle::Rear);
}

#[test]
fn role_keeps_drive_and_steering() {
    let r = WheelRole::new(0, true, false);
    assert_eq!(r, WheelRole { axle: WheelAxle::Front, driven: true, steered: false });
    let r = WheelRole::new(5, false, true);
    assert_eq!(r, WheelRole { axle: WheelAxle::Rear, driven: false, steered: true });
}
