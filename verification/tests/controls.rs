use car_simulation::{drive_command, first_hit, Drive, Keys};

fn keys(up: bool, down: bool, left: bool, right: bool) -> Keys {
    Keys { up, down, left, right }
}

#[test]
fn key_order_up_down_left_right() {
    assert_eq!(drive_command(keys(true, true, true, true)), Drive::Forward);
    assert_eq!(drive_command(keys(false, true, true, true)), Drive::Backward);
    assert_eq!(drive_command(keys(false, false, true, true)), Drive::SteerLeft);
    assert_eq!(drive_command(keys(false, false, false, true)), Drive::SteerRight);
    assert_eq!(drive_command(keys(false, false, false, false)), Drive::Hold);
}

#[test]
fn first_hit_picks_earliest_button() {
    assert_eq!(first_hit(&[false, true, true]), Some(1));
    assert_eq!(first_hit(&[true, false, true]), Some(0));
    assert_eq!(first_hit(&[false, false, false]), None);
    assert_eq!(first_hit(&[]), None);
}

