use car_simulation::{Steering, Turn, TURNING_COUNT};

#[test]
fn new_wheel_is_centred() {
    let s = Steering::new();
    assert_eq!(s.angle(), 0);
    assert_eq!(s.turn(), Turn::Straight);
}

#[test]
fn left_steer_stops_at_lock() {
    let mut s = Steering::new();
    for expected in 1..=TURNING_COUNT {
        assert!(s.left_steer());
        assert_eq!(s.angle(), expected);
    }
    assert!(!s.left_steer());
    assert_eq!(s.angle(), 4);
    assert_eq!(s.turn(), Turn::Left);
}

#[test]
fn right_steer_stops_at_lock() {
    let mut s = Steering::new();
    for _ in 0..10 {
        s.right_steer();
    }
    assert_eq!(s.angle(), -4);
    assert!(!s.right_steer());
    assert_eq!(s.angle(), -4);
    assert_eq!(s.turn(), Turn::Right);
}

#[test]
fn right_undoes_left() {
    let mut s = Steering::new();
    s.left_steer();
    s.left_steer();
    assert_eq!(s.angle(), 2);
    assert!(s.right_steer());
    assert_eq!(s.angle(), 1);
    assert!(s.right_steer());
    assert_eq!(s.angle(), 0);
    assert_eq!(s.turn(), Turn::Straight);
}

#[test]
fn at_left_lock_right_does_not_undo_left() {
    let mut s = Steering::new();
    for _ in 0..4 {
        s.left_steer();
    }
    assert!(!s.left_steer());
    assert!(s.right_steer());
    assert_eq!(s.angle(), 3);
}

#[test]
fn one_notch_each_way_from_centre() {
    let mut l = Steering::new();
    l.left_steer();
    assert_eq!(l.turn(), Turn::Left);
    let mut r = Steering::new();
    r.right_steer();
    assert_eq!(r.turn(), Turn::Right);
    assert_eq!(r.angle(), -1);
}
