use car_simulation::{FrameOutcome, Keys, Motion, Scene, Simulation, MENU_LEN};

fn keys(up: bool, down: bool, left: bool, right: bool) -> Keys {
    Keys { up, down, left, right }
}

fn none() -> Keys {
    keys(false, false, false, false)
}

#[test]
fn starts_parallel_parking_centred() {
    let s = Simulation::new();
    assert_eq!(s.scene(), Scene::ParallelParking);
    assert_eq!(s.steering().angle(), 0);
}

#[test]
fn menu_order_and_labels() {
    assert_eq!(MENU_LEN, 3);
    assert_eq!(Scene::from_button(0), Scene::BackParking);
    assert_eq!(Scene::from_button(1), Scene::ParallelParking);
    assert_eq!(Scene::from_button(2), Scene::RightAngleTurn);
    assert_eq!(Scene::BackParking.label(), "倒车入库");
    assert_eq!(Scene::ParallelParking.label(), "侧方停车");
    assert_eq!(Scene::RightAngleTurn.label(), "直角转弯");
}

#[test]
fn click_switches_scene_and_centres_wheel() {
    let mut s = Simulation::new();
    s.frame(false, &[], keys(false, false, true, false));
    s.frame(false, &[], keys(false, false, true, false));
    assert_eq!(s.steering().angle(), 2);
    let o = s.frame(true, &[false, false, true], none());
    assert_eq!(o, FrameOutcome { pressed: Some(2), motion: Motion::Still });
    assert_eq!(s.scene(), Scene::RightAngleTurn);
    assert_eq!(s.steering().angle(), 0);
}

#[test]
fn click_on_current_scene_still_places_new_car() {
    let mut s = Simulation::new();
    s.frame(false, &[], keys(false, false, false, true));
    assert_eq!(s.steering().angle(), -1);
    let o = s.frame(true, &[false, true, false], none());
    assert_eq!(o.pressed, Some(1));
    assert_eq!(s.scene(), Scene::ParallelParking);
    assert_eq!(s.steering().angle(), 0);
}

#[test]
fn overlapping_buttons_first_wins() {
    let mut s = Simulation::new();
    let o = s.frame(true, &[true, true, false], none());
    assert_eq!(o.pressed, Some(0));
    assert_eq!(s.scene(), Scene::BackParking);
}

#[test]
fn click_outside_buttons_keeps_state() {
    let mut s = Simulation::new();
    s.frame(false, &[], keys(false, false, true, false));
    let o = s.frame(true, &[false, false, false], keys(true, false, false, false));
    assert_eq!(o, FrameOutcome { pressed: None, motion: Motion::Forward });
    assert_eq!(s.scene(), Scene::ParallelParking);
    assert_eq!(s.steering().angle(), 1);
}

#[test]
fn hits_ignored_without_click() {
    let mut s = Simulation::new();
    let o = s.frame(false, &[true, true, true], keys(false, true, false, false));
    assert_eq!(o, FrameOutcome { pressed: None, motion: Motion::Backward });
    assert_eq!(s.scene(), Scene::ParallelParking);
}

#[test]
fn steering_asks_resteer_only_when_moved() {
    let mut s = Simulation::new();
    for _ in 0..4 {
        assert_eq!(s.frame(false, &[], keys(false, false, true, false)).motion, Motion::Resteer);
    }
    assert_eq!(s.frame(false, &[], keys(false, false, true, false)).motion, Motion::Still);
    assert_eq!(s.steering().angle(), 4);
    assert_eq!(s.frame(false, &[], keys(false, false, false, true)).motion, Motion::Resteer);
    assert_eq!(s.steering().angle(), 3);
}

#[test]
fn click_then_key_acts_on_new_car() {
    let mut s = Simulation::new();
    for _ in 0..4 {
        s.frame(false, &[], keys(false, false, true, false));
    }
    let o = s.frame(true, &[true, false, false], keys(false, false, true, false));
    assert_eq!(o, FrameOutcome { pressed: Some(0), motion: Motion::Resteer });
    assert_eq!(s.steering().angle(), 1);
}

#[test]
fn idle_frame_changes_nothing() {
    let mut s = Simulation::new();
    let o = s.frame(false, &[], none());
    assert_eq!(o, FrameOutcome { pressed: None, motion: Motion::Still });
    assert_eq!(s.scene(), Scene::ParallelParking);
    assert_eq!(s.steering().angle(), 0);
}
