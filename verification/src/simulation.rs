use vstd::prelude::*;

use crate::controls::{drive_command, drive_of, first_hit, first_hit_spec, Drive, Keys};
use crate::steering::{steer_left_spec, steer_right_spec, Steering, TURNING_COUNT};

verus! {

/// The driving exercises, each one a map with its own start position.
#[derive(Clone, Copy, Debug, PartialEq, Eq, Structural)]
pub enum Scene {
    /// Reversing into a parking bay.
    BackParking,
    /// Parallel parking along the road.
    ParallelParking,
    /// Driving round a right-angle bend.
    RightAngleTurn,
}

/// The number of buttons in the menu, one per scene.
pub const MENU_LEN: usize = 3;

/// The scene of the `i`-th menu button, top to bottom.
pub open spec fn menu_scene(i: int) -> Scene {
    if i == 0 {
        Scene::BackParking
    } else if i == 1 {
        Scene::ParallelParking
    } else {
        Scene::RightAngleTurn
    }
}

impl Scene {
    /// The scene of the `i`-th menu button, top to bottom.
    pub fn from_button(i: usize) -> (s: Scene)
        requires
            i < MENU_LEN,
        ensures
            s == menu_scene(i as int),
    {
        if i == 0 {
            Scene::BackParking
        } else if i == 1 {
            Scene::ParallelParking
        } else {
            Scene::RightAngleTurn
        }
    }

    /// The text on the scene's menu button.
    pub fn label(&self) -> (l: &'static str)
        ensures
            l@ == match *self {
                Scene::BackParking => "倒车入库"@,
                Scene::ParallelParking => "侧方停车"@,
                Scene::RightAngleTurn => "直角转弯"@,
            },
    {
        match self {
            Scene::BackParking => "倒车入库",
            Scene::ParallelParking => "侧方停车",
            Scene::RightAngleTurn => "直角转弯",
        }
    }
}

/// The geometry work a frame asks of the car.
#[derive(Clone, Copy, Debug, PartialEq, Eq, Structural)]
pub enum Motion {
    /// Drive one step forwards along the current turning circle.
    Forward,
    /// Drive one step backwards along the current turning circle.
    Backward,
    /// The steering angle changed: turn the front wheels to it.
    Resteer,
    /// Nothing to do.
    Still,
}

/// What one frame of the simulation did.
#[derive(Clone, Copy, Debug, PartialEq, Eq, Structural)]
pub struct FrameOutcome {
    /// The menu button that was clicked: the map is replaced by its scene and
    /// a new car, with a centred steering wheel, is placed in it.
    pub pressed: Option<usize>,
    /// What the car (the new one, if a button was clicked) does.
    pub motion: Motion,
}

/// The button a frame selects: the first that holds the pointer, on a click.
pub open spec fn pressed_of(mouse_down: bool, hits: Seq<bool>) -> Option<int> {
    if mouse_down {
        first_hit_spec(hits)
    } else {
        None
    }
}

/// The steering angle after a drive command.
pub open spec fn angle_after(angle: int, drive: Drive) -> int {
    match drive {
        Drive::SteerLeft => steer_left_spec(angle),
        Drive::SteerRight => steer_right_spec(angle),
        _ => angle,
    }
}

/// The work a drive command asks of the car at a steering angle: steering
/// asks for the wheels to be turned only when the angle changes.
pub open spec fn motion_of(angle: int, drive: Drive) -> Motion {
    match drive {
        Drive::Forward => Motion::Forward,
        Drive::Backward => Motion::Backward,
        Drive::SteerLeft => if angle < TURNING_COUNT {
            Motion::Resteer
        } else {
            Motion::Still
        },
        Drive::SteerRight => if angle > -TURNING_COUNT {
            Motion::Resteer
        } else {
            Motion::Still
        },
        Drive::Hold => Motion::Still,
    }
}

/// The scene and steering angle after a frame's click.
pub open spec fn after_click(state: (Scene, int), pressed: Option<int>) -> (Scene, int) {
    match pressed {
        Some(i) => (menu_scene(i), 0),
        None => state,
    }
}

/// The state of the simulator that is not geometry: the scene on screen
/// and the car's steering wheel.
pub struct Simulation {
    scene: Scene,
    steering: Steering,
}

impl View for Simulation {
    type V = (Scene, int);

    closed spec fn view(&self) -> (Scene, int) {
        (self.scene, self.steering@)
    }
}

impl Simulation {
    /// The simulator as it starts: parallel parking, with a centred wheel.
    pub fn new() -> (s: Simulation)
        ensures
            s@ == (Scene::ParallelParking, 0int),
    {
        Simulation { scene: Scene::ParallelParking, steering: Steering::new() }
    }

    /// The scene on screen.
    pub fn scene(&self) -> (s: Scene)
        ensures
            s == self@.0,
    {
        self.scene
    }

    /// The car's steering wheel.
    pub fn steering(&self) -> (w: &Steering)
        ensures
            w@ == self@.1,
    {
        &self.steering
    }

    /// Runs the decisions of one frame. A click (`mouse_down`) over a menu
    /// button (`hits[i]`: the pointer is within button `i`) switches to that
    /// button's scene with a new car; then the held keys drive the car.
    pub fn frame(&mut self, mouse_down: bool, hits: &[bool], keys: Keys) -> (o: FrameOutcome)
        requires
            hits@.len() == MENU_LEN || !mouse_down,
        ensures
            match o.pressed {
                Some(i) => pressed_of(mouse_down, hits@) == Some(i as int),
                None => pressed_of(mouse_down, hits@) is None,
            },
            ({
                let (scene, angle) = after_click(old(self)@, pressed_of(mouse_down, hits@));
                &&& final(self)@ == (scene, angle_after(angle, drive_of(keys)))
                &&& o.motion == motion_of(angle, drive_of(keys))
            }),
            keys.up ==> o.motion == Motion::Forward,
            !keys.up && keys.down ==> o.motion == Motion::Backward,
            !keys.up && !keys.down && !keys.left && !keys.right ==> o.motion == Motion::Still,
    {
        let pressed = if mouse_down {
            first_hit(hits)
        } else {
            None
        };
        match pressed {
            Some(i) => {
                self.scene = Scene::from_button(i);
                self.steering = Steering::new();
            },
            None => {},
        }
        let motion = match drive_command(keys) {
            Drive::Forward => Motion::Forward,
            Drive::Backward => Motion::Backward,
            Drive::SteerLeft => if self.steering.left_steer() {
                Motion::Resteer
            } else {
                Motion::Still
            },
            Drive::SteerRight => if self.steering.right_steer() {
                Motion::Resteer
            } else {
                Motion::Still
            },
            Drive::Hold => Motion::Still,
        };
        FrameOutcome { pressed, motion }
    }
}

/// A click on a menu button always starts its scene with a centred wheel,
/// whatever the state before, before the frame's keys act.
pub proof fn click_starts_scene(state: (Scene, int), i: int)
    requires
        0 <= i < MENU_LEN,
    ensures
        after_click(state, Some(i)) == (menu_scene(i), 0int),
{
}

/// A frame with no click over a button and no key held leaves the state as
/// it was and asks nothing of the car.
pub proof fn idle_frame_changes_nothing(state: (Scene, int), keys: Keys)
    requires
        !keys.up && !keys.down && !keys.left && !keys.right,
    ensures
        ({
            let (scene, angle) = after_click(state, None);
            (scene, angle_after(angle, drive_of(keys))) == state && motion_of(angle, drive_of(keys))
                == Motion::Still
        }),
{
}

/// Each menu button starts a different scene, and every scene has a button.
pub proof fn menu_covers_scenes(s: Scene)
    ensures
        exists|i: int| 0 <= i < MENU_LEN && menu_scene(i) == s,
        forall|i: int, j: int|
            0 <= i < MENU_LEN && 0 <= j < MENU_LEN && menu_scene(i) == menu_scene(j) ==> i == j,
{
    match s {
        Scene::BackParking => assert(menu_scene(0) == s),
        Scene::ParallelParking => assert(menu_scene(1) == s),
        Scene::RightAngleTurn => assert(menu_scene(2) == s),
    }
}

/// Driving never depends on the steering wheel: at every angle between the
/// locks, the forward command drives forwards and the backward command drives
/// backwards (straight ahead for a centred wheel, round the turning circle
/// otherwise), and neither moves the wheel; holding no key does nothing.
pub proof fn driving_moves_at_every_angle(angle: int)
    requires
        -TURNING_COUNT <= angle <= TURNING_COUNT,
    ensures
        motion_of(angle, Drive::Forward) == Motion::Forward,
        motion_of(angle, Drive::Backward) == Motion::Backward,
        angle_after(angle, Drive::Forward) == angle,
        angle_after(angle, Drive::Backward) == angle,
        motion_of(angle, Drive::Hold) == Motion::Still,
        angle_after(angle, Drive::Hold) == angle,
{
}

/// Steering asks for the wheels to be turned exactly when it moves the
/// steering wheel, and then by one notch in the key's direction.
pub proof fn steering_resteers_when_moved(angle: int)
    requires
        -TURNING_COUNT <= angle <= TURNING_COUNT,
    ensures
        (motion_of(angle, Drive::SteerLeft) == Motion::Resteer) <==> angle_after(angle, Drive::SteerLeft)
            != angle,
        (motion_of(angle, Drive::SteerRight) == Motion::Resteer) <==> angle_after(angle, Drive::SteerRight)
            != angle,
        motion_of(angle, Drive::SteerLeft) == Motion::Resteer ==> angle_after(angle, Drive::SteerLeft)
            == angle + 1,
        motion_of(angle, Drive::SteerRight) == Motion::Resteer ==> angle_after(angle, Drive::SteerRight)
            == angle - 1,
        motion_of(angle, Drive::SteerLeft) != Motion::Forward && motion_of(angle, Drive::SteerLeft)
            != Motion::Backward,
        motion_of(angle, Drive::SteerRight) != Motion::Forward && motion_of(angle, Drive::SteerRight)
            != Motion::Backward,
{
}

} // verus!
