use vstd::prelude::*;

verus! {

/// How many notches the steering wheel can be turned to either side.
pub const TURNING_COUNT: i32 = 4;

/// Which way the car turns for a given steering position.
#[derive(Clone, Copy, Debug, PartialEq, Eq, Structural)]
pub enum Turn {
    /// Wheel centred: the car drives in a straight line (no turning circle).
    Straight,
    /// Wheel turned left: the turning circle lies left of the car.
    Left,
    /// Wheel turned right: the turning circle lies right of the car.
    Right,
}

/// The turning direction for a steering angle, in notches.
pub open spec fn turn_of(angle: int) -> Turn {
    if angle == 0 {
        Turn::Straight
    } else if angle > 0 {
        Turn::Left
    } else {
        Turn::Right
    }
}

/// The steering angle after one notch to the left.
pub open spec fn steer_left_spec(angle: int) -> int {
    if angle < TURNING_COUNT {
        angle + 1
    } else {
        angle
    }
}

/// The steering angle after one notch to the right.
pub open spec fn steer_right_spec(angle: int) -> int {
    if angle > -TURNING_COUNT {
        angle - 1
    } else {
        angle
    }
}

/// The steering wheel, in notches: positive turns left, negative turns right.
pub struct Steering {
    angle: i32,
}

impl View for Steering {
    type V = int;

    closed spec fn view(&self) -> int {
        self.angle as int
    }
}

impl Steering {
    #[verifier::type_invariant]
    spec fn within_lock(&self) -> bool {
        -TURNING_COUNT <= self.angle <= TURNING_COUNT
    }

    /// A centred steering wheel.
    pub fn new() -> (s: Steering)
        ensures
            s@ == 0,
    {
        Steering { angle: 0 }
    }

    /// The current steering angle, in notches.
    pub fn angle(&self) -> (a: i32)
        ensures
            a == self@,
            -TURNING_COUNT <= a <= TURNING_COUNT,
    {
        proof {
            use_type_invariant(self);
        }
        self.angle
    }

    /// Turns the wheel one notch to the left unless it is already at the
    /// left lock; tells whether it moved (the wheels then need re-steering).
    pub fn left_steer(&mut self) -> (moved: bool)
        ensures
            final(self)@ == steer_left_spec(old(self)@),
            moved == (old(self)@ < TURNING_COUNT),
    {
        proof {
            use_type_invariant(&*self);
        }
        if self.angle < TURNING_COUNT {
            self.angle = self.angle + 1;
            true
        } else {
            false
        }
    }

    /// Turns the wheel one notch to the right unless it is already at the
    /// right lock; tells whether it moved.
    pub fn right_steer(&mut self) -> (moved: bool)
        ensures
            final(self)@ == steer_right_spec(old(self)@),
            moved == (old(self)@ > -TURNING_COUNT),
    {
        proof {
            use_type_invariant(&*self);
        }
        if self.angle > -TURNING_COUNT {
            self.angle = self.angle - 1;
            true
        } else {
            false
        }
    }

    /// The turning direction: no turning circle exists for a centred wheel,
    /// a positive angle turns left and a negative one turns right.
    pub fn turn(&self) -> (t: Turn)
        ensures
            t == turn_of(self@),
            (t == Turn::Left) <==> self@ > 0,
            (t == Turn::Right) <==> self@ < 0,
            (t == Turn::Straight) <==> self@ == 0,
    {
        if self.angle == 0 {
            Turn::Straight
        } else if self.angle > 0 {
            Turn::Left
        } else {
            Turn::Right
        }
    }
}

/// The steering angle after `n` notches to the left.
pub open spec fn steer_left_times(angle: int, n: nat) -> int
    decreases n,
{
    if n == 0 {
        angle
    } else {
        steer_left_times(steer_left_spec(angle), (n - 1) as nat)
    }
}

/// The steering angle after `n` notches to the right.
pub open spec fn steer_right_times(angle: int, n: nat) -> int
    decreases n,
{
    if n == 0 {
        angle
    } else {
        steer_right_times(steer_right_spec(angle), (n - 1) as nat)
    }
}

/// Steering keeps the wheel between the two locks.
pub proof fn steering_stays_within_lock(angle: int)
    requires
        -TURNING_COUNT <= angle <= TURNING_COUNT,
    ensures
        -TURNING_COUNT <= steer_left_spec(angle) <= TURNING_COUNT,
        -TURNING_COUNT <= steer_right_spec(angle) <= TURNING_COUNT,
{
}

/// One notch right undoes one notch left, unless the wheel was at the left
/// lock; one notch left undoes one notch right, unless it was at the right lock.
pub proof fn steering_undo(angle: int)
    requires
        -TURNING_COUNT <= angle <= TURNING_COUNT,
    ensures
        angle < TURNING_COUNT ==> steer_right_spec(steer_left_spec(angle)) == angle,
        angle > -TURNING_COUNT ==> steer_left_spec(steer_right_spec(angle)) == angle,
{
}

/// Holding the wheel to the left `n` notches turns it `n` notches, up to the
/// left lock, where it stays; likewise to the right.
pub proof fn steering_saturates(angle: int, n: nat)
    requires
        -TURNING_COUNT <= angle <= TURNING_COUNT,
    ensures
        steer_left_times(angle, n) == if angle + n < TURNING_COUNT {
            angle + n
        } else {
            TURNING_COUNT as int
        },
        steer_right_times(angle, n) == if angle - n > -TURNING_COUNT {
            angle - n
        } else {
            -TURNING_COUNT
        },
    decreases n,
{
    if n > 0 {
        steering_saturates(steer_left_spec(angle), (n - 1) as nat);
        steering_saturates(steer_right_spec(angle), (n - 1) as nat);
    }
}

/// A centred wheel drives straight; one notch left of centre turns left and
/// one notch right turns right.
pub proof fn steering_from_centre()
    ensures
        turn_of(0) == Turn::Straight,
        turn_of(steer_left_spec(0)) == Turn::Left,
        turn_of(steer_right_spec(0)) == Turn::Right,
{
}

/// Which way the car turns follows the sign of the steering angle, at every
/// angle between the locks: any angle left of centre turns left, any angle
/// right of centre turns right, and only the centred wheel drives straight.
pub proof fn turn_follows_sign(angle: int)
    requires
        -TURNING_COUNT <= angle <= TURNING_COUNT,
    ensures
        (turn_of(angle) == Turn::Left) <==> 0 < angle,
        (turn_of(angle) == Turn::Right) <==> angle < 0,
        (turn_of(angle) == Turn::Straight) <==> angle == 0,
{
}

/// Mirroring the wheel mirrors the turn: the angle `-a` turns the other way
/// from `a`.
pub proof fn turn_mirrors(angle: int)
    requires
        0 < angle <= TURNING_COUNT,
    ensures
        turn_of(angle) == Turn::Left,
        turn_of(-angle) == Turn::Right,
{
}

} // verus!
