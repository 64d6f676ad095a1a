use vstd::prelude::*;

verus! {

/// Which driving keys are held this frame (each action has a letter key and
/// an arrow/modifier alternative; either counts).
#[derive(Debug, Clone, Copy, PartialEq, Eq, Structural)]
pub struct DriverKeys {
    /// W or the up arrow.
    pub accelerate: bool,
    /// S or the down arrow.
    pub reverse: bool,
    /// Space.
    pub brake: bool,
    /// Either shift key.
    pub handbrake: bool,
    /// A or the left arrow.
    pub steer_left: bool,
    /// D or the right arrow.
    pub steer_right: bool,
}

/// The driver's commands for one frame.
#[derive(Debug, Clone, Copy, PartialEq, Eq, Structural)]
pub struct DriverInput {
    /// -1 (reverse), 0 or +1 (forward).
    pub throttle: i8,
    /// -1 (right), 0 or +1 (left): the direction the wheel is turned towards.
    pub steering: i8,
    pub braking: bool,
    /// The handbrake is on and the rear loses grip.
    pub drifting: bool,
}

/// 1 when a key is held, 0 otherwise.
pub open spec fn spec_held(b: bool) -> int {
    if b {
        1
    } else {
        0
    }
}

/// Turns held keys into driving commands: forward and reverse cancel each
/// other out, braking cuts the throttle, left and right cancel each other out.
pub fn read_driver_keys(keys: DriverKeys) -> (input: DriverInput)
    ensures
        input.throttle == (if keys.brake {
            0
        } else {
            spec_held(keys.accelerate) - spec_held(keys.reverse)
        }),
        input.steering == spec_held(keys.steer_left) - spec_held(keys.steer_right),
        input.braking == keys.brake,
        input.drifting == keys.handbrake,
        -1 <= input.throttle <= 1,
        -1 <= input.steering <= 1,
        keys.brake ==> input.throttle == 0,
        !keys.brake && keys.accelerate && !keys.reverse ==> input.throttle == 1,
        !keys.brake && !keys.accelerate && keys.reverse ==> input.throttle == -1,
        !keys.brake && keys.accelerate == keys.reverse ==> input.throttle == 0,
        keys.steer_left && !keys.steer_right ==> input.steering == 1,
        !keys.steer_left && keys.steer_right ==> input.steering == -1,
        keys.steer_left == keys.steer_right ==> input.steering == 0,
{
    let mut throttle: i8 = 0;
    let mut steering: i8 = 0;
    if keys.accelerate {
        throttle = throttle + 1;
    }
    if keys.reverse {
        throttle = throttle - 1;
    }
    if keys.brake {
        throttle = 0;
    }
    if keys.steer_left {
        steering = steering + 1;
    }
    if keys.steer_right {
        steering = steering - 1;
    }
    DriverInput { throttle, steering, braking: keys.brake, drifting: keys.handbrake }
}

} // verus!
