use vstd::prelude::*;

verus! {

/// The difficulty settings offered on the main menu.
#[derive(Debug, Clone, Copy, PartialEq, Eq, Structural)]
pub enum DifficultySetting {
    /// How hard the AI drivers push and block, in tenths.
    AiAggression,
    /// How fast the steering wheel turns, in tenths of a radian per second.
    SteeringSensitivity,
    /// The player's top speed.
    TopSpeed,
    /// The engine force.
    Acceleration,
    /// How many laps a race lasts.
    Laps,
}

/// The smallest value a setting can take.
pub open spec fn spec_min(setting: DifficultySetting) -> int {
    match setting {
        DifficultySetting::AiAggression => 2,
        DifficultySetting::SteeringSensitivity => 5,
        DifficultySetting::TopSpeed => 40,
        DifficultySetting::Acceleration => 50,
        DifficultySetting::Laps => 1,
    }
}

/// The largest value a setting can take.
pub open spec fn spec_max(setting: DifficultySetting) -> int {
    match setting {
        DifficultySetting::AiAggression => 30,
        DifficultySetting::SteeringSensitivity => 100,
        DifficultySetting::TopSpeed => 300,
        DifficultySetting::Acceleration => 2000,
        DifficultySetting::Laps => 10,
    }
}

/// How much one press of a menu button changes a setting.
pub open spec fn spec_step(setting: DifficultySetting) -> int {
    match setting {
        DifficultySetting::AiAggression => 2,
        DifficultySetting::SteeringSensitivity => 5,
        DifficultySetting::TopSpeed => 10,
        DifficultySetting::Acceleration => 50,
        DifficultySetting::Laps => 1,
    }
}

/// The value a setting has before the player changes it.
pub open spec fn spec_default(setting: DifficultySetting) -> int {
    match setting {
        DifficultySetting::AiAggression => 10,
        DifficultySetting::SteeringSensitivity => 30,
        DifficultySetting::TopSpeed => 120,
        DifficultySetting::Acceleration => 500,
        DifficultySetting::Laps => 3,
    }
}

/// A setting's value after one press of its increase (or decrease) button:
/// one step up (or down), held within the setting's range.
pub open spec fn spec_adjusted(setting: DifficultySetting, value: int, increase: bool) -> int {
    if increase {
        if value + spec_step(setting) > spec_max(setting) {
            spec_max(setting)
        } else {
            value + spec_step(setting)
        }
    } else {
        if value - spec_step(setting) < spec_min(setting) {
            spec_min(setting)
        } else {
            value - spec_step(setting)
        }
    }
}

/// The difficulty chosen on the main menu. It lasts across races.
pub struct Difficulty {
    ai_aggression_tenths: u32,
    steering_tenths: u32,
    top_speed: u32,
    acceleration: u32,
    laps: u32,
}

impl Difficulty {
    /// The current value of a setting.
    pub closed spec fn spec_value(&self, setting: DifficultySetting) -> int {
        match setting {
            DifficultySetting::AiAggression => self.ai_aggression_tenths as int,
            DifficultySetting::SteeringSensitivity => self.steering_tenths as int,
            DifficultySetting::TopSpeed => self.top_speed as int,
            DifficultySetting::Acceleration => self.acceleration as int,
            DifficultySetting::Laps => self.laps as int,
        }
    }

    /// Every setting lies within its range.
    #[verifier::type_invariant]
    closed spec fn in_range(&self) -> bool {
        &&& 2 <= self.ai_aggression_tenths <= 30
        &&& 5 <= self.steering_tenths <= 100
        &&& 40 <= self.top_speed <= 300
        &&& 50 <= self.acceleration <= 2000
        &&& 1 <= self.laps <= 10
    }

    /// The smallest value of a setting.
    pub fn min(setting: DifficultySetting) -> (v: u32)
        ensures
            v == spec_min(setting),
            setting == DifficultySetting::Laps ==> v == 1,
            setting == DifficultySetting::AiAggression ==> v == 2,
            setting == DifficultySetting::SteeringSensitivity ==> v == 5,
            setting == DifficultySetting::TopSpeed ==> v == 40,
            setting == DifficultySetting::Acceleration ==> v == 50,
    {
        match setting {
            DifficultySetting::AiAggression => 2,
            DifficultySetting::SteeringSensitivity => 5,
            DifficultySetting::TopSpeed => 40,
            DifficultySetting::Acceleration => 50,
            DifficultySetting::Laps => 1,
        }
    }

    /// The largest value of a setting.
    pub fn max(setting: DifficultySetting) -> (v: u32)
        ensures
            v == spec_max(setting),
            setting == DifficultySetting::Laps ==> v == 10,
            setting == DifficultySetting::AiAggression ==> v == 30,
            setting == DifficultySetting::SteeringSensitivity ==> v == 100,
            setting == DifficultySetting::TopSpeed ==> v == 300,
            setting == DifficultySetting::Acceleration ==> v == 2000,
    {
        match setting {
            DifficultySetting::AiAggression => 30,
            DifficultySetting::SteeringSensitivity => 100,
            DifficultySetting::TopSpeed => 300,
            DifficultySetting::Acceleration => 2000,
            DifficultySetting::Laps => 10,
        }
    }

    /// How much one button press changes a setting.
    pub fn step(setting: DifficultySetting) -> (v: u32)
        ensures
            v == spec_step(setting),
            setting == DifficultySetting::Laps ==> v == 1,
            setting == DifficultySetting::AiAggression ==> v == 2,
            setting == DifficultySetting::SteeringSensitivity ==> v == 5,
            setting == DifficultySetting::TopSpeed ==> v == 10,
            setting == DifficultySetting::Acceleration ==> v == 50,
    {
        match setting {
            DifficultySetting::AiAggression => 2,
            DifficultySetting::SteeringSensitivity => 5,
            DifficultySetting::TopSpeed => 10,
            DifficultySetting::Acceleration => 50,
            DifficultySetting::Laps => 1,
        }
    }

    /// The settings a new game starts with.
    pub fn new() -> (d: Difficulty)
        ensures
            forall|s: DifficultySetting| #[trigger] d.spec_value(s) == spec_default(s),
            d.spec_value(DifficultySetting::Laps) == 3,
            d.spec_value(DifficultySetting::AiAggression) == 10,
            d.spec_value(DifficultySetting::SteeringSensitivity) == 30,
            d.spec_value(DifficultySetting::TopSpeed) == 120,
            d.spec_value(DifficultySetting::Acceleration) == 500,
    {
        Difficulty {
            ai_aggression_tenths: 10,
            steering_tenths: 30,
            top_speed: 120,
            acceleration: 500,
            laps: 3,
        }
    }

    /// The current value of a setting; it always lies within its range.
    pub fn value(&self, setting: DifficultySetting) -> (v: u32)
        ensures
            v == self.spec_value(setting),
            spec_min(setting) <= v <= spec_max(setting),
    {
        proof {
            use_type_invariant(self);
        }
        match setting {
            DifficultySetting::AiAggression => self.ai_aggression_tenths,
            DifficultySetting::SteeringSensitivity => self.steering_tenths,
            DifficultySetting::TopSpeed => self.top_speed,
            DifficultySetting::Acceleration => self.acceleration,
            DifficultySetting::Laps => self.laps,
        }
    }

    /// One press of a setting's increase (or decrease) button: the setting
    /// moves one step, held within its range; the other settings stay.
    pub fn adjust(&mut self, setting: DifficultySetting, increase: bool)
        ensures
            final(self).spec_value(setting) == spec_adjusted(
                setting,
                old(self).spec_value(setting),
                increase,
            ),
            forall|s: DifficultySetting|
                s != setting ==> #[trigger] final(self).spec_value(s) == old(self).spec_value(s),
    {
        proof {
            use_type_invariant(&*self);
        }
        let v = self.value(setting);
        let step = Difficulty::step(setting);
        let lo = Difficulty::min(setting);
        let hi = Difficulty::max(setting);
        let nv = if increase {
            if v > hi - step {
                hi
            } else {
                v + step
            }
        } else {
            if v < lo + step {
                lo
            } else {
                v - step
            }
        };
        match setting {
            DifficultySetting::AiAggression => self.ai_aggression_tenths = nv,
            DifficultySetting::SteeringSensitivity => self.steering_tenths = nv,
            DifficultySetting::TopSpeed => self.top_speed = nv,
            DifficultySetting::Acceleration => self.acceleration = nv,
            DifficultySetting::Laps => self.laps = nv,
        }
    }
}

impl Default for Difficulty {
    fn default() -> (d: Difficulty)
        ensures
            forall|s: DifficultySetting| #[trigger] d.spec_value(s) == spec_default(s),
    {
        Difficulty::new()
    }
}

/// A button press never takes a setting out of its range.
pub proof fn lemma_adjust_stays_in_range(setting: DifficultySetting, value: int, increase: bool)
    requires
        spec_min(setting) <= value <= spec_max(setting),
    ensures
        spec_min(setting) <= spec_adjusted(setting, value, increase) <= spec_max(setting),
{
}

/// Pressing increase and then decrease gives back the value one started with,
/// unless the increase was held back by the top of the range.
pub proof fn lemma_increase_then_decrease(setting: DifficultySetting, value: int)
    requires
        spec_min(setting) <= value,
        value + spec_step(setting) <= spec_max(setting),
    ensures
        spec_adjusted(setting, spec_adjusted(setting, value, true), false) == value,
{
}

/// Pressing decrease and then increase gives back the value one started with,
/// unless the decrease was held back by the bottom of the range.
pub proof fn lemma_decrease_then_increase(setting: DifficultySetting, value: int)
    requires
        spec_min(setting) <= value - spec_step(setting),
        value <= spec_max(setting),
    ensures
        spec_adjusted(setting, spec_adjusted(setting, value, false), true) == value,
{
}

/// At the ends of a range the buttons stop: increasing the largest value and
/// decreasing the smallest change nothing.
pub proof fn lemma_range_ends_are_sticky(setting: DifficultySetting)
    ensures
        spec_adjusted(setting, spec_max(setting), true) == spec_max(setting),
        spec_adjusted(setting, spec_min(setting), false) == spec_min(setting),
{
}

/// The laps setting runs from 1 to 10 laps and each press of its buttons adds
/// or removes exactly one lap, stopping at the ends; a new game races 3 laps.
pub proof fn lemma_laps_setting(v: int)
    ensures
        1 <= v < 10 ==> spec_adjusted(DifficultySetting::Laps, v, true) == v + 1,
        1 < v <= 10 ==> spec_adjusted(DifficultySetting::Laps, v, false) == v - 1,
        spec_adjusted(DifficultySetting::Laps, 10, true) == 10,
        spec_adjusted(DifficultySetting::Laps, 1, false) == 1,
        spec_default(DifficultySetting::Laps) == 3,
{
}

/// AI aggression runs from 0.2 to 3.0 in steps of 0.2 (counted in tenths),
/// starting at 1.0.
pub proof fn lemma_ai_aggression_setting(v: int)
    ensures
        2 <= v && v + 2 <= 30 ==> spec_adjusted(DifficultySetting::AiAggression, v, true) == v + 2,
        2 <= v - 2 && v <= 30 ==> spec_adjusted(DifficultySetting::AiAggression, v, false) == v - 2,
        spec_adjusted(DifficultySetting::AiAggression, 30, true) == 30,
        spec_adjusted(DifficultySetting::AiAggression, 2, false) == 2,
        spec_default(DifficultySetting::AiAggression) == 10,
{
}

/// Steering sensitivity runs from 0.5 to 10.0 in steps of 0.5 (counted in
/// tenths), starting at 3.0.
pub proof fn lemma_steering_setting(v: int)
    ensures
        5 <= v && v + 5 <= 100 ==> spec_adjusted(DifficultySetting::SteeringSensitivity, v, true)
            == v + 5,
        5 <= v - 5 && v <= 100 ==> spec_adjusted(DifficultySetting::SteeringSensitivity, v, false)
            == v - 5,
        spec_adjusted(DifficultySetting::SteeringSensitivity, 100, true) == 100,
        spec_adjusted(DifficultySetting::SteeringSensitivity, 5, false) == 5,
        spec_default(DifficultySetting::SteeringSensitivity) == 30,
{
}

/// Top speed runs from 40 to 300 in steps of 10, starting at 120.
pub proof fn lemma_top_speed_setting(v: int)
    ensures
        40 <= v && v + 10 <= 300 ==> spec_adjusted(DifficultySetting::TopSpeed, v, true) == v + 10,
        40 <= v - 10 && v <= 300 ==> spec_adjusted(DifficultySetting::TopSpeed, v, false) == v - 10,
        spec_adjusted(DifficultySetting::TopSpeed, 300, true) == 300,
        spec_adjusted(DifficultySetting::TopSpeed, 40, false) == 40,
        spec_default(DifficultySetting::TopSpeed) == 120,
{
}

/// Acceleration runs from 50 to 2000 in steps of 50, starting at 500.
pub proof fn lemma_acceleration_setting(v: int)
    ensures
        50 <= v && v + 50 <= 2000 ==> spec_adjusted(DifficultySetting::Acceleration, v, true) == v
            + 50,
        50 <= v - 50 && v <= 2000 ==> spec_adjusted(DifficultySetting::Acceleration, v, false) == v
            - 50,
        spec_adjusted(DifficultySetting::Acceleration, 2000, true) == 2000,
        spec_adjusted(DifficultySetting::Acceleration, 50, false) == 50,
        spec_default(DifficultySetting::Acceleration) == 500,
{
}

} // verus!
