//! The human control source: keyboard flags, the three-state steering
//! intent with its exact key-combination transition table, the steer
//! relaxation law, and the run-length recording of the drive states.

use vstd::prelude::*;

verus! {

use crate::car::CarComponent;
use crate::fx::{SCALE, clamp_s, fx_add_s, fx_sub_s, fx_mul_s, fx_add, fx_sub, fx_mul, fx_clamp, fx_min, fx_max};

/// The keys the simulation reacts to.
#[derive(Clone, Copy, Debug, PartialEq, Eq, Structural)]
pub enum Key {
    W,
    S,
    A,
    D,
    R,
    P,
    T,
    Y,
    LBracket,
    RBracket,
}

/// The three-state steering intent.
#[derive(Clone, Copy, Debug, PartialEq, Eq, Structural)]
pub enum Steering {
    Left,
    Right,
    Neutral,
}

/// What the driver asks the surrounding program to do after a key event.
#[derive(Clone, Copy, Debug, PartialEq, Eq, Structural)]
pub enum DriverAction {
    Nothing,
    SaveRecording,
}

/// One recorded control state: the control triple and how many further
/// frames it was held beyond the first.
#[derive(Clone, Copy, Debug)]
pub struct CarDriveState {
    pub brake: i64,
    pub throttle: i64,
    pub steer: i64,
    pub update_id: usize,
}

/// Recorded states are compared by their control triple alone; the repeat
/// count does not enter.
pub open spec fn triple_eq_s(a: CarDriveState, b: CarDriveState) -> bool {
    a.brake == b.brake && a.throttle == b.throttle && a.steer == b.steer
}

impl PartialEq for CarDriveState {
    fn eq(&self, other: &Self) -> (r: bool) {
        self.brake == other.brake && self.throttle == other.throttle && self.steer == other.steer
    }
}

impl vstd::std_specs::cmp::PartialEqSpecImpl for CarDriveState {
    open spec fn obeys_eq_spec() -> bool {
        true
    }

    open spec fn eq_spec(&self, other: &Self) -> bool {
        triple_eq_s(*self, *other)
    }
}

impl Default for CarDriveState {
    /// The all-zero control state.
    fn default() -> (r: Self)
        ensures
            r.brake == 0 && r.throttle == 0 && r.steer == 0 && r.update_id == 0,
    {
        CarDriveState { brake: 0, throttle: 0, steer: 0, update_id: 0 }
    }
}

/// The steering intent after a key event: the exact key-combination
/// table. Pressing one steering key while the other is held gives
/// Neutral; releasing one while the other was already released reverses
/// the intent.
pub open spec fn steering_next_s(s: Steering, key: Key, pressed: bool) -> Steering {
    match (s, key, pressed) {
        (Steering::Neutral, Key::A, true) => Steering::Left,
        (Steering::Neutral, Key::D, true) => Steering::Right,
        (Steering::Right, Key::A, true) => Steering::Neutral,
        (Steering::Left, Key::D, true) => Steering::Neutral,
        (Steering::Left, Key::A, false) => Steering::Neutral,
        (Steering::Right, Key::D, false) => Steering::Neutral,
        (Steering::Neutral, Key::A, false) => Steering::Right,
        (Steering::Neutral, Key::D, false) => Steering::Left,
        _ => s,
    }
}

/// How the steer value moves each frame: toward the commanded side at a
/// fixed rate, or back toward zero when the intent is neutral, clamped to
/// one full turn of the wheel each way.
pub open spec fn steer_relax_s(s: Steering, steer: int, dt: int) -> int {
    let rate = fx_mul_s(2 * SCALE, dt);
    match s {
        Steering::Left => clamp_s(fx_sub_s(steer, rate), -SCALE as int, SCALE as int),
        Steering::Right => clamp_s(fx_add_s(steer, rate), -SCALE as int, SCALE as int),
        Steering::Neutral => if steer < 0 {
            if fx_add_s(steer, rate) <= 0 {
                fx_add_s(steer, rate)
            } else {
                0
            }
        } else if steer > 0 {
            if fx_sub_s(steer, rate) >= 0 {
                fx_sub_s(steer, rate)
            } else {
                0
            }
        } else {
            steer
        },
    }
}

/// The human driver: key flags, steering intent, the current recorded
/// state and the finished recording.
pub struct CarDriver {
    pub braking: bool,
    pub throttling: bool,
    pub steering: Steering,
    pub state: CarDriveState,
    pub update_id: usize,
    pub states: Vec<CarDriveState>,
}

impl CarDriver {
    /// A fresh driver: nothing pressed, neutral intent, empty recording.
    pub fn new() -> (r: CarDriver)
        ensures
            !r.braking,
            !r.throttling,
            r.steering == Steering::Neutral,
            r.state.brake == 0 && r.state.throttle == 0 && r.state.steer == 0,
            r.state.update_id == 0,
            r.update_id == 0,
            r.states@.len() == 0,
    {
        CarDriver {
            braking: false,
            throttling: false,
            steering: Steering::Neutral,
            state: CarDriveState::default(),
            update_id: 0,
            states: Vec::new(),
        }
    }

    /// One control frame: relax the steer value by the current intent, set
    /// throttle and brake from the key flags, and extend the run-length
    /// recording — the previous state is appended when the control triple
    /// changes, otherwise its repeat count grows.
    pub fn update(&mut self, car: &mut CarComponent, dt: i64)
        requires
            old(self).update_id < usize::MAX,
            old(car).wf(),
            0 <= dt <= SCALE,
        ensures
            final(car).steer == steer_relax_s(old(self).steering, old(car).steer as int, dt as int),
            final(car).brake == if old(self).braking { SCALE as int } else { 0 },
            final(car).throttle == if old(self).throttling { SCALE as int } else { 0 },
            final(car).wf(),
            final(car).config == old(car).config,
            final(car).position == old(car).position,
            final(car).velocity == old(car).velocity,
            final(car).acceleration == old(car).acceleration,
            final(car).heading == old(car).heading,
            final(car).angular_velocity == old(car).angular_velocity,
            final(car).wheel_roll == old(car).wheel_roll,
            final(car).terrain_height == old(car).terrain_height,
            final(car).front_susp == old(car).front_susp,
            final(car).rear_susp == old(car).rear_susp,
            final(self).braking == old(self).braking,
            final(self).throttling == old(self).throttling,
            final(self).steering == old(self).steering,
            final(self).state.brake == final(car).brake,
            final(self).state.throttle == final(car).throttle,
            final(self).state.steer == final(car).steer,
            triple_eq_s(old(self).state, final(self).state) ==> final(self).states@ == old(self).states@
                && final(self).update_id == old(self).update_id + 1
                && final(self).state == old(self).state,
            !triple_eq_s(old(self).state, final(self).state) ==> final(self).states@
                == old(self).states@.push(old(self).state)
                && final(self).update_id == 0
                && final(self).state.update_id == old(self).update_id,
    {
        let rate: i64 = fx_mul(2 * SCALE, dt);
        let new_steer: i64 = match self.steering {
            Steering::Left => fx_clamp(fx_sub(car.steer, rate), -SCALE, SCALE),
            Steering::Right => fx_clamp(fx_add(car.steer, rate), -SCALE, SCALE),
            Steering::Neutral => {
                if car.steer < 0 {
                    fx_min(fx_add(car.steer, rate), 0)
                } else if car.steer > 0 {
                    fx_max(fx_sub(car.steer, rate), 0)
                } else {
                    car.steer
                }
            },
        };
        car.steer = new_steer;
        car.brake = if self.braking {
            SCALE
        } else {
            0
        };
        car.throttle = if self.throttling {
            SCALE
        } else {
            0
        };

        let new_state = CarDriveState {
            throttle: car.throttle,
            steer: car.steer,
            brake: car.brake,
            update_id: self.update_id,
        };

        if !(self.state == new_state) {
            self.states.push(self.state);
            self.state = new_state;
            self.update_id = 0;
        } else {
            self.update_id = self.update_id + 1;
        }
    }

    /// A key event: W and S drive the throttle and brake flags, A and D
    /// step the steering intent through its transition table, R resets
    /// the car and discards the recording, releasing P asks for the
    /// recording to be saved.
    pub fn key_event(&mut self, car: &mut CarComponent, key: Key, pressed: bool) -> (action:
        DriverAction)
        requires
            old(car).wf(),
        ensures
            final(self).throttling == if key == Key::W { pressed } else { old(self).throttling },
            final(self).braking == if key == Key::S { pressed } else { old(self).braking },
            final(self).steering == steering_next_s(old(self).steering, key, pressed),
            final(self).state == old(self).state,
            key == Key::R && !pressed ==> final(car).position.x == 0 && final(car).position.y == 0
                && final(car).velocity.x == 0 && final(car).velocity.y == 0
                && final(car).acceleration.x == 0 && final(car).acceleration.y == 0
                && final(car).heading == 0 && final(car).angular_velocity == 0
                && final(self).states@.len() == 0 && final(self).update_id == 0,
            !(key == Key::R && !pressed) ==> *final(car) == *old(car)
                && final(self).states@ == old(self).states@
                && final(self).update_id == old(self).update_id,
            action == (if key == Key::P && !pressed {
                DriverAction::SaveRecording
            } else {
                DriverAction::Nothing
            }),
            final(car).wf(),
    {
        if key == Key::W {
            self.throttling = pressed;
        }
        if key == Key::S {
            self.braking = pressed;
        }
        let next = match (self.steering, key, pressed) {
            (Steering::Neutral, Key::A, true) => Steering::Left,
            (Steering::Neutral, Key::D, true) => Steering::Right,
            (Steering::Right, Key::A, true) => Steering::Neutral,
            (Steering::Left, Key::D, true) => Steering::Neutral,
            (Steering::Left, Key::A, false) => Steering::Neutral,
            (Steering::Right, Key::D, false) => Steering::Neutral,
            (Steering::Neutral, Key::A, false) => Steering::Right,
            (Steering::Neutral, Key::D, false) => Steering::Left,
            (s, _, _) => s,
        };
        self.steering = next;
        if key == Key::R && !pressed {
            car.reset();
            self.states = Vec::new();
            self.update_id = 0;
        }
        if key == Key::P && !pressed {
            DriverAction::SaveRecording
        } else {
            DriverAction::Nothing
        }
    }
}

} // verus!
