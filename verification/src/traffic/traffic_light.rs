//! The two signal heads of the crossing.

use vstd::prelude::*;

verus! {

/// Colour shown by a signal head.
#[derive(Debug, Clone, Copy, PartialEq, Eq, Structural)]
pub enum TrafficSign {
    Red,
    Yellow,
    Green,
}

/// How a signal head shows its colour.
#[derive(Debug, Clone, Copy, PartialEq, Eq, Structural)]
pub enum LightState {
    Off,
    Solid,
    Blinking,
}

/// Which signal head a command addresses.
#[derive(Debug, Clone, Copy, PartialEq, Eq, Structural)]
pub enum TrafficLightPosition {
    Ped1,
    Veh1,
}

/// The pedestrian and the vehicle signal head, and the time (milliseconds)
/// associated with the current display.
#[derive(Debug, Clone, Copy)]
pub struct TrafficLight {
    pub sig_ped: (TrafficSign, LightState),
    pub sig_veh: (TrafficSign, LightState),
    pub time_ms: u64,
}

/// The light after one head has been set.
pub open spec fn with_signal(
    t: TrafficLight,
    pos: TrafficLightPosition,
    sign: TrafficSign,
    state: LightState,
) -> TrafficLight {
    match pos {
        TrafficLightPosition::Ped1 => TrafficLight { sig_ped: (sign, state), ..t },
        TrafficLightPosition::Veh1 => TrafficLight { sig_veh: (sign, state), ..t },
    }
}

impl TrafficLight {
    /// Sets the colour and state of one head. The pedestrian head has no
    /// yellow lamp, so it cannot be set to yellow.
    pub fn set_sig(&mut self, sig_pos: TrafficLightPosition, next_sign: TrafficSign, next_state: LightState)
        requires
            !(sig_pos == TrafficLightPosition::Ped1 && next_sign == TrafficSign::Yellow),
        ensures
            *final(self) == with_signal(*old(self), sig_pos, next_sign, next_state),
    {
        match sig_pos {
            TrafficLightPosition::Ped1 => {
                self.sig_ped = (next_sign, next_state);
            },
            TrafficLightPosition::Veh1 => {
                self.sig_veh = (next_sign, next_state);
            },
        }
    }
}

} // verus!
