//! A single crossing's signal heads driven by named positions, with the two
//! fixed change-over sequences. Each sequence returns the steps that a
//! driver carries out: show the heads, or wait.

use vstd::prelude::*;
use crate::config::{ALL_RED_MS, VEH_YELLOW_MS};

verus! {

/// Colour shown by a signal head.
#[allow(non_camel_case_types)]
#[derive(Debug, Clone, Copy, PartialEq, Eq, Structural)]
pub enum TrafficSign {
    RED,
    YELLOW,
    GREEN,
}

/// How a signal head shows its colour.
#[allow(non_camel_case_types)]
#[derive(Debug, Clone, Copy, PartialEq, Eq, Structural)]
pub enum LightState {
    OFF,
    SOLID,
    BLINKING,
}

/// The pedestrian and the vehicle head, and the time (milliseconds) of the
/// next wait.
#[derive(Debug, Clone, Copy)]
pub struct TrafficLight {
    pub sig_ped: (TrafficSign, LightState),
    pub sig_veh: (TrafficSign, LightState),
    pub time_ms: u64,
}

/// One step of a change-over sequence.
#[derive(Debug, Clone, Copy)]
pub enum SignalStep {
    /// Show the heads as they are now.
    Display(TrafficLight),
    /// Wait this many milliseconds.
    Wait(u64),
}

/// A picture that never releases pedestrians and vehicles together.
pub open spec fn safe_picture(t: TrafficLight) -> bool {
    t.sig_ped.0 == TrafficSign::RED || t.sig_veh.0 == TrafficSign::RED
}

/// Every picture shown by a sequence is safe.
pub open spec fn shows_only_safe(steps: Seq<SignalStep>) -> bool {
    forall|i: int| 0 <= i < steps.len() ==> (#[trigger] steps[i] matches SignalStep::Display(t) ==> safe_picture(t))
}

impl TrafficLight {
    /// Sets the colour of the head at `sig_pos`, which is "ped" or "veh";
    /// the pedestrian head has no yellow lamp.
    pub fn set_sig(&mut self, sig_pos: &str, next_sign: TrafficSign)
        requires
            (sig_pos@ == "ped"@ && next_sign != TrafficSign::YELLOW) || sig_pos@ == "veh"@,
        ensures
            sig_pos@ == "ped"@ ==> *final(self) == (TrafficLight { sig_ped: (next_sign, old(self).sig_ped.1), ..*old(self) }),
            sig_pos@ != "ped"@ ==> *final(self) == (TrafficLight { sig_veh: (next_sign, old(self).sig_veh.1), ..*old(self) }),
    {
        let is_ped = crate::traffic::sql_ops::str_equals(sig_pos, "ped");
        if is_ped {
            self.sig_ped.0 = next_sign;
        } else {
            self.sig_veh.0 = next_sign;
        }
    }

    /// Pedestrians to red, then after the all-red time vehicles to green.
    pub fn ped_to_red_veh_to_green(&mut self) -> (steps: Vec<SignalStep>)
        ensures
            ({
                let t1 = TrafficLight { sig_ped: (TrafficSign::RED, LightState::SOLID), ..*old(self) };
                let t2 = TrafficLight { time_ms: ALL_RED_MS, ..t1 };
                let t3 = TrafficLight { sig_veh: (TrafficSign::GREEN, LightState::SOLID), ..t2 };
                &&& *final(self) == t3
                &&& steps@.len() == 3
                &&& steps@[0] == SignalStep::Display(t1)
                &&& steps@[1] == SignalStep::Wait(ALL_RED_MS)
                &&& steps@[2] == SignalStep::Display(t3)
            }),
            shows_only_safe(steps@),
    {
        let mut steps: Vec<SignalStep> = Vec::new();
        self.sig_ped = (TrafficSign::RED, LightState::SOLID);
        steps.push(SignalStep::Display(*self));
        self.time_ms = ALL_RED_MS;
        steps.push(SignalStep::Wait(self.time_ms));
        self.sig_veh = (TrafficSign::GREEN, LightState::SOLID);
        steps.push(SignalStep::Display(*self));
        steps
    }

    /// Vehicles to yellow, after the yellow time to red, after the all-red
    /// time pedestrians to green. Safe when pedestrians start red.
    pub fn veh_to_red_ped_to_green(&mut self) -> (steps: Vec<SignalStep>)
        ensures
            ({
                let t1 = TrafficLight { sig_veh: (TrafficSign::YELLOW, LightState::SOLID), ..*old(self) };
                let t2 = TrafficLight { time_ms: VEH_YELLOW_MS, ..t1 };
                let t3 = TrafficLight { sig_veh: (TrafficSign::RED, LightState::SOLID), ..t2 };
                let t4 = TrafficLight { time_ms: ALL_RED_MS, ..t3 };
                let t5 = TrafficLight { sig_ped: (TrafficSign::GREEN, LightState::SOLID), ..t4 };
                &&& *final(self) == t5
                &&& steps@.len() == 5
                &&& steps@[0] == SignalStep::Display(t1)
                &&& steps@[1] == SignalStep::Wait(VEH_YELLOW_MS)
                &&& steps@[2] == SignalStep::Display(t3)
                &&& steps@[3] == SignalStep::Wait(ALL_RED_MS)
                &&& steps@[4] == SignalStep::Display(t5)
            }),
            old(self).sig_ped.0 == TrafficSign::RED ==> shows_only_safe(steps@),
    {
        let mut steps: Vec<SignalStep> = Vec::new();
        self.sig_veh = (TrafficSign::YELLOW, LightState::SOLID);
        steps.push(SignalStep::Display(*self));
        self.time_ms = VEH_YELLOW_MS;
        steps.push(SignalStep::Wait(self.time_ms));
        self.sig_veh = (TrafficSign::RED, LightState::SOLID);
        steps.push(SignalStep::Display(*self));
        self.time_ms = ALL_RED_MS;
        steps.push(SignalStep::Wait(self.time_ms));
        self.sig_ped = (TrafficSign::GREEN, LightState::SOLID);
        steps.push(SignalStep::Display(*self));
        steps
    }
}

} // verus!
