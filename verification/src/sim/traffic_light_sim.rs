//! Decisions of the signal cycle.
//!
//! The cycle runs pedestrian green (half, optional extension, rest, blinking),
//! all red, vehicle green (solid, blinking), yellow, all red. A driver waits
//! in real time and feeds the controller: `sim_loop_step` says what to do next
//! from a resume point, the sleep functions advance simulated time one tick at
//! a time, and `manual_transition_step` walks one manual phase change. The
//! operator's buttons are the `press_*` methods. All durations are
//! milliseconds.

use vstd::prelude::*;
use crate::config::{
    ALL_RED_MS, PED_GREEN_BLINKING_MS, PHASE_BASIC_PED_GREEN_MS, PHASE_BASIC_VEH_GREEN_MS,
    T_MAX_MS, VEH_GREEN_BLINKING_MS, VEH_YELLOW_MS,
};
use crate::traffic::traffic_light::{
    with_signal, LightState, TrafficLight, TrafficLightPosition, TrafficSign,
};

verus! {

/// Top-level phase shown in the info panel.
#[derive(Debug, Clone, Copy, PartialEq, Eq, Structural)]
pub enum Phase {
    PedestrianGreen,
    PedestrianGreenExtension,
    AllRedBeforeVehicle,
    VehicleGreen,
    VehicleYellow,
    AllRedBeforePedestrian,
}

/// Text shown for a phase.
pub open spec fn phase_label(p: Phase) -> Seq<char> {
    match p {
        Phase::PedestrianGreen => "Phase 1 — Pedestrian Green"@,
        Phase::PedestrianGreenExtension => "Phase 1 — Pedestrian Green (Extended)"@,
        Phase::AllRedBeforeVehicle => "All Red — Preparing for Vehicles"@,
        Phase::VehicleGreen => "Phase 2 — Vehicle Green"@,
        Phase::VehicleYellow => "Vehicle Yellow"@,
        Phase::AllRedBeforePedestrian => "All Red — Preparing for Pedestrians"@,
    }
}

impl Phase {
    /// Text shown for the phase.
    pub fn label(&self) -> (s: &'static str)
        ensures
            s@ == phase_label(*self),
    {
        match self {
            Phase::PedestrianGreen => "Phase 1 — Pedestrian Green",
            Phase::PedestrianGreenExtension => "Phase 1 — Pedestrian Green (Extended)",
            Phase::AllRedBeforeVehicle => "All Red — Preparing for Vehicles",
            Phase::VehicleGreen => "Phase 2 — Vehicle Green",
            Phase::VehicleYellow => "Vehicle Yellow",
            Phase::AllRedBeforePedestrian => "All Red — Preparing for Pedestrians",
        }
    }
}


/// Speed multiplier of simulated time: one half, one, two or four.
#[derive(Debug, Clone, Copy, PartialEq, Eq, Structural)]
pub enum SimSpeed {
    Half,
    Normal,
    Double,
    Quadruple,
}

/// Length of one real tick of the driver (milliseconds).
pub const TICK_MS: u64 = 50;

/// Simulated time that passes in one real tick at a speed.
pub open spec fn speed_delta(speed: SimSpeed) -> u64 {
    match speed {
        SimSpeed::Half => 25,
        SimSpeed::Normal => 50,
        SimSpeed::Double => 100,
        SimSpeed::Quadruple => 200,
    }
}

impl SimSpeed {
    /// Simulated milliseconds that pass in one real tick of `TICK_MS`.
    pub fn tick_delta_ms(self) -> (d: u64)
        ensures
            d == speed_delta(self),
    {
        match self {
            SimSpeed::Half => 25,
            SimSpeed::Normal => 50,
            SimSpeed::Double => 100,
            SimSpeed::Quadruple => 200,
        }
    }
}

/// The shared state of the crossing as the controller and the operator see it.
pub struct SimState {
    pub phase: Phase,
    pub ped_blinking: bool,
    pub veh_blinking: bool,
    /// Milliseconds remaining in the current sub-phase.
    pub countdown_ms: u64,
    /// Completed cycles.
    pub cycle_count: u32,
    /// Last pedestrian extension applied (milliseconds).
    pub ped_extension_ms: u64,
    pub speed: SimSpeed,
    pub paused: bool,
    /// Blink toggle, flipped every half simulated second.
    pub blink_on: bool,
    /// The signal heads: the source of truth for what is shown.
    pub traffic_light: TrafficLight,
    /// Text typed in the pedestrian count box.
    pub input_ped_text: String,
    /// Text typed in the vehicle count box.
    pub input_veh_text: String,
    /// Extension queued by the operator for the next pedestrian phase (milliseconds).
    pub manual_ped_ext_ms: Option<u64>,
    pub manual_applied: bool,
    /// Skip the remainder of the current sub-phase.
    pub skip_phase: bool,
    /// Manual control: the automatic cycle is frozen.
    pub manual_control_enabled: bool,
    /// Manual control: a phase change has been requested.
    pub manual_switch_phase: bool,
    pub manual_blink_countdown_ms: u64,
    /// Leaving manual control; cleared once an all-red interval is reached.
    pub exiting_manual_mode: bool,
    /// All lights held red until the operator releases them.
    pub all_red_hold_enabled: bool,
    /// Heading for the all-red hold.
    pub transitioning_to_all_red: bool,
    /// Go to all red once the current blinking ends.
    pub all_red_after_blinking: bool,
    /// Show yellow before going all red (vehicle green was interrupted).
    pub need_yellow_before_all_red: bool,
}

pub open spec fn ped_sign(s: SimState) -> TrafficSign {
    s.traffic_light.sig_ped.0
}

pub open spec fn veh_sign(s: SimState) -> TrafficSign {
    s.traffic_light.sig_veh.0
}

/// The safety condition of the crossing: pedestrians never see yellow,
/// pedestrians and vehicles are never released together, and the lights
/// agree with the phase (a pedestrian phase shows pedestrians green and
/// vehicles red, vehicle green shows vehicles green, yellow shows vehicles
/// yellow, both with pedestrians red, and an all-red phase shows both red).
pub open spec fn signals_coherent(s: SimState) -> bool {
    &&& ped_sign(s) != TrafficSign::Yellow
    &&& ped_sign(s) == TrafficSign::Green ==> veh_sign(s) == TrafficSign::Red
    &&& (s.phase == Phase::PedestrianGreen || s.phase == Phase::PedestrianGreenExtension)
        ==> (ped_sign(s) == TrafficSign::Green && veh_sign(s) == TrafficSign::Red)
    &&& s.phase == Phase::VehicleGreen ==> veh_sign(s) == TrafficSign::Green
    &&& s.phase == Phase::VehicleYellow ==> veh_sign(s) == TrafficSign::Yellow
    &&& (s.phase == Phase::VehicleGreen || s.phase == Phase::VehicleYellow) ==> ped_sign(s)
        == TrafficSign::Red
    &&& (s.phase == Phase::AllRedBeforeVehicle || s.phase == Phase::AllRedBeforePedestrian)
        ==> (ped_sign(s) == TrafficSign::Red && veh_sign(s) == TrafficSign::Red)
}

/// The safety condition, the all-red hold only in an all-red phase, and
/// bounds that keep every duration the controller handles small.
pub open spec fn sim_state_wf(s: SimState) -> bool {
    &&& signals_coherent(s)
    &&& s.all_red_hold_enabled ==> (s.phase == Phase::AllRedBeforeVehicle || s.phase
        == Phase::AllRedBeforePedestrian)
    &&& s.countdown_ms <= T_MAX_MS
    &&& s.ped_extension_ms <= T_MAX_MS
    &&& (s.manual_ped_ext_ms matches Some(e) ==> e <= T_MAX_MS)
}

impl Default for SimState {
    /// Pedestrian green, vehicles red, nothing queued, normal speed.
    fn default() -> (s: Self)
        ensures
            s.phase == Phase::PedestrianGreen,
            !s.ped_blinking && !s.veh_blinking,
            s.countdown_ms == PHASE_BASIC_PED_GREEN_MS,
            s.cycle_count == 0,
            s.ped_extension_ms == 0,
            s.speed == SimSpeed::Normal,
            !s.paused,
            s.blink_on,
            s.traffic_light.sig_ped == (TrafficSign::Green, LightState::Solid),
            s.traffic_light.sig_veh == (TrafficSign::Red, LightState::Solid),
            s.traffic_light.time_ms == PHASE_BASIC_PED_GREEN_MS,
            s.input_ped_text@ == Seq::<char>::empty(),
            s.input_veh_text@ == Seq::<char>::empty(),
            s.manual_ped_ext_ms is None,
            !s.manual_applied && !s.skip_phase,
            !s.manual_control_enabled && !s.manual_switch_phase,
            s.manual_blink_countdown_ms == 0,
            !s.exiting_manual_mode && !s.all_red_hold_enabled,
            !s.transitioning_to_all_red && !s.all_red_after_blinking,
            !s.need_yellow_before_all_red,
            sim_state_wf(s),
    {
        SimState {
            phase: Phase::PedestrianGreen,
            ped_blinking: false,
            veh_blinking: false,
            countdown_ms: PHASE_BASIC_PED_GREEN_MS,
            cycle_count: 0,
            ped_extension_ms: 0,
            speed: SimSpeed::Normal,
            paused: false,
            blink_on: true,
            traffic_light: TrafficLight {
                sig_ped: (TrafficSign::Green, LightState::Solid),
                sig_veh: (TrafficSign::Red, LightState::Solid),
                time_ms: PHASE_BASIC_PED_GREEN_MS,
            },
            input_ped_text: String::new(),
            input_veh_text: String::new(),
            manual_ped_ext_ms: None,
            manual_applied: false,
            skip_phase: false,
            manual_control_enabled: false,
            manual_switch_phase: false,
            manual_blink_countdown_ms: 0,
            exiting_manual_mode: false,
            all_red_hold_enabled: false,
            transitioning_to_all_red: false,
            all_red_after_blinking: false,
            need_yellow_before_all_red: false,
        }
    }
}

/// Progress of one interval of simulated time.
pub struct SleepTimer {
    pub target_ms: u64,
    pub elapsed_ms: u64,
    pub blink_acc_ms: u64,
}

/// A timer that has not finished: elapsed time below the target, and less
/// than half a second towards the next blink toggle.
pub open spec fn timer_running(t: SleepTimer) -> bool {
    &&& t.elapsed_ms < t.target_ms
    &&& t.target_ms <= T_MAX_MS
    &&& t.blink_acc_ms < 500
}

impl SleepTimer {
    /// A timer for `target_ms` of simulated time.
    pub fn new(target_ms: u64) -> (t: SleepTimer)
        ensures
            t.target_ms == target_ms,
            t.elapsed_ms == 0,
            t.blink_acc_ms == 0,
    {
        SleepTimer { target_ms, elapsed_ms: 0, blink_acc_ms: 0 }
    }
}

/// Whether an interval must end before its next tick: manual control and a
/// pending all-red transition end it as they are; a skip request ends it
/// and zeroes the countdown.
pub open spec fn sleep_interrupted(s: SimState) -> bool {
    s.manual_control_enabled || s.transitioning_to_all_red || s.skip_phase
}

/// Checks made before each real tick of an automatic interval; returns
/// whether the interval ends now.
pub fn sim_sleep_interrupted(state: &mut SimState) -> (stop: bool)
    ensures
        stop == sleep_interrupted(*old(state)),
        *final(state) == (if !old(state).manual_control_enabled && !old(state).transitioning_to_all_red
            && old(state).skip_phase {
            SimState { skip_phase: false, countdown_ms: 0, ..*old(state) }
        } else {
            *old(state)
        }),
{
    if state.manual_control_enabled {
        return true;
    }
    if state.transitioning_to_all_red {
        return true;
    }
    if state.skip_phase {
        state.skip_phase = false;
        state.countdown_ms = 0;
        return true;
    }
    false
}

/// The state and timer after one tick that advances simulated time.
pub open spec fn advanced(s: SimState, t: SleepTimer) -> (SimState, SleepTimer) {
    let delta = speed_delta(s.speed);
    let elapsed = t.elapsed_ms + delta;
    let acc = t.blink_acc_ms + delta;
    let flip = acc >= 500;
    let remaining = if t.target_ms >= elapsed { t.target_ms - elapsed } else { 0 };
    (
        SimState {
            blink_on: if flip { !s.blink_on } else { s.blink_on },
            countdown_ms: remaining as u64,
            ..s
        },
        SleepTimer {
            target_ms: t.target_ms,
            elapsed_ms: elapsed as u64,
            blink_acc_ms: (if flip { acc - 500 } else { acc }) as u64,
        },
    )
}

fn advance_tick(state: &mut SimState, timer: &mut SleepTimer) -> (done: bool)
    requires
        timer_running(*old(timer)),
    ensures
        *final(state) == advanced(*old(state), *old(timer)).0,
        *final(timer) == advanced(*old(state), *old(timer)).1,
        done == (final(timer).elapsed_ms >= final(timer).target_ms),
        !done ==> timer_running(*final(timer)),
{
    let delta = state.speed.tick_delta_ms();
    let elapsed = timer.elapsed_ms + delta;
    let acc = timer.blink_acc_ms + delta;
    let flip = acc >= 500;
    let remaining = if timer.target_ms >= elapsed { timer.target_ms - elapsed } else { 0 };
    let new_acc = if flip { acc - 500 } else { acc };
    let new_blink = if flip { !state.blink_on } else { state.blink_on };
    state.blink_on = new_blink;
    state.countdown_ms = remaining;
    *timer = SleepTimer { target_ms: timer.target_ms, elapsed_ms: elapsed, blink_acc_ms: new_acc };
    elapsed >= timer.target_ms
}

/// One real tick of an automatic interval: nothing passes while paused;
/// otherwise simulated time advances by the speed's delta, the blink toggles
/// every half second, and the countdown shows what is left. Returns whether
/// the interval is over.
pub fn sim_sleep_tick(state: &mut SimState, timer: &mut SleepTimer) -> (done: bool)
    requires
        timer_running(*old(timer)),
    ensures
        old(state).paused ==> *final(state) == *old(state) && *final(timer) == *old(timer) && !done,
        !old(state).paused ==> *final(state) == advanced(*old(state), *old(timer)).0
            && *final(timer) == advanced(*old(state), *old(timer)).1 && done == (final(timer).elapsed_ms >= final(timer).target_ms),
        !done ==> timer_running(*final(timer)),
{
    if state.paused {
        return false;
    }
    advance_tick(state, timer)
}

/// One real tick of a manual transition's interval: like `sim_sleep_tick`,
/// but pausing does not hold it. Returns whether the interval is over.
pub fn manual_sim_sleep_tick(state: &mut SimState, timer: &mut SleepTimer) -> (done: bool)
    requires
        timer_running(*old(timer)),
    ensures
        *final(state) == advanced(*old(state), *old(timer)).0,
        *final(timer) == advanced(*old(state), *old(timer)).1,
        done == (final(timer).elapsed_ms >= final(timer).target_ms),
        !done ==> timer_running(*final(timer)),
{
    advance_tick(state, timer)
}

/// Ticks change only the countdown and the blink toggle, so the safety
/// condition and every bound survive them.
pub proof fn lemma_ticks_keep_state_wf(s: SimState, t: SleepTimer)
    requires
        sim_state_wf(s),
        timer_running(t),
    ensures
        sim_state_wf(advanced(s, t).0),
        advanced(s, t).0.phase == s.phase,
        advanced(s, t).0.traffic_light == s.traffic_light,
{
}


/// First half of the basic pedestrian green (`PHASE_BASIC_PED_GREEN_MS / 2`).
pub const HALF_PED_GREEN_MS: u64 = 15_000;

/// Solid pedestrian green after the extension, before the blinking
/// (`HALF_PED_GREEN_MS - PED_GREEN_BLINKING_MS`).
pub const SECOND_SOLID_MS: u64 = 8_000;

/// Solid part of the vehicle green (`PHASE_BASIC_VEH_GREEN_MS - VEH_GREEN_BLINKING_MS`).
pub const VEH_SOLID_MS: u64 = 5_000;

/// An extension no longer than this is not applied (milliseconds).
pub const MIN_APPLIED_EXTENSION_MS: u64 = 100;

/// Where the cycle resumes once the driver has carried out an action.
#[derive(Debug, Clone, Copy, PartialEq, Eq, Structural)]
pub enum LoopPoint {
    Top,
    AfterFirstHalf,
    AfterExtension,
    AfterSecondSolid,
    AfterPedBlinking,
    AfterAllRedBeforeVehicle,
    AfterVehicleSolid,
    AfterVehicleBlinking,
    AfterVehicleYellow,
    AfterAllRedBeforePedestrian,
}

/// What the driver does before resuming the cycle.
#[derive(Debug, Clone, Copy, PartialEq, Eq, Structural)]
pub enum LoopAction {
    /// Wait a short real while (all-red hold, or manual control with nothing requested).
    Hold,
    /// Run the manual phase change (`manual_transition_step`) to its end.
    ManualTransition,
    /// Let this much simulated time pass (`sim_sleep_tick`), unless interrupted.
    Sleep(u64),
}

/// The phase that the cycle has at each resume point.
pub open spec fn point_ok(s: SimState, p: LoopPoint) -> bool {
    match p {
        LoopPoint::Top => true,
        LoopPoint::AfterFirstHalf => s.phase == Phase::PedestrianGreen,
        LoopPoint::AfterExtension => s.phase == Phase::PedestrianGreenExtension,
        LoopPoint::AfterSecondSolid => s.phase == Phase::PedestrianGreen,
        LoopPoint::AfterPedBlinking => s.phase == Phase::PedestrianGreen || s.phase
            == Phase::PedestrianGreenExtension,
        LoopPoint::AfterAllRedBeforeVehicle => s.phase == Phase::AllRedBeforeVehicle,
        LoopPoint::AfterVehicleSolid => s.phase == Phase::VehicleGreen,
        LoopPoint::AfterVehicleBlinking => s.phase == Phase::VehicleGreen,
        LoopPoint::AfterVehicleYellow => s.phase == Phase::VehicleYellow,
        LoopPoint::AfterAllRedBeforePedestrian => s.phase == Phase::AllRedBeforePedestrian,
    }
}

pub open spec fn lit_ped(s: SimState, sign: TrafficSign, ls: LightState) -> SimState {
    SimState { traffic_light: with_signal(s.traffic_light, TrafficLightPosition::Ped1, sign, ls), ..s }
}

pub open spec fn lit_veh(s: SimState, sign: TrafficSign, ls: LightState) -> SimState {
    SimState { traffic_light: with_signal(s.traffic_light, TrafficLightPosition::Veh1, sign, ls), ..s }
}

/// Pedestrian green starts: pedestrians solid green, vehicles solid red.
pub open spec fn ped_green_entered(s: SimState) -> SimState {
    lit_veh(
        lit_ped(
            SimState {
                phase: Phase::PedestrianGreen,
                ped_blinking: false,
                veh_blinking: false,
                countdown_ms: HALF_PED_GREEN_MS,
                blink_on: true,
                ..s
            },
            TrafficSign::Green,
            LightState::Solid,
        ),
        TrafficSign::Red,
        LightState::Solid,
    )
}

/// Top of the cycle: hold, hand over to manual control, finish a vehicle
/// green or yellow that manual control left showing (blinking out, yellow
/// and all red come first), or start a pedestrian green (straight into its
/// blinking when leaving manual control or heading for the all-red hold).
#[verifier::opaque]
pub open spec fn top_outcome(s: SimState) -> (SimState, LoopPoint, LoopAction) {
    if s.all_red_hold_enabled {
        (s, LoopPoint::Top, LoopAction::Hold)
    } else if s.manual_control_enabled {
        if s.manual_switch_phase {
            (s, LoopPoint::Top, LoopAction::ManualTransition)
        } else {
            (s, LoopPoint::Top, LoopAction::Hold)
        }
    } else if s.phase == Phase::VehicleGreen {
        veh_blinking_outcome(s)
    } else if s.phase == Phase::VehicleYellow {
        vehicle_yellow_outcome(s)
    } else {
        let s1 = ped_green_entered(s);
        if (s1.exiting_manual_mode || s1.transitioning_to_all_red) && !s1.all_red_after_blinking {
            ped_blinking_outcome(s1)
        } else {
            (s1, LoopPoint::AfterFirstHalf, LoopAction::Sleep(HALF_PED_GREEN_MS))
        }
    }
}

/// The pedestrian green starts blinking.
#[verifier::opaque]
pub open spec fn ped_blinking_outcome(s: SimState) -> (SimState, LoopPoint, LoopAction) {
    (
        lit_ped(
            SimState { ped_blinking: true, countdown_ms: PED_GREEN_BLINKING_MS, ..s },
            TrafficSign::Green,
            LightState::Blinking,
        ),
        LoopPoint::AfterPedBlinking,
        LoopAction::Sleep(PED_GREEN_BLINKING_MS),
    )
}

/// The solid rest of the pedestrian green (back in the basic phase after an
/// extension).
#[verifier::opaque]
pub open spec fn second_solid_outcome(s: SimState, back_to_basic: bool) -> (SimState, LoopPoint, LoopAction) {
    if SECOND_SOLID_MS > 0 {
        (
            SimState {
                phase: if back_to_basic { Phase::PedestrianGreen } else { s.phase },
                countdown_ms: SECOND_SOLID_MS,
                ..s
            },
            LoopPoint::AfterSecondSolid,
            LoopAction::Sleep(SECOND_SOLID_MS),
        )
    } else {
        ped_blinking_outcome(s)
    }
}

/// The extension: the queued manual one if any (it is consumed), else the
/// automatic one; applied only when longer than `MIN_APPLIED_EXTENSION_MS`.
#[verifier::opaque]
pub open spec fn extension_outcome(s: SimState, auto_ext_ms: u64) -> (SimState, LoopPoint, LoopAction) {
    let ext = match s.manual_ped_ext_ms {
        Some(e) => e,
        None => auto_ext_ms,
    };
    let s1 = SimState { manual_ped_ext_ms: None, ped_extension_ms: ext, ..s };
    if ext > MIN_APPLIED_EXTENSION_MS {
        (
            SimState { phase: Phase::PedestrianGreenExtension, countdown_ms: ext, ..s1 },
            LoopPoint::AfterExtension,
            LoopAction::Sleep(ext),
        )
    } else {
        second_solid_outcome(s1, false)
    }
}

/// Pedestrians go red; an all-red-after-blinking request becomes a pending
/// all-red transition.
#[verifier::opaque]
pub open spec fn all_red_before_vehicle_outcome(s: SimState) -> (SimState, LoopPoint, LoopAction) {
    let s1 = if s.all_red_after_blinking {
        SimState {
            all_red_after_blinking: false,
            transitioning_to_all_red: true,
            ped_blinking: false,
            ..s
        }
    } else {
        s
    };
    (
        lit_ped(
            SimState {
                phase: Phase::AllRedBeforeVehicle,
                ped_blinking: false,
                countdown_ms: ALL_RED_MS,
                ..s1
            },
            TrafficSign::Red,
            LightState::Solid,
        ),
        LoopPoint::AfterAllRedBeforeVehicle,
        LoopAction::Sleep(ALL_RED_MS),
    )
}

/// Vehicles get solid green (straight into blinking when leaving manual control).
#[verifier::opaque]
pub open spec fn vehicle_green_outcome(s: SimState) -> (SimState, LoopPoint, LoopAction) {
    let s1 = lit_veh(
        SimState {
            phase: Phase::VehicleGreen,
            veh_blinking: false,
            countdown_ms: VEH_SOLID_MS,
            blink_on: true,
            ..s
        },
        TrafficSign::Green,
        LightState::Solid,
    );
    if s1.exiting_manual_mode {
        veh_blinking_outcome(s1)
    } else {
        (s1, LoopPoint::AfterVehicleSolid, LoopAction::Sleep(VEH_SOLID_MS))
    }
}

/// The vehicle green starts blinking.
#[verifier::opaque]
pub open spec fn veh_blinking_outcome(s: SimState) -> (SimState, LoopPoint, LoopAction) {
    (
        lit_veh(
            SimState { veh_blinking: true, countdown_ms: VEH_GREEN_BLINKING_MS, ..s },
            TrafficSign::Green,
            LightState::Blinking,
        ),
        LoopPoint::AfterVehicleBlinking,
        LoopAction::Sleep(VEH_GREEN_BLINKING_MS),
    )
}

/// End of an all-red interval: leaving manual control is complete; a pending
/// all-red transition becomes the hold; otherwise the cycle goes on (after
/// the second all red, one more cycle is complete).
#[verifier::opaque]
pub open spec fn after_all_red_outcome(s: SimState, before_vehicle: bool) -> (SimState, LoopPoint, LoopAction) {
    let s1 = SimState { exiting_manual_mode: false, ..s };
    if s1.transitioning_to_all_red {
        top_outcome(SimState { transitioning_to_all_red: false, all_red_hold_enabled: true, ..s1 })
    } else if s1.all_red_hold_enabled {
        top_outcome(s1)
    } else if before_vehicle {
        vehicle_green_outcome(s1)
    } else {
        top_outcome(SimState { cycle_count: (s1.cycle_count + 1) as u32, ..s1 })
    }
}

/// Vehicles go red.
#[verifier::opaque]
pub open spec fn all_red_before_ped_outcome(s: SimState) -> (SimState, LoopPoint, LoopAction) {
    (
        lit_veh(
            SimState { phase: Phase::AllRedBeforePedestrian, countdown_ms: ALL_RED_MS, ..s },
            TrafficSign::Red,
            LightState::Solid,
        ),
        LoopPoint::AfterAllRedBeforePedestrian,
        LoopAction::Sleep(ALL_RED_MS),
    )
}

/// End of the vehicle blinking: yellow, unless an all-red transition without
/// yellow is pending.
#[verifier::opaque]
pub open spec fn after_vehicle_blinking_outcome(s: SimState) -> (SimState, LoopPoint, LoopAction) {
    let s1 = if s.all_red_after_blinking {
        SimState {
            all_red_after_blinking: false,
            veh_blinking: false,
            transitioning_to_all_red: if s.need_yellow_before_all_red {
                s.transitioning_to_all_red
            } else {
                true
            },
            ..s
        }
    } else {
        s
    };
    if s1.transitioning_to_all_red {
        all_red_before_ped_outcome(s1)
    } else {
        vehicle_yellow_outcome(s1)
    }
}

/// Vehicles show solid yellow.
#[verifier::opaque]
pub open spec fn vehicle_yellow_outcome(s: SimState) -> (SimState, LoopPoint, LoopAction) {
    (
        lit_veh(
            SimState { phase: Phase::VehicleYellow, veh_blinking: false, countdown_ms: VEH_YELLOW_MS, ..s },
            TrafficSign::Yellow,
            LightState::Solid,
        ),
        LoopPoint::AfterVehicleYellow,
        LoopAction::Sleep(VEH_YELLOW_MS),
    )
}

/// End of the yellow: a yellow-before-all-red request becomes a pending
/// all-red transition; vehicles go red.
#[verifier::opaque]
pub open spec fn after_vehicle_yellow_outcome(s: SimState) -> (SimState, LoopPoint, LoopAction) {
    let s1 = if s.need_yellow_before_all_red {
        SimState { need_yellow_before_all_red: false, transitioning_to_all_red: true, ..s }
    } else {
        s
    };
    all_red_before_ped_outcome(s1)
}

/// One decision of the cycle from a resume point: the new state, where to
/// resume, and what the driver does meanwhile. Manual control sends every
/// resume point back to the top of the cycle.
#[verifier::opaque]
pub open spec fn loop_step_outcome(s: SimState, p: LoopPoint, auto_ext_ms: u64) -> (SimState, LoopPoint, LoopAction) {
    if p == LoopPoint::Top || s.manual_control_enabled {
        top_outcome(s)
    } else {
        match p {
            LoopPoint::AfterFirstHalf => if s.transitioning_to_all_red || s.all_red_after_blinking {
                ped_blinking_outcome(s)
            } else {
                extension_outcome(s, auto_ext_ms)
            },
            LoopPoint::AfterExtension => if s.transitioning_to_all_red || s.all_red_after_blinking {
                ped_blinking_outcome(s)
            } else {
                second_solid_outcome(s, true)
            },
            LoopPoint::AfterSecondSolid => ped_blinking_outcome(s),
            LoopPoint::AfterPedBlinking => all_red_before_vehicle_outcome(s),
            LoopPoint::AfterAllRedBeforeVehicle => after_all_red_outcome(s, true),
            LoopPoint::AfterVehicleSolid => veh_blinking_outcome(s),
            LoopPoint::AfterVehicleBlinking => after_vehicle_blinking_outcome(s),
            LoopPoint::AfterVehicleYellow => after_vehicle_yellow_outcome(s),
            LoopPoint::AfterAllRedBeforePedestrian => after_all_red_outcome(s, false),
            LoopPoint::Top => top_outcome(s),
        }
    }
}

/// A sleep that a timer can run: positive and within the extension range.
pub open spec fn action_ok(a: LoopAction) -> bool {
    a matches LoopAction::Sleep(ms) ==> 0 < ms <= T_MAX_MS
}

/// A decision that keeps the state well formed, resumes where the phase is
/// right, and asks for a sleep that a timer can run.
pub open spec fn outcome_ok(o: (SimState, LoopPoint, LoopAction)) -> bool {
    sim_state_wf(o.0) && point_ok(o.0, o.1) && action_ok(o.2)
}


proof fn lemma_top_safe(s: SimState)
    requires
        sim_state_wf(s),
    ensures
        outcome_ok(top_outcome(s)),
{
    reveal(top_outcome);
    if !s.all_red_hold_enabled && !s.manual_control_enabled {
        lemma_ped_blinking_safe(ped_green_entered(s));
    }
    if s.phase == Phase::VehicleGreen {
        lemma_veh_blinking_safe(s);
    }
    if s.phase == Phase::VehicleYellow {
        lemma_vehicle_yellow_safe(s);
    }
}

proof fn lemma_vehicle_yellow_safe(s: SimState)
    requires
        sim_state_wf(s),
        s.phase == Phase::VehicleGreen || s.phase == Phase::VehicleYellow,
    ensures
        outcome_ok(vehicle_yellow_outcome(s)),
{
    reveal(vehicle_yellow_outcome);
}

proof fn lemma_ped_blinking_safe(s: SimState)
    requires
        sim_state_wf(s),
        s.phase == Phase::PedestrianGreen || s.phase == Phase::PedestrianGreenExtension,
    ensures
        outcome_ok(ped_blinking_outcome(s)),
{
    reveal(ped_blinking_outcome);
}

proof fn lemma_second_solid_safe(s: SimState, back_to_basic: bool)
    requires
        sim_state_wf(s),
        s.phase == Phase::PedestrianGreen || s.phase == Phase::PedestrianGreenExtension,
        !back_to_basic ==> s.phase == Phase::PedestrianGreen,
    ensures
        outcome_ok(second_solid_outcome(s, back_to_basic)),
{
    reveal(second_solid_outcome);
    lemma_ped_blinking_safe(s);
}

proof fn lemma_extension_safe(s: SimState, auto_ext_ms: u64)
    requires
        sim_state_wf(s),
        s.phase == Phase::PedestrianGreen,
        auto_ext_ms <= T_MAX_MS,
    ensures
        outcome_ok(extension_outcome(s, auto_ext_ms)),
{
    reveal(extension_outcome);
    let ext = match s.manual_ped_ext_ms {
        Some(e) => e,
        None => auto_ext_ms,
    };
    lemma_second_solid_safe(SimState { manual_ped_ext_ms: None, ped_extension_ms: ext, ..s }, false);
}

proof fn lemma_all_red_before_vehicle_safe(s: SimState)
    requires
        sim_state_wf(s),
        s.phase == Phase::PedestrianGreen || s.phase == Phase::PedestrianGreenExtension,
    ensures
        outcome_ok(all_red_before_vehicle_outcome(s)),
{
    reveal(all_red_before_vehicle_outcome);
}

proof fn lemma_veh_blinking_safe(s: SimState)
    requires
        sim_state_wf(s),
        s.phase == Phase::VehicleGreen,
    ensures
        outcome_ok(veh_blinking_outcome(s)),
{
    reveal(veh_blinking_outcome);
}

proof fn lemma_vehicle_green_safe(s: SimState)
    requires
        sim_state_wf(s),
        s.phase == Phase::AllRedBeforeVehicle,
        !s.all_red_hold_enabled,
    ensures
        outcome_ok(vehicle_green_outcome(s)),
{
    reveal(vehicle_green_outcome);
    let s1 = lit_veh(
        SimState {
            phase: Phase::VehicleGreen,
            veh_blinking: false,
            countdown_ms: VEH_SOLID_MS,
            blink_on: true,
            ..s
        },
        TrafficSign::Green,
        LightState::Solid,
    );
    lemma_veh_blinking_safe(s1);
}

proof fn lemma_after_all_red_safe(s: SimState, before_vehicle: bool)
    requires
        sim_state_wf(s),
        before_vehicle ==> s.phase == Phase::AllRedBeforeVehicle,
        !before_vehicle ==> s.phase == Phase::AllRedBeforePedestrian,
    ensures
        outcome_ok(after_all_red_outcome(s, before_vehicle)),
{
    reveal(after_all_red_outcome);
    let s1 = SimState { exiting_manual_mode: false, ..s };
    if s1.transitioning_to_all_red {
        lemma_top_safe(SimState { transitioning_to_all_red: false, all_red_hold_enabled: true, ..s1 });
    } else if s1.all_red_hold_enabled {
        lemma_top_safe(s1);
    } else if before_vehicle {
        lemma_vehicle_green_safe(s1);
    } else {
        lemma_top_safe(SimState { cycle_count: (s1.cycle_count + 1) as u32, ..s1 });
    }
}

proof fn lemma_all_red_before_ped_safe(s: SimState)
    requires
        sim_state_wf(s),
        s.phase == Phase::VehicleGreen || s.phase == Phase::VehicleYellow,
    ensures
        outcome_ok(all_red_before_ped_outcome(s)),
{
    reveal(all_red_before_ped_outcome);
}

proof fn lemma_after_vehicle_blinking_safe(s: SimState)
    requires
        sim_state_wf(s),
        s.phase == Phase::VehicleGreen,
    ensures
        outcome_ok(after_vehicle_blinking_outcome(s)),
{
    reveal(after_vehicle_blinking_outcome);
    let s1 = if s.all_red_after_blinking {
        SimState {
            all_red_after_blinking: false,
            veh_blinking: false,
            transitioning_to_all_red: if s.need_yellow_before_all_red {
                s.transitioning_to_all_red
            } else {
                true
            },
            ..s
        }
    } else {
        s
    };
    lemma_all_red_before_ped_safe(s1);
    lemma_vehicle_yellow_safe(s1);
}

proof fn lemma_after_vehicle_yellow_safe(s: SimState)
    requires
        sim_state_wf(s),
        s.phase == Phase::VehicleYellow,
    ensures
        outcome_ok(after_vehicle_yellow_outcome(s)),
{
    reveal(after_vehicle_yellow_outcome);
    let s1 = if s.need_yellow_before_all_red {
        SimState { need_yellow_before_all_red: false, transitioning_to_all_red: true, ..s }
    } else {
        s
    };
    lemma_all_red_before_ped_safe(s1);
}

/// The safety law of the cycle: from a resume point whose phase is right, one
/// decision keeps pedestrians off yellow, never releases pedestrians and
/// vehicles together, keeps the lights in agreement with the phase, resumes
/// at a point whose phase is right, and asks only for sleeps that a timer
/// can run.
pub proof fn lemma_loop_step_safe(s: SimState, p: LoopPoint, auto_ext_ms: u64)
    requires
        sim_state_wf(s),
        point_ok(s, p),
        auto_ext_ms <= T_MAX_MS,
    ensures
        outcome_ok(loop_step_outcome(s, p, auto_ext_ms)),
{
    reveal(loop_step_outcome);
    lemma_top_safe(s);
    if p != LoopPoint::Top && !s.manual_control_enabled {
        match p {
            LoopPoint::AfterFirstHalf => {
                lemma_ped_blinking_safe(s);
                lemma_extension_safe(s, auto_ext_ms);
            },
            LoopPoint::AfterExtension => {
                lemma_ped_blinking_safe(s);
                lemma_second_solid_safe(s, true);
            },
            LoopPoint::AfterSecondSolid => lemma_ped_blinking_safe(s),
            LoopPoint::AfterPedBlinking => lemma_all_red_before_vehicle_safe(s),
            LoopPoint::AfterAllRedBeforeVehicle => lemma_after_all_red_safe(s, true),
            LoopPoint::AfterVehicleSolid => lemma_veh_blinking_safe(s),
            LoopPoint::AfterVehicleBlinking => lemma_after_vehicle_blinking_safe(s),
            LoopPoint::AfterVehicleYellow => lemma_after_vehicle_yellow_safe(s),
            LoopPoint::AfterAllRedBeforePedestrian => lemma_after_all_red_safe(s, false),
            LoopPoint::Top => {},
        }
    }
}

fn enter_ped_blinking(state: &mut SimState) -> (r: (LoopPoint, LoopAction))
    ensures
        *final(state) == ped_blinking_outcome(*old(state)).0,
        r == (ped_blinking_outcome(*old(state)).1, ped_blinking_outcome(*old(state)).2),
{
    reveal(ped_blinking_outcome);
    state.ped_blinking = true;
    state.countdown_ms = PED_GREEN_BLINKING_MS;
    state.traffic_light.set_sig(TrafficLightPosition::Ped1, TrafficSign::Green, LightState::Blinking);
    (LoopPoint::AfterPedBlinking, LoopAction::Sleep(PED_GREEN_BLINKING_MS))
}

fn enter_ped_green(state: &mut SimState)
    ensures
        *final(state) == ped_green_entered(*old(state)),
{
    state.phase = Phase::PedestrianGreen;
    state.ped_blinking = false;
    state.veh_blinking = false;
    state.countdown_ms = HALF_PED_GREEN_MS;
    state.blink_on = true;
    state.traffic_light.set_sig(TrafficLightPosition::Ped1, TrafficSign::Green, LightState::Solid);
    state.traffic_light.set_sig(TrafficLightPosition::Veh1, TrafficSign::Red, LightState::Solid);
}

fn top_of_cycle(state: &mut SimState) -> (r: (LoopPoint, LoopAction))
    ensures
        *final(state) == top_outcome(*old(state)).0,
        r == (top_outcome(*old(state)).1, top_outcome(*old(state)).2),
{
    reveal(top_outcome);
    if state.all_red_hold_enabled {
        (LoopPoint::Top, LoopAction::Hold)
    } else if state.manual_control_enabled {
        if state.manual_switch_phase {
            (LoopPoint::Top, LoopAction::ManualTransition)
        } else {
            (LoopPoint::Top, LoopAction::Hold)
        }
    } else if state.phase == Phase::VehicleGreen {
        enter_veh_blinking(state)
    } else if state.phase == Phase::VehicleYellow {
        enter_vehicle_yellow(state)
    } else {
        enter_ped_green(state);
        let skip_to_ped_blinking = (state.exiting_manual_mode || state.transitioning_to_all_red)
            && !state.all_red_after_blinking;
        if skip_to_ped_blinking {
            enter_ped_blinking(state)
        } else {
            (LoopPoint::AfterFirstHalf, LoopAction::Sleep(HALF_PED_GREEN_MS))
        }
    }
}

fn enter_second_solid(state: &mut SimState, back_to_basic: bool) -> (r: (LoopPoint, LoopAction))
    ensures
        *final(state) == second_solid_outcome(*old(state), back_to_basic).0,
        r == (second_solid_outcome(*old(state), back_to_basic).1, second_solid_outcome(*old(state), back_to_basic).2),
{
    reveal(second_solid_outcome);
    let second_solid = SECOND_SOLID_MS;
    if second_solid > 0 {
        state.phase = if back_to_basic { Phase::PedestrianGreen } else { state.phase };
        state.countdown_ms = second_solid;
        (LoopPoint::AfterSecondSolid, LoopAction::Sleep(second_solid))
    } else {
        enter_ped_blinking(state)
    }
}

fn take_extension(state: &mut SimState, auto_ext_ms: u64) -> (ext: u64)
    ensures
        ext == (match old(state).manual_ped_ext_ms {
            Some(e) => e,
            None => auto_ext_ms,
        }),
        *final(state) == (SimState { manual_ped_ext_ms: None, ped_extension_ms: ext, ..*old(state) }),
{
    let queued = state.manual_ped_ext_ms;
    let ext = match queued {
        Some(e) => e,
        None => auto_ext_ms,
    };
    state.manual_ped_ext_ms = None;
    state.ped_extension_ms = ext;
    ext
}

fn apply_extension(state: &mut SimState, auto_ext_ms: u64) -> (r: (LoopPoint, LoopAction))
    ensures
        *final(state) == extension_outcome(*old(state), auto_ext_ms).0,
        r == (extension_outcome(*old(state), auto_ext_ms).1, extension_outcome(*old(state), auto_ext_ms).2),
{
    let ghost s0 = *state;
    let ped_ext = take_extension(state, auto_ext_ms);
    let ghost s1 = *state;
    proof {
        reveal(extension_outcome);
        assert(s1 == (SimState { manual_ped_ext_ms: None, ped_extension_ms: ped_ext, ..s0 }));
    }
    if ped_ext > MIN_APPLIED_EXTENSION_MS {
        state.phase = Phase::PedestrianGreenExtension;
        state.countdown_ms = ped_ext;
        proof {
            reveal(extension_outcome);
        }
        (LoopPoint::AfterExtension, LoopAction::Sleep(ped_ext))
    } else {
        proof {
            reveal(extension_outcome);
            assert(extension_outcome(s0, auto_ext_ms) == second_solid_outcome(s1, false));
        }
        enter_second_solid(state, false)
    }
}

fn enter_all_red_before_vehicle(state: &mut SimState) -> (r: (LoopPoint, LoopAction))
    ensures
        *final(state) == all_red_before_vehicle_outcome(*old(state)).0,
        r == (all_red_before_vehicle_outcome(*old(state)).1, all_red_before_vehicle_outcome(*old(state)).2),
{
    reveal(all_red_before_vehicle_outcome);
    if state.all_red_after_blinking {
        state.all_red_after_blinking = false;
        state.transitioning_to_all_red = true;
        state.ped_blinking = false;
    }
    state.phase = Phase::AllRedBeforeVehicle;
    state.ped_blinking = false;
    state.countdown_ms = ALL_RED_MS;
    state.traffic_light.set_sig(TrafficLightPosition::Ped1, TrafficSign::Red, LightState::Solid);
    (LoopPoint::AfterAllRedBeforeVehicle, LoopAction::Sleep(ALL_RED_MS))
}

fn enter_veh_blinking(state: &mut SimState) -> (r: (LoopPoint, LoopAction))
    ensures
        *final(state) == veh_blinking_outcome(*old(state)).0,
        r == (veh_blinking_outcome(*old(state)).1, veh_blinking_outcome(*old(state)).2),
{
    reveal(veh_blinking_outcome);
    state.veh_blinking = true;
    state.countdown_ms = VEH_GREEN_BLINKING_MS;
    state.traffic_light.set_sig(TrafficLightPosition::Veh1, TrafficSign::Green, LightState::Blinking);
    (LoopPoint::AfterVehicleBlinking, LoopAction::Sleep(VEH_GREEN_BLINKING_MS))
}

fn enter_vehicle_green(state: &mut SimState) -> (r: (LoopPoint, LoopAction))
    ensures
        *final(state) == vehicle_green_outcome(*old(state)).0,
        r == (vehicle_green_outcome(*old(state)).1, vehicle_green_outcome(*old(state)).2),
{
    reveal(vehicle_green_outcome);
    state.phase = Phase::VehicleGreen;
    state.veh_blinking = false;
    state.countdown_ms = VEH_SOLID_MS;
    state.blink_on = true;
    state.traffic_light.set_sig(TrafficLightPosition::Veh1, TrafficSign::Green, LightState::Solid);
    let skip_to_veh_blinking = state.exiting_manual_mode;
    if skip_to_veh_blinking {
        enter_veh_blinking(state)
    } else {
        (LoopPoint::AfterVehicleSolid, LoopAction::Sleep(VEH_SOLID_MS))
    }
}

fn clear_exiting(state: &mut SimState)
    ensures
        *final(state) == (SimState { exiting_manual_mode: false, ..*old(state) }),
{
    state.exiting_manual_mode = false;
}

fn begin_all_red_hold(state: &mut SimState)
    ensures
        *final(state) == (SimState { transitioning_to_all_red: false, all_red_hold_enabled: true, ..*old(state) }),
{
    state.transitioning_to_all_red = false;
    state.all_red_hold_enabled = true;
}

fn count_cycle(state: &mut SimState)
    requires
        old(state).cycle_count < u32::MAX,
    ensures
        *final(state) == (SimState { cycle_count: (old(state).cycle_count + 1) as u32, ..*old(state) }),
{
    state.cycle_count = state.cycle_count + 1;
}

#[verifier::rlimit(30)]
fn finish_all_red(state: &mut SimState, before_vehicle: bool) -> (r: (LoopPoint, LoopAction))
    requires
        !before_vehicle ==> old(state).cycle_count < u32::MAX,
    ensures
        *final(state) == after_all_red_outcome(*old(state), before_vehicle).0,
        r == (after_all_red_outcome(*old(state), before_vehicle).1, after_all_red_outcome(*old(state), before_vehicle).2),
{
    reveal(after_all_red_outcome);
    clear_exiting(state);
    if state.transitioning_to_all_red {
        begin_all_red_hold(state);
        top_of_cycle(state)
    } else if state.all_red_hold_enabled {
        top_of_cycle(state)
    } else if before_vehicle {
        enter_vehicle_green(state)
    } else {
        count_cycle(state);
        top_of_cycle(state)
    }
}

fn enter_all_red_before_pedestrian(state: &mut SimState) -> (r: (LoopPoint, LoopAction))
    ensures
        *final(state) == all_red_before_ped_outcome(*old(state)).0,
        r == (all_red_before_ped_outcome(*old(state)).1, all_red_before_ped_outcome(*old(state)).2),
{
    reveal(all_red_before_ped_outcome);
    state.phase = Phase::AllRedBeforePedestrian;
    state.countdown_ms = ALL_RED_MS;
    state.traffic_light.set_sig(TrafficLightPosition::Veh1, TrafficSign::Red, LightState::Solid);
    (LoopPoint::AfterAllRedBeforePedestrian, LoopAction::Sleep(ALL_RED_MS))
}

fn enter_vehicle_yellow(state: &mut SimState) -> (r: (LoopPoint, LoopAction))
    ensures
        *final(state) == vehicle_yellow_outcome(*old(state)).0,
        r == (vehicle_yellow_outcome(*old(state)).1, vehicle_yellow_outcome(*old(state)).2),
{
    reveal(vehicle_yellow_outcome);
    state.phase = Phase::VehicleYellow;
    state.veh_blinking = false;
    state.countdown_ms = VEH_YELLOW_MS;
    state.traffic_light.set_sig(TrafficLightPosition::Veh1, TrafficSign::Yellow, LightState::Solid);
    (LoopPoint::AfterVehicleYellow, LoopAction::Sleep(VEH_YELLOW_MS))
}

fn finish_vehicle_blinking(state: &mut SimState) -> (r: (LoopPoint, LoopAction))
    ensures
        *final(state) == after_vehicle_blinking_outcome(*old(state)).0,
        r == (after_vehicle_blinking_outcome(*old(state)).1, after_vehicle_blinking_outcome(*old(state)).2),
{
    reveal(after_vehicle_blinking_outcome);
    if state.all_red_after_blinking {
        state.all_red_after_blinking = false;
        state.veh_blinking = false;
        if !state.need_yellow_before_all_red {
            state.transitioning_to_all_red = true;
        }
    }
    if state.transitioning_to_all_red {
        enter_all_red_before_pedestrian(state)
    } else {
        enter_vehicle_yellow(state)
    }
}

fn finish_vehicle_yellow(state: &mut SimState) -> (r: (LoopPoint, LoopAction))
    ensures
        *final(state) == after_vehicle_yellow_outcome(*old(state)).0,
        r == (after_vehicle_yellow_outcome(*old(state)).1, after_vehicle_yellow_outcome(*old(state)).2),
{
    reveal(after_vehicle_yellow_outcome);
    if state.need_yellow_before_all_red {
        state.need_yellow_before_all_red = false;
        state.transitioning_to_all_red = true;
    }
    enter_all_red_before_pedestrian(state)
}

/// One decision of the automatic cycle, resuming at `point` once the driver
/// has carried out the previous action. `auto_ext_ms` is the extension to
/// use when none has been queued by the operator. Returns where to resume
/// and what to do meanwhile. The crossing stays safe (`lemma_loop_step_safe`).
pub fn sim_loop_step(state: &mut SimState, point: LoopPoint, auto_ext_ms: u64) -> (r: (LoopPoint, LoopAction))
    requires
        point == LoopPoint::AfterAllRedBeforePedestrian ==> old(state).cycle_count < u32::MAX,
    ensures
        *final(state) == loop_step_outcome(*old(state), point, auto_ext_ms).0,
        r == (loop_step_outcome(*old(state), point, auto_ext_ms).1, loop_step_outcome(*old(state), point, auto_ext_ms).2),
        sim_state_wf(*old(state)) && point_ok(*old(state), point) && auto_ext_ms <= T_MAX_MS
            ==> sim_state_wf(*final(state)) && point_ok(*final(state), r.0) && action_ok(r.1),
{
    reveal(loop_step_outcome);
    proof {
        if sim_state_wf(*old(state)) && point_ok(*old(state), point) && auto_ext_ms <= T_MAX_MS {
            lemma_loop_step_safe(*old(state), point, auto_ext_ms);
        }
    }
    if point == LoopPoint::Top || state.manual_control_enabled {
        return top_of_cycle(state);
    }
    match point {
        LoopPoint::AfterFirstHalf => {
            if state.transitioning_to_all_red || state.all_red_after_blinking {
                enter_ped_blinking(state)
            } else {
                apply_extension(state, auto_ext_ms)
            }
        },
        LoopPoint::AfterExtension => {
            if state.transitioning_to_all_red || state.all_red_after_blinking {
                enter_ped_blinking(state)
            } else {
                enter_second_solid(state, true)
            }
        },
        LoopPoint::AfterSecondSolid => enter_ped_blinking(state),
        LoopPoint::AfterPedBlinking => enter_all_red_before_vehicle(state),
        LoopPoint::AfterAllRedBeforeVehicle => finish_all_red(state, true),
        LoopPoint::AfterVehicleSolid => enter_veh_blinking(state),
        LoopPoint::AfterVehicleBlinking => finish_vehicle_blinking(state),
        LoopPoint::AfterVehicleYellow => finish_vehicle_yellow(state),
        LoopPoint::AfterAllRedBeforePedestrian => finish_all_red(state, false),
        LoopPoint::Top => top_of_cycle(state),
    }
}


/// Automatic operation: no manual control, no all-red hold, and nothing
/// under way towards either.
pub open spec fn auto_mode(s: SimState) -> bool {
    &&& !s.manual_control_enabled
    &&& !s.all_red_hold_enabled
    &&& !s.exiting_manual_mode
    &&& !s.transitioning_to_all_red
    &&& !s.all_red_after_blinking
    &&& !s.need_yellow_before_all_red
}

/// The heads show `ped` and `veh`.
pub open spec fn heads(s: SimState, ped: (TrafficSign, LightState), veh: (TrafficSign, LightState)) -> bool {
    s.traffic_light.sig_ped == ped && s.traffic_light.sig_veh == veh
}

/// The cycle law of automatic operation without an extension: from the top
/// of the cycle, the steps go pedestrian green (half the basic time, then
/// the solid rest, then blinking), all red, vehicle green (solid, then
/// blinking), yellow, all red, and back to pedestrian green, with these
/// lights and durations; the cycle count grows by exactly one, at the end.
pub proof fn lemma_auto_cycle(s: SimState, e: u64)
    requires
        auto_mode(s),
        s.manual_ped_ext_ms is None,
        e <= MIN_APPLIED_EXTENSION_MS,
        s.phase == Phase::PedestrianGreen || s.phase == Phase::AllRedBeforePedestrian,
        s.cycle_count < u32::MAX,
    ensures
        ({
            let o1 = loop_step_outcome(s, LoopPoint::Top, e);
            let o2 = loop_step_outcome(o1.0, o1.1, e);
            let o3 = loop_step_outcome(o2.0, o2.1, e);
            let o4 = loop_step_outcome(o3.0, o3.1, e);
            let o5 = loop_step_outcome(o4.0, o4.1, e);
            let o6 = loop_step_outcome(o5.0, o5.1, e);
            let o7 = loop_step_outcome(o6.0, o6.1, e);
            let o8 = loop_step_outcome(o7.0, o7.1, e);
            let o9 = loop_step_outcome(o8.0, o8.1, e);
            &&& o1.0.phase == Phase::PedestrianGreen && o1.1 == LoopPoint::AfterFirstHalf
                && o1.2 == LoopAction::Sleep(HALF_PED_GREEN_MS)
                && heads(o1.0, (TrafficSign::Green, LightState::Solid), (TrafficSign::Red, LightState::Solid))
            &&& o2.0.phase == Phase::PedestrianGreen && o2.1 == LoopPoint::AfterSecondSolid
                && o2.2 == LoopAction::Sleep(SECOND_SOLID_MS) && o2.0.ped_extension_ms == e
                && heads(o2.0, (TrafficSign::Green, LightState::Solid), (TrafficSign::Red, LightState::Solid))
            &&& o3.0.phase == Phase::PedestrianGreen && o3.1 == LoopPoint::AfterPedBlinking
                && o3.2 == LoopAction::Sleep(PED_GREEN_BLINKING_MS)
                && heads(o3.0, (TrafficSign::Green, LightState::Blinking), (TrafficSign::Red, LightState::Solid))
            &&& o4.0.phase == Phase::AllRedBeforeVehicle && o4.1 == LoopPoint::AfterAllRedBeforeVehicle
                && o4.2 == LoopAction::Sleep(ALL_RED_MS)
                && heads(o4.0, (TrafficSign::Red, LightState::Solid), (TrafficSign::Red, LightState::Solid))
            &&& o5.0.phase == Phase::VehicleGreen && o5.1 == LoopPoint::AfterVehicleSolid
                && o5.2 == LoopAction::Sleep(VEH_SOLID_MS)
                && heads(o5.0, (TrafficSign::Red, LightState::Solid), (TrafficSign::Green, LightState::Solid))
            &&& o6.0.phase == Phase::VehicleGreen && o6.1 == LoopPoint::AfterVehicleBlinking
                && o6.2 == LoopAction::Sleep(VEH_GREEN_BLINKING_MS)
                && heads(o6.0, (TrafficSign::Red, LightState::Solid), (TrafficSign::Green, LightState::Blinking))
            &&& o7.0.phase == Phase::VehicleYellow && o7.1 == LoopPoint::AfterVehicleYellow
                && o7.2 == LoopAction::Sleep(VEH_YELLOW_MS)
                && heads(o7.0, (TrafficSign::Red, LightState::Solid), (TrafficSign::Yellow, LightState::Solid))
            &&& o8.0.phase == Phase::AllRedBeforePedestrian && o8.1 == LoopPoint::AfterAllRedBeforePedestrian
                && o8.2 == LoopAction::Sleep(ALL_RED_MS)
                && heads(o8.0, (TrafficSign::Red, LightState::Solid), (TrafficSign::Red, LightState::Solid))
            &&& o9.0.phase == Phase::PedestrianGreen && o9.1 == LoopPoint::AfterFirstHalf
                && o9.2 == LoopAction::Sleep(HALF_PED_GREEN_MS)
                && heads(o9.0, (TrafficSign::Green, LightState::Solid), (TrafficSign::Red, LightState::Solid))
            &&& o1.0.cycle_count == s.cycle_count && o2.0.cycle_count == s.cycle_count
            &&& o3.0.cycle_count == s.cycle_count && o4.0.cycle_count == s.cycle_count
            &&& o5.0.cycle_count == s.cycle_count && o6.0.cycle_count == s.cycle_count
            &&& o7.0.cycle_count == s.cycle_count && o8.0.cycle_count == s.cycle_count
            &&& o9.0.cycle_count == s.cycle_count + 1
            &&& auto_mode(o9.0)
        }),
{
    reveal(loop_step_outcome);
    reveal(top_outcome);
    reveal(extension_outcome);
    reveal(second_solid_outcome);
    reveal(ped_blinking_outcome);
    reveal(all_red_before_vehicle_outcome);
    reveal(after_all_red_outcome);
    reveal(vehicle_green_outcome);
    reveal(veh_blinking_outcome);
    reveal(after_vehicle_blinking_outcome);
    reveal(vehicle_yellow_outcome);
    reveal(after_vehicle_yellow_outcome);
    reveal(all_red_before_ped_outcome);
}

/// With an extension longer than `MIN_APPLIED_EXTENSION_MS` in automatic
/// operation, the pedestrian green is its first half, then the extension
/// (in the extended phase), then the solid rest, then the blinking, and
/// the extension is recorded; a queued manual extension is used first and
/// consumed.
pub proof fn lemma_auto_extension(s: SimState, e: u64)
    requires
        auto_mode(s),
        s.phase == Phase::PedestrianGreen || s.phase == Phase::AllRedBeforePedestrian,
        (match s.manual_ped_ext_ms {
            Some(q) => q,
            None => e,
        }) > MIN_APPLIED_EXTENSION_MS,
    ensures
        ({
            let x = match s.manual_ped_ext_ms {
                Some(q) => q,
                None => e,
            };
            let o1 = loop_step_outcome(s, LoopPoint::Top, e);
            let o2 = loop_step_outcome(o1.0, o1.1, e);
            let o3 = loop_step_outcome(o2.0, o2.1, e);
            let o4 = loop_step_outcome(o3.0, o3.1, e);
            &&& o1.0.phase == Phase::PedestrianGreen && o1.2 == LoopAction::Sleep(HALF_PED_GREEN_MS)
            &&& o2.0.phase == Phase::PedestrianGreenExtension && o2.1 == LoopPoint::AfterExtension
                && o2.2 == LoopAction::Sleep(x) && o2.0.ped_extension_ms == x && o2.0.manual_ped_ext_ms is None
            &&& o3.0.phase == Phase::PedestrianGreen && o3.1 == LoopPoint::AfterSecondSolid
                && o3.2 == LoopAction::Sleep(SECOND_SOLID_MS)
            &&& o4.0.phase == Phase::PedestrianGreen && o4.1 == LoopPoint::AfterPedBlinking
                && o4.2 == LoopAction::Sleep(PED_GREEN_BLINKING_MS)
            &&& heads(o2.0, (TrafficSign::Green, LightState::Solid), (TrafficSign::Red, LightState::Solid))
            &&& heads(o3.0, (TrafficSign::Green, LightState::Solid), (TrafficSign::Red, LightState::Solid))
            &&& heads(o4.0, (TrafficSign::Green, LightState::Blinking), (TrafficSign::Red, LightState::Solid))
        }),
{
    reveal(loop_step_outcome);
    reveal(top_outcome);
    reveal(extension_outcome);
    reveal(second_solid_outcome);
    reveal(ped_blinking_outcome);
}

/// The extension law of the cycle: at the end of the first half of the
/// pedestrian green, in automatic operation, an extension queued by the
/// operator wins over the automatic one and is consumed; the extension
/// taken is recorded, and one longer than `MIN_APPLIED_EXTENSION_MS` is
/// waited out in full, in the extended phase, before the rest of the green.
pub proof fn lemma_queued_extension_wins(s: SimState, auto_ext_ms: u64)
    requires
        !s.manual_control_enabled,
        !s.transitioning_to_all_red,
        !s.all_red_after_blinking,
    ensures
        ({
            let o = loop_step_outcome(s, LoopPoint::AfterFirstHalf, auto_ext_ms);
            let e = if s.manual_ped_ext_ms is Some { s.manual_ped_ext_ms->0 } else { auto_ext_ms };
            &&& o.0.ped_extension_ms == e
            &&& o.0.manual_ped_ext_ms is None
            &&& e > MIN_APPLIED_EXTENSION_MS ==> (o.1 == LoopPoint::AfterExtension && o.2 == LoopAction::Sleep(e)
                && o.0.countdown_ms == e && o.0.phase == Phase::PedestrianGreenExtension)
            &&& e <= MIN_APPLIED_EXTENSION_MS ==> (o.1 == LoopPoint::AfterSecondSolid && o.2 == LoopAction::Sleep(
                (PHASE_BASIC_PED_GREEN_MS / 2 - PED_GREEN_BLINKING_MS) as u64))
            &&& o.0.traffic_light == s.traffic_light
        }),
{
    reveal(loop_step_outcome);
    reveal(extension_outcome);
    reveal(second_solid_outcome);
}

/// One press of Next Phase gives one phase change: a manual phase change
/// that ends (no next stage) always leaves the request cleared, so the top
/// of the cycle does not start another.
pub proof fn lemma_manual_change_clears_request(s: SimState, st: ManualStage)
    ensures
        manual_step_outcome(s, st).1 is None ==> !manual_step_outcome(s, st).0.manual_switch_phase,
        manual_step_outcome(s, st).1 is None && manual_step_outcome(s, st).0.manual_control_enabled
            && !manual_step_outcome(s, st).0.all_red_hold_enabled ==> top_outcome(manual_step_outcome(s, st).0)
            == (manual_step_outcome(s, st).0, LoopPoint::Top, LoopAction::Hold),
{
    reveal(manual_start_outcome);
    reveal(manual_ped_blinked_outcome);
    reveal(manual_ped_cleared_outcome);
    reveal(manual_veh_blinked_outcome);
    reveal(manual_veh_yellowed_outcome);
    reveal(manual_veh_cleared_outcome);
    reveal(top_outcome);
}

/// Simulated time runs at the chosen multiple of real time: one real tick of
/// `TICK_MS` adds half of it at 0.5x, all of it at 1x, twice it at 2x and
/// four times it at 4x.
pub proof fn lemma_speed_multiplies_tick()
    ensures
        speed_delta(SimSpeed::Half) * 2 == TICK_MS,
        speed_delta(SimSpeed::Normal) == TICK_MS,
        speed_delta(SimSpeed::Double) == 2 * TICK_MS,
        speed_delta(SimSpeed::Quadruple) == 4 * TICK_MS,
        forall|s: SimState, t: SleepTimer| #![trigger advanced(s, t)]
            timer_running(t) ==> advanced(s, t).1.elapsed_ms == t.elapsed_ms + speed_delta(s.speed)
                && advanced(s, t).0.countdown_ms == (if t.elapsed_ms + speed_delta(s.speed) <= t.target_ms {
                t.target_ms - t.elapsed_ms - speed_delta(s.speed)
            } else {
                0
            }),
{
}

/// The derived interval lengths agree with the configuration.
pub proof fn lemma_interval_lengths()
    ensures
        HALF_PED_GREEN_MS == PHASE_BASIC_PED_GREEN_MS / 2,
        SECOND_SOLID_MS == HALF_PED_GREEN_MS - PED_GREEN_BLINKING_MS,
        VEH_SOLID_MS == PHASE_BASIC_VEH_GREEN_MS - VEH_GREEN_BLINKING_MS,
{
}


/// Progress of a manual phase change.
#[derive(Debug, Clone, Copy, PartialEq, Eq, Structural)]
pub enum ManualStage {
    /// Not started: decide whether the current phase can be changed.
    Start,
    /// Pedestrian green has blinked.
    PedBlinked,
    /// Pedestrians are red; the all-red interval has passed.
    PedCleared,
    /// Vehicle green has blinked.
    VehBlinked,
    /// The vehicle yellow has passed.
    VehYellowed,
    /// Vehicles are red; the all-red interval has passed.
    VehCleared,
}

/// The phase that a manual change has reached at each stage.
pub open spec fn stage_ok(s: SimState, st: ManualStage) -> bool {
    match st {
        ManualStage::Start => true,
        ManualStage::PedBlinked => s.phase == Phase::PedestrianGreen,
        ManualStage::PedCleared => s.phase == Phase::AllRedBeforeVehicle,
        ManualStage::VehBlinked => s.phase == Phase::VehicleGreen,
        ManualStage::VehYellowed => s.phase == Phase::VehicleYellow,
        ManualStage::VehCleared => s.phase == Phase::AllRedBeforePedestrian,
    }
}

#[verifier::opaque]
pub open spec fn manual_start_outcome(s: SimState) -> (SimState, Option<(ManualStage, u64)>) {
    if s.phase == Phase::PedestrianGreen && ped_sign(s) == TrafficSign::Green
        && veh_sign(s) == TrafficSign::Red {
        (
            lit_ped(
                SimState { ped_blinking: true, countdown_ms: PED_GREEN_BLINKING_MS, ..s },
                TrafficSign::Green,
                LightState::Blinking,
            ),
            Some((ManualStage::PedBlinked, PED_GREEN_BLINKING_MS)),
        )
    } else if s.phase == Phase::VehicleGreen && ped_sign(s) == TrafficSign::Red && veh_sign(s)
        == TrafficSign::Green {
        (
            lit_veh(
                SimState { veh_blinking: true, countdown_ms: VEH_GREEN_BLINKING_MS, ..s },
                TrafficSign::Green,
                LightState::Blinking,
            ),
            Some((ManualStage::VehBlinked, VEH_GREEN_BLINKING_MS)),
        )
    } else {
        (SimState { manual_switch_phase: false, ..s }, None)
    }
}

#[verifier::opaque]
pub open spec fn manual_ped_blinked_outcome(s: SimState) -> (SimState, Option<(ManualStage, u64)>) {
    (
        lit_ped(
            SimState {
                ped_blinking: false,
                phase: Phase::AllRedBeforeVehicle,
                countdown_ms: ALL_RED_MS,
                ..s
            },
            TrafficSign::Red,
            LightState::Solid,
        ),
        Some((ManualStage::PedCleared, ALL_RED_MS)),
    )
}

#[verifier::opaque]
pub open spec fn manual_ped_cleared_outcome(s: SimState) -> (SimState, Option<(ManualStage, u64)>) {
    (
        lit_veh(
            SimState {
                phase: Phase::VehicleGreen,
                veh_blinking: false,
                countdown_ms: 0,
                manual_switch_phase: false,
                ..s
            },
            TrafficSign::Green,
            LightState::Solid,
        ),
        None,
    )
}

#[verifier::opaque]
pub open spec fn manual_veh_blinked_outcome(s: SimState) -> (SimState, Option<(ManualStage, u64)>) {
    (
        lit_veh(
            SimState {
                veh_blinking: false,
                phase: Phase::VehicleYellow,
                countdown_ms: VEH_YELLOW_MS,
                ..s
            },
            TrafficSign::Yellow,
            LightState::Solid,
        ),
        Some((ManualStage::VehYellowed, VEH_YELLOW_MS)),
    )
}

#[verifier::opaque]
pub open spec fn manual_veh_yellowed_outcome(s: SimState) -> (SimState, Option<(ManualStage, u64)>) {
    (
        lit_veh(
            SimState { phase: Phase::AllRedBeforePedestrian, countdown_ms: ALL_RED_MS, ..s },
            TrafficSign::Red,
            LightState::Solid,
        ),
        Some((ManualStage::VehCleared, ALL_RED_MS)),
    )
}

#[verifier::opaque]
pub open spec fn manual_veh_cleared_outcome(s: SimState) -> (SimState, Option<(ManualStage, u64)>) {
    (
        lit_ped(
            SimState {
                phase: Phase::PedestrianGreen,
                ped_blinking: false,
                countdown_ms: 0,
                manual_switch_phase: false,
                ..s
            },
            TrafficSign::Green,
            LightState::Solid,
        ),
        None,
    )
}

/// One stage of a manual phase change: pedestrian green goes through
/// blinking and all red to vehicle green; vehicle green goes through
/// blinking, yellow and all red to pedestrian green; from any other phase or
/// signal combination the request is dropped. Once manual control has been
/// switched off (or the all-red hold is on), every stage after the first
/// ends the change at once,
/// dropping the request and changing nothing else. Returns the next stage
/// and the interval to wait first, or `None` once the change is over.
pub open spec fn manual_step_outcome(s: SimState, st: ManualStage) -> (SimState, Option<(ManualStage, u64)>) {
    if st != ManualStage::Start && (!s.manual_control_enabled || s.all_red_hold_enabled) {
        (SimState { manual_switch_phase: false, ..s }, None)
    } else {
        manual_stage_outcome(s, st)
    }
}

/// The work of one stage of a manual phase change.
pub open spec fn manual_stage_outcome(s: SimState, st: ManualStage) -> (SimState, Option<(ManualStage, u64)>) {
    match st {
        ManualStage::Start => manual_start_outcome(s),
        ManualStage::PedBlinked => manual_ped_blinked_outcome(s),
        ManualStage::PedCleared => manual_ped_cleared_outcome(s),
        ManualStage::VehBlinked => manual_veh_blinked_outcome(s),
        ManualStage::VehYellowed => manual_veh_yellowed_outcome(s),
        ManualStage::VehCleared => manual_veh_cleared_outcome(s),
    }
}

/// A manual stage that keeps the state well formed and, if it goes on,
/// reaches the next stage's phase and waits a positive, bounded interval.
pub open spec fn manual_outcome_ok(o: (SimState, Option<(ManualStage, u64)>)) -> bool {
    &&& sim_state_wf(o.0)
    &&& (o.1 matches Some((st, ms)) ==> stage_ok(o.0, st) && 0 < ms <= T_MAX_MS)
}

/// The safety law of manual control: every stage of a manual phase change
/// keeps pedestrians off yellow, never releases pedestrians and vehicles
/// together, and keeps the lights in agreement with the phase.
pub proof fn lemma_manual_step_safe(s: SimState, st: ManualStage)
    requires
        sim_state_wf(s),
        stage_ok(s, st),
    ensures
        manual_outcome_ok(manual_step_outcome(s, st)),
{
    match st {
        ManualStage::Start => {
            reveal(manual_start_outcome);
        },
        ManualStage::PedBlinked => {
            reveal(manual_ped_blinked_outcome);
        },
        ManualStage::PedCleared => {
            reveal(manual_ped_cleared_outcome);
        },
        ManualStage::VehBlinked => {
            reveal(manual_veh_blinked_outcome);
        },
        ManualStage::VehYellowed => {
            reveal(manual_veh_yellowed_outcome);
        },
        ManualStage::VehCleared => {
            reveal(manual_veh_cleared_outcome);
        },
    }
}

#[verifier::rlimit(40)]
fn manual_start(state: &mut SimState) -> (next: Option<(ManualStage, u64)>)
    ensures
        *final(state) == manual_start_outcome(*old(state)).0,
        next == manual_start_outcome(*old(state)).1,
{
    reveal(manual_start_outcome);
    let ped_to_vehicles = match (state.phase, state.traffic_light.sig_ped.0, state.traffic_light.sig_veh.0) {
        (Phase::PedestrianGreen, TrafficSign::Green, TrafficSign::Red) => true,
        _ => false,
    };
    let vehicles_to_ped = match (state.phase, state.traffic_light.sig_ped.0, state.traffic_light.sig_veh.0) {
        (Phase::VehicleGreen, TrafficSign::Red, TrafficSign::Green) => true,
        _ => false,
    };
    if ped_to_vehicles {
        start_ped_blinking(state);
        Some((ManualStage::PedBlinked, PED_GREEN_BLINKING_MS))
    } else if vehicles_to_ped {
        start_veh_blinking(state);
        Some((ManualStage::VehBlinked, VEH_GREEN_BLINKING_MS))
    } else {
        drop_switch_request(state);
        None
    }
}

fn drop_switch_request(state: &mut SimState)
    ensures
        *final(state) == (SimState { manual_switch_phase: false, ..*old(state) }),
{
    state.manual_switch_phase = false;
}

fn start_ped_blinking(state: &mut SimState)
    ensures
        *final(state) == lit_ped(
            SimState { ped_blinking: true, countdown_ms: PED_GREEN_BLINKING_MS, ..*old(state) },
            TrafficSign::Green,
            LightState::Blinking,
        ),
{
    state.ped_blinking = true;
    state.countdown_ms = PED_GREEN_BLINKING_MS;
    state.traffic_light.set_sig(TrafficLightPosition::Ped1, TrafficSign::Green, LightState::Blinking);
}

fn start_veh_blinking(state: &mut SimState)
    ensures
        *final(state) == lit_veh(
            SimState { veh_blinking: true, countdown_ms: VEH_GREEN_BLINKING_MS, ..*old(state) },
            TrafficSign::Green,
            LightState::Blinking,
        ),
{
    state.veh_blinking = true;
    state.countdown_ms = VEH_GREEN_BLINKING_MS;
    state.traffic_light.set_sig(TrafficLightPosition::Veh1, TrafficSign::Green, LightState::Blinking);
}

fn manual_after_ped_blink(state: &mut SimState) -> (next: Option<(ManualStage, u64)>)
    ensures
        *final(state) == manual_ped_blinked_outcome(*old(state)).0,
        next == manual_ped_blinked_outcome(*old(state)).1,
{
    reveal(manual_ped_blinked_outcome);
    state.ped_blinking = false;
    state.phase = Phase::AllRedBeforeVehicle;
    state.countdown_ms = ALL_RED_MS;
    state.traffic_light.set_sig(TrafficLightPosition::Ped1, TrafficSign::Red, LightState::Solid);
    Some((ManualStage::PedCleared, ALL_RED_MS))
}

fn manual_after_ped_clear(state: &mut SimState) -> (next: Option<(ManualStage, u64)>)
    ensures
        *final(state) == manual_ped_cleared_outcome(*old(state)).0,
        next == manual_ped_cleared_outcome(*old(state)).1,
{
    reveal(manual_ped_cleared_outcome);
    state.phase = Phase::VehicleGreen;
    state.veh_blinking = false;
    state.countdown_ms = 0;
    state.traffic_light.set_sig(TrafficLightPosition::Veh1, TrafficSign::Green, LightState::Solid);
    state.manual_switch_phase = false;
    None
}

fn manual_after_veh_blink(state: &mut SimState) -> (next: Option<(ManualStage, u64)>)
    ensures
        *final(state) == manual_veh_blinked_outcome(*old(state)).0,
        next == manual_veh_blinked_outcome(*old(state)).1,
{
    reveal(manual_veh_blinked_outcome);
    state.veh_blinking = false;
    state.phase = Phase::VehicleYellow;
    state.countdown_ms = VEH_YELLOW_MS;
    state.traffic_light.set_sig(TrafficLightPosition::Veh1, TrafficSign::Yellow, LightState::Solid);
    Some((ManualStage::VehYellowed, VEH_YELLOW_MS))
}

fn manual_after_veh_yellow(state: &mut SimState) -> (next: Option<(ManualStage, u64)>)
    ensures
        *final(state) == manual_veh_yellowed_outcome(*old(state)).0,
        next == manual_veh_yellowed_outcome(*old(state)).1,
{
    reveal(manual_veh_yellowed_outcome);
    state.phase = Phase::AllRedBeforePedestrian;
    state.countdown_ms = ALL_RED_MS;
    state.traffic_light.set_sig(TrafficLightPosition::Veh1, TrafficSign::Red, LightState::Solid);
    Some((ManualStage::VehCleared, ALL_RED_MS))
}

fn manual_after_veh_clear(state: &mut SimState) -> (next: Option<(ManualStage, u64)>)
    ensures
        *final(state) == manual_veh_cleared_outcome(*old(state)).0,
        next == manual_veh_cleared_outcome(*old(state)).1,
{
    reveal(manual_veh_cleared_outcome);
    state.phase = Phase::PedestrianGreen;
    state.ped_blinking = false;
    state.countdown_ms = 0;
    state.traffic_light.set_sig(TrafficLightPosition::Ped1, TrafficSign::Green, LightState::Solid);
    state.manual_switch_phase = false;
    None
}

/// One stage of a manual phase change, starting with `ManualStage::Start`.
/// Returns the next stage and the interval to let pass first
/// (`manual_sim_sleep_tick`), or `None` once the change is over.
pub fn manual_transition_step(state: &mut SimState, stage: ManualStage) -> (next: Option<(ManualStage, u64)>)
    ensures
        *final(state) == manual_step_outcome(*old(state), stage).0,
        next == manual_step_outcome(*old(state), stage).1,
        sim_state_wf(*old(state)) && stage_ok(*old(state), stage) ==> manual_outcome_ok(
            (*final(state), next),
        ),
{
    proof {
        if sim_state_wf(*old(state)) && stage_ok(*old(state), stage) {
            lemma_manual_step_safe(*old(state), stage);
        }
    }
    if stage != ManualStage::Start && (!state.manual_control_enabled || state.all_red_hold_enabled) {
        drop_switch_request(state);
        return None;
    }
    match stage {
        ManualStage::Start => manual_start(state),
        ManualStage::PedBlinked => manual_after_ped_blink(state),
        ManualStage::PedCleared => manual_after_ped_clear(state),
        ManualStage::VehBlinked => manual_after_veh_blink(state),
        ManualStage::VehYellowed => manual_after_veh_yellow(state),
        ManualStage::VehCleared => manual_after_veh_clear(state),
    }
}


/// Pause, skip and the manual toggle are locked while the cycle is on its
/// way out of manual control or into the all-red hold.
pub open spec fn controls_locked(s: SimState) -> bool {
    s.exiting_manual_mode || s.transitioning_to_all_red || s.all_red_after_blinking
        || s.need_yellow_before_all_red
}

/// The all-red button is locked while the way to the hold is under way.
pub open spec fn all_red_pending(s: SimState) -> bool {
    s.transitioning_to_all_red || s.all_red_after_blinking
}

/// The manual-mode toggle. Leaving manual control sets every green head
/// blinking and lets the cycle run out to an all-red interval; entering it
/// freezes the cycle.
#[verifier::opaque]
pub open spec fn manual_toggle_outcome(s: SimState) -> SimState {
    if controls_locked(s) {
            s
        } else if s.manual_control_enabled {
            let s1 = SimState {
                manual_control_enabled: false,
                exiting_manual_mode: true,
                paused: false,
                ..s
            };
            let s2 = if ped_sign(s1) == TrafficSign::Green {
                lit_ped(SimState { ped_blinking: true, ..s1 }, TrafficSign::Green, LightState::Blinking)
            } else {
                s1
            };
            if veh_sign(s2) == TrafficSign::Green {
                lit_veh(SimState { veh_blinking: true, ..s2 }, TrafficSign::Green, LightState::Blinking)
            } else {
                s2
            }
        } else {
            SimState { manual_control_enabled: true, paused: true, countdown_ms: 0, ..s }
        }
}

/// The all-red button. Releasing the hold sets both heads solid red and lets
/// the cycle go on. Otherwise manual control ends and the way to the hold
/// depends on the phase: a pedestrian green blinks out, a vehicle green
/// blinks out and shows yellow, a yellow runs out, an all-red interval is
/// held at once.
#[verifier::opaque]
pub open spec fn all_red_toggle_outcome(s: SimState) -> SimState {
    if all_red_pending(s) {
        s
    } else if s.all_red_hold_enabled {
        lit_veh(
            lit_ped(
                SimState {
                    all_red_hold_enabled: false,
                    paused: false,
                    ped_blinking: false,
                    veh_blinking: false,
                    all_red_after_blinking: false,
                    need_yellow_before_all_red: false,
                    ..s
                },
                TrafficSign::Red,
                LightState::Solid,
            ),
            TrafficSign::Red,
            LightState::Solid,
        )
    } else {
        let s1 = SimState {
            manual_control_enabled: false,
            paused: false,
            all_red_after_blinking: false,
            need_yellow_before_all_red: false,
            ..s
        };
        match s1.phase {
            Phase::PedestrianGreen | Phase::PedestrianGreenExtension => if s1.ped_blinking {
                SimState { all_red_after_blinking: true, ..s1 }
            } else {
                lit_ped(
                    SimState {
                        ped_blinking: true,
                        countdown_ms: PED_GREEN_BLINKING_MS,
                        all_red_after_blinking: true,
                        skip_phase: true,
                        ..s1
                    },
                    TrafficSign::Green,
                    LightState::Blinking,
                )
            },
            Phase::VehicleGreen => if s1.veh_blinking {
                SimState { need_yellow_before_all_red: true, all_red_after_blinking: true, ..s1 }
            } else {
                lit_veh(
                    SimState {
                        need_yellow_before_all_red: true,
                        veh_blinking: true,
                        countdown_ms: VEH_GREEN_BLINKING_MS,
                        all_red_after_blinking: true,
                        skip_phase: true,
                        ..s1
                    },
                    TrafficSign::Green,
                    LightState::Blinking,
                )
            },
            Phase::VehicleYellow => SimState { need_yellow_before_all_red: true, ..s1 },
            Phase::AllRedBeforeVehicle | Phase::AllRedBeforePedestrian => SimState {
                all_red_hold_enabled: true,
                ..s1
            },
        }
    }
}

/// The safety law of the operator's buttons: the manual toggle and the
/// all-red button keep the crossing safe and never change the phase, so
/// they cannot disturb the cycle or a manual change wherever it stands.
pub proof fn lemma_operator_buttons_safe(s: SimState)
    requires
        sim_state_wf(s),
    ensures
        sim_state_wf(manual_toggle_outcome(s)),
        manual_toggle_outcome(s).phase == s.phase,
        sim_state_wf(all_red_toggle_outcome(s)),
        all_red_toggle_outcome(s).phase == s.phase,
{
    reveal(manual_toggle_outcome);
    reveal(all_red_toggle_outcome);
}

/// The safety invariant of the crossing, whichever thread acts: from a
/// well-formed state, a cycle decision at a resume point whose phase is
/// right, a stage of a manual change, a clock tick, and the manual and
/// all-red buttons all lead to a well-formed state. So in every state that
/// the lock lets the other thread see, pedestrians are off yellow and never
/// released together with vehicles, and the lights agree with the phase.
pub proof fn lemma_crossing_stays_safe(s: SimState, p: LoopPoint, e: u64, st: ManualStage, t: SleepTimer)
    requires
        sim_state_wf(s),
    ensures
        ped_sign(s) != TrafficSign::Yellow,
        !(ped_sign(s) == TrafficSign::Green && veh_sign(s) == TrafficSign::Green),
        point_ok(s, p) && e <= T_MAX_MS ==> sim_state_wf(loop_step_outcome(s, p, e).0),
        stage_ok(s, st) ==> sim_state_wf(manual_step_outcome(s, st).0),
        timer_running(t) ==> sim_state_wf(advanced(s, t).0),
        sim_state_wf(manual_toggle_outcome(s)),
        sim_state_wf(all_red_toggle_outcome(s)),
{
    if point_ok(s, p) && e <= T_MAX_MS {
        lemma_loop_step_safe(s, p, e);
    }
    if stage_ok(s, st) {
        lemma_manual_step_safe(s, st);
    }
    if timer_running(t) {
        lemma_ticks_keep_state_wf(s, t);
    }
    lemma_operator_buttons_safe(s);
}

fn blink_ped_if_green(state: &mut SimState)
    ensures
        *final(state) == (if ped_sign(*old(state)) == TrafficSign::Green {
            lit_ped(SimState { ped_blinking: true, ..*old(state) }, TrafficSign::Green, LightState::Blinking)
        } else {
            *old(state)
        }),
{
    let ped_green = match state.traffic_light.sig_ped.0 {
        TrafficSign::Green => true,
        _ => false,
    };
    if ped_green {
        state.traffic_light.set_sig(TrafficLightPosition::Ped1, TrafficSign::Green, LightState::Blinking);
        state.ped_blinking = true;
    }
}

fn blink_veh_if_green(state: &mut SimState)
    ensures
        *final(state) == (if veh_sign(*old(state)) == TrafficSign::Green {
            lit_veh(SimState { veh_blinking: true, ..*old(state) }, TrafficSign::Green, LightState::Blinking)
        } else {
            *old(state)
        }),
{
    let veh_green = match state.traffic_light.sig_veh.0 {
        TrafficSign::Green => true,
        _ => false,
    };
    if veh_green {
        state.traffic_light.set_sig(TrafficLightPosition::Veh1, TrafficSign::Green, LightState::Blinking);
        state.veh_blinking = true;
    }
}

fn release_all_red_hold(state: &mut SimState)
    ensures
        *final(state) == lit_veh(
            lit_ped(
                SimState {
                    all_red_hold_enabled: false,
                    paused: false,
                    ped_blinking: false,
                    veh_blinking: false,
                    all_red_after_blinking: false,
                    need_yellow_before_all_red: false,
                    ..*old(state)
                },
                TrafficSign::Red,
                LightState::Solid,
            ),
            TrafficSign::Red,
            LightState::Solid,
        ),
{
    state.all_red_hold_enabled = false;
    state.paused = false;
    state.traffic_light.set_sig(TrafficLightPosition::Ped1, TrafficSign::Red, LightState::Solid);
    state.traffic_light.set_sig(TrafficLightPosition::Veh1, TrafficSign::Red, LightState::Solid);
    state.ped_blinking = false;
    state.veh_blinking = false;
    state.all_red_after_blinking = false;
    state.need_yellow_before_all_red = false;
}

fn ped_green_to_all_red(state: &mut SimState)
    ensures
        *final(state) == (if old(state).ped_blinking {
            SimState { all_red_after_blinking: true, ..*old(state) }
        } else {
            lit_ped(
                SimState {
                    ped_blinking: true,
                    countdown_ms: PED_GREEN_BLINKING_MS,
                    all_red_after_blinking: true,
                    skip_phase: true,
                    ..*old(state)
                },
                TrafficSign::Green,
                LightState::Blinking,
            )
        }),
{
    if state.ped_blinking {
        state.all_red_after_blinking = true;
    } else {
        state.traffic_light.set_sig(TrafficLightPosition::Ped1, TrafficSign::Green, LightState::Blinking);
        state.ped_blinking = true;
        state.countdown_ms = PED_GREEN_BLINKING_MS;
        state.all_red_after_blinking = true;
        state.skip_phase = true;
    }
}

fn veh_green_to_all_red(state: &mut SimState)
    ensures
        *final(state) == (if old(state).veh_blinking {
            SimState { need_yellow_before_all_red: true, all_red_after_blinking: true, ..*old(state) }
        } else {
            lit_veh(
                SimState {
                    need_yellow_before_all_red: true,
                    veh_blinking: true,
                    countdown_ms: VEH_GREEN_BLINKING_MS,
                    all_red_after_blinking: true,
                    skip_phase: true,
                    ..*old(state)
                },
                TrafficSign::Green,
                LightState::Blinking,
            )
        }),
{
    state.need_yellow_before_all_red = true;
    if state.veh_blinking {
        state.all_red_after_blinking = true;
    } else {
        state.traffic_light.set_sig(TrafficLightPosition::Veh1, TrafficSign::Green, LightState::Blinking);
        state.veh_blinking = true;
        state.countdown_ms = VEH_GREEN_BLINKING_MS;
        state.all_red_after_blinking = true;
        state.skip_phase = true;
    }
}

fn head_for_all_red(state: &mut SimState)
    ensures
        *final(state) == ({
            let s1 = *old(state);
            match s1.phase {
                Phase::PedestrianGreen | Phase::PedestrianGreenExtension => if s1.ped_blinking {
                    SimState { all_red_after_blinking: true, ..s1 }
                } else {
                    lit_ped(
                        SimState {
                            ped_blinking: true,
                            countdown_ms: PED_GREEN_BLINKING_MS,
                            all_red_after_blinking: true,
                            skip_phase: true,
                            ..s1
                        },
                        TrafficSign::Green,
                        LightState::Blinking,
                    )
                },
                Phase::VehicleGreen => if s1.veh_blinking {
                    SimState { need_yellow_before_all_red: true, all_red_after_blinking: true, ..s1 }
                } else {
                    lit_veh(
                        SimState {
                            need_yellow_before_all_red: true,
                            veh_blinking: true,
                            countdown_ms: VEH_GREEN_BLINKING_MS,
                            all_red_after_blinking: true,
                            skip_phase: true,
                            ..s1
                        },
                        TrafficSign::Green,
                        LightState::Blinking,
                    )
                },
                Phase::VehicleYellow => SimState { need_yellow_before_all_red: true, ..s1 },
                Phase::AllRedBeforeVehicle | Phase::AllRedBeforePedestrian => SimState {
                    all_red_hold_enabled: true,
                    ..s1
                },
            }
        }),
{
    match state.phase {
        Phase::PedestrianGreen | Phase::PedestrianGreenExtension => ped_green_to_all_red(state),
        Phase::VehicleGreen => veh_green_to_all_red(state),
        Phase::VehicleYellow => {
            state.need_yellow_before_all_red = true;
        },
        Phase::AllRedBeforeVehicle | Phase::AllRedBeforePedestrian => {
            state.all_red_hold_enabled = true;
        },
    }
}

impl SimState {
    /// Whether pause, skip and the manual toggle are locked.
    pub fn pause_controls_disabled(&self) -> (b: bool)
        ensures
            b == controls_locked(*self),
    {
        self.exiting_manual_mode || self.transitioning_to_all_red || self.all_red_after_blinking
            || self.need_yellow_before_all_red
    }

    /// Whether the all-red button is locked.
    pub fn modes_transitioning(&self) -> (b: bool)
        ensures
            b == all_red_pending(*self),
    {
        self.transitioning_to_all_red || self.all_red_after_blinking
    }

    /// The pause button: toggles pausing, unless under manual control or
    /// while the controls are locked.
    pub fn press_pause(&mut self)
        ensures
            *final(self) == (if !old(self).manual_control_enabled && !controls_locked(*old(self)) {
                SimState { paused: !old(self).paused, ..*old(self) }
            } else {
                *old(self)
            }),
            sim_state_wf(*old(self)) ==> sim_state_wf(*final(self)),
    {
        if !self.manual_control_enabled && !self.pause_controls_disabled() {
            self.paused = !self.paused;
        }
    }

    /// The skip button (shown while paused): ends the current interval and
    /// resumes, unless under manual control or while the controls are locked.
    pub fn press_skip_phase(&mut self)
        ensures
            *final(self) == (if old(self).paused && !old(self).manual_control_enabled && !controls_locked(
                *old(self),
            ) {
                SimState { skip_phase: true, paused: false, ..*old(self) }
            } else {
                *old(self)
            }),
            sim_state_wf(*old(self)) ==> sim_state_wf(*final(self)),
    {
        if self.paused && !self.manual_control_enabled && !self.pause_controls_disabled() {
            self.skip_phase = true;
            self.paused = false;
        }
    }

    /// The speed buttons.
    pub fn set_speed(&mut self, speed: SimSpeed)
        ensures
            *final(self) == (SimState { speed, ..*old(self) }),
            sim_state_wf(*old(self)) ==> sim_state_wf(*final(self)),
    {
        self.speed = speed;
    }

    /// The manual-mode toggle (see `manual_toggle_outcome`).
    pub fn press_manual_toggle(&mut self)
        ensures
            *final(self) == manual_toggle_outcome(*old(self)),
            final(self).phase == old(self).phase,
            sim_state_wf(*old(self)) ==> sim_state_wf(*final(self)),
    {
        proof {
            reveal(manual_toggle_outcome);
            if sim_state_wf(*old(self)) {
                lemma_operator_buttons_safe(*old(self));
            }
        }
        if self.pause_controls_disabled() {
            return;
        }
        if self.manual_control_enabled {
            self.manual_control_enabled = false;
            self.exiting_manual_mode = true;
            self.paused = false;
            blink_ped_if_green(self);
            blink_veh_if_green(self);
        } else {
            self.manual_control_enabled = true;
            self.paused = true;
            self.countdown_ms = 0;
        }
    }

    /// The next-phase button: under manual control, requests one phase
    /// change unless one is already requested.
    pub fn press_next_phase(&mut self)
        ensures
            *final(self) == (if old(self).manual_control_enabled && !controls_locked(*old(self))
                && !old(self).manual_switch_phase {
                SimState { manual_switch_phase: true, ..*old(self) }
            } else {
                *old(self)
            }),
            sim_state_wf(*old(self)) ==> sim_state_wf(*final(self)),
    {
        if self.manual_control_enabled && !self.pause_controls_disabled() && !self.manual_switch_phase {
            self.manual_switch_phase = true;
        }
    }

    /// The all-red button (see `all_red_toggle_outcome`).
    pub fn press_all_red(&mut self)
        ensures
            *final(self) == all_red_toggle_outcome(*old(self)),
            final(self).phase == old(self).phase,
            sim_state_wf(*old(self)) ==> sim_state_wf(*final(self)),
    {
        proof {
            reveal(all_red_toggle_outcome);
            if sim_state_wf(*old(self)) {
                lemma_operator_buttons_safe(*old(self));
            }
        }
        if self.modes_transitioning() {
            return;
        }
        if self.all_red_hold_enabled {
            release_all_red_hold(self);
        } else {
            self.manual_control_enabled = false;
            self.paused = false;
            self.all_red_after_blinking = false;
            self.need_yellow_before_all_red = false;
            head_for_all_red(self);
        }
    }

    /// Queues an extension (milliseconds) for the next pedestrian green.
    pub fn queue_manual_extension(&mut self, ext_ms: u64)
        requires
            ext_ms <= T_MAX_MS,
        ensures
            *final(self) == (SimState { manual_ped_ext_ms: Some(ext_ms), ..*old(self) }),
            sim_state_wf(*old(self)) ==> sim_state_wf(*final(self)),
    {
        self.manual_ped_ext_ms = Some(ext_ms);
    }
}

} // verus!
