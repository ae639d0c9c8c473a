//! Decisions of the basic signal cycle: pedestrian green (half, optional
//! extension, rest, blinking), all red, vehicle green (solid, blinking),
//! yellow, all red, with pause, skip and speed control but without manual
//! control. A driver waits in real time: `sim_loop_step` says how long to
//! let pass before resuming where, and the sleep functions advance
//! simulated time one tick at a time. All durations are milliseconds.

use vstd::prelude::*;
use crate::config::{ALL_RED_MS, PED_GREEN_BLINKING_MS, PHASE_BASIC_PED_GREEN_MS, T_MAX_MS, VEH_GREEN_BLINKING_MS, VEH_YELLOW_MS};
use crate::sim::traffic_light_sim::{
    speed_delta, timer_running, LoopPoint, SimSpeed, SleepTimer, HALF_PED_GREEN_MS,
    MIN_APPLIED_EXTENSION_MS, SECOND_SOLID_MS, VEH_SOLID_MS,
};
use crate::traffic::traffic_light::TrafficSign;

verus! {

/// Top-level phase shown in the info panel.
#[derive(Debug, Clone, Copy, PartialEq, Eq, Structural)]
pub enum Phase {
    PedestrianGreen,
    AllRedBeforeVehicle,
    VehicleGreen,
    VehicleYellow,
    AllRedBeforePedestrian,
}

/// Text shown for a phase.
pub open spec fn phase_label(p: Phase) -> Seq<char> {
    match p {
        Phase::PedestrianGreen => "Phase 1 — Pedestrian Green"@,
        Phase::AllRedBeforeVehicle => "All Red — Preparing for Vehicles"@,
        Phase::VehicleGreen => "Phase 2 — Vehicle Green"@,
        Phase::VehicleYellow => "Vehicle Yellow"@,
        Phase::AllRedBeforePedestrian => "All Red — Preparing for Pedestrians"@,
    }
}

impl Phase {
    /// Text shown for the phase.
    pub fn label(&self) -> (s: &'static str)
        ensures
            s@ == phase_label(*self),
    {
        match self {
            Phase::PedestrianGreen => "Phase 1 — Pedestrian Green",
            Phase::AllRedBeforeVehicle => "All Red — Preparing for Vehicles",
            Phase::VehicleGreen => "Phase 2 — Vehicle Green",
            Phase::VehicleYellow => "Vehicle Yellow",
            Phase::AllRedBeforePedestrian => "All Red — Preparing for Pedestrians",
        }
    }
}

/// The shared state of the crossing.
pub struct SimState {
    pub phase: Phase,
    pub ped_sign: TrafficSign,
    pub ped_blinking: bool,
    pub veh_sign: TrafficSign,
    pub veh_blinking: bool,
    /// Milliseconds remaining in the current sub-phase.
    pub countdown_ms: u64,
    /// Completed cycles.
    pub cycle_count: u32,
    /// Last pedestrian extension applied (milliseconds).
    pub ped_extension_ms: u64,
    pub speed: SimSpeed,
    pub paused: bool,
    /// Blink toggle, flipped every half simulated second.
    pub blink_on: bool,
    /// Text typed in the pedestrian count box.
    pub input_ped_text: String,
    /// Text typed in the vehicle count box.
    pub input_veh_text: String,
    /// Extension queued by the operator for the next pedestrian phase (milliseconds).
    pub manual_ped_ext_ms: Option<u64>,
    pub manual_applied: bool,
    /// Skip the remainder of the current sub-phase.
    pub skip_phase: bool,
}

/// Pedestrians never see yellow, pedestrians and vehicles are never released
/// together, the lights agree with the phase (pedestrian green shows
/// pedestrians green and vehicles red, vehicle green shows vehicles green,
/// yellow shows vehicles yellow, both with pedestrians red, all red shows
/// both red), and durations stay in range.
pub open spec fn sim_state_wf(s: SimState) -> bool {
    &&& s.ped_sign != TrafficSign::Yellow
    &&& s.ped_sign == TrafficSign::Green ==> s.veh_sign == TrafficSign::Red
    &&& s.phase == Phase::PedestrianGreen ==> (s.ped_sign == TrafficSign::Green && s.veh_sign == TrafficSign::Red)
    &&& s.phase == Phase::VehicleGreen ==> s.veh_sign == TrafficSign::Green
    &&& s.phase == Phase::VehicleYellow ==> s.veh_sign == TrafficSign::Yellow
    &&& (s.phase == Phase::VehicleGreen || s.phase == Phase::VehicleYellow) ==> s.ped_sign == TrafficSign::Red
    &&& (s.phase == Phase::AllRedBeforeVehicle || s.phase == Phase::AllRedBeforePedestrian) ==> (s.ped_sign
        == TrafficSign::Red && s.veh_sign == TrafficSign::Red)
    &&& s.countdown_ms <= T_MAX_MS
    &&& s.ped_extension_ms <= T_MAX_MS
    &&& (s.manual_ped_ext_ms matches Some(e) ==> e <= T_MAX_MS)
}

impl Default for SimState {
    /// Pedestrian green, vehicles red, nothing queued, normal speed.
    fn default() -> (s: Self)
        ensures
            s.phase == Phase::PedestrianGreen,
            s.ped_sign == TrafficSign::Green && !s.ped_blinking,
            s.veh_sign == TrafficSign::Red && !s.veh_blinking,
            s.countdown_ms == PHASE_BASIC_PED_GREEN_MS,
            s.cycle_count == 0,
            s.ped_extension_ms == 0,
            s.speed == SimSpeed::Normal,
            !s.paused,
            s.blink_on,
            s.input_ped_text@ == Seq::<char>::empty(),
            s.input_veh_text@ == Seq::<char>::empty(),
            s.manual_ped_ext_ms is None,
            !s.manual_applied && !s.skip_phase,
            sim_state_wf(s),
    {
        SimState {
            phase: Phase::PedestrianGreen,
            ped_sign: TrafficSign::Green,
            ped_blinking: false,
            veh_sign: TrafficSign::Red,
            veh_blinking: false,
            countdown_ms: PHASE_BASIC_PED_GREEN_MS,
            cycle_count: 0,
            ped_extension_ms: 0,
            speed: SimSpeed::Normal,
            paused: false,
            blink_on: true,
            input_ped_text: String::new(),
            input_veh_text: String::new(),
            manual_ped_ext_ms: None,
            manual_applied: false,
            skip_phase: false,
        }
    }
}

/// Checks made before each real tick of an interval: a skip request ends
/// the interval, zeroes the countdown and pauses. Returns whether the
/// interval ends now.
pub fn sim_sleep_interrupted(state: &mut SimState) -> (stop: bool)
    ensures
        stop == old(state).skip_phase,
        *final(state) == (if old(state).skip_phase {
            SimState { skip_phase: false, countdown_ms: 0, paused: true, ..*old(state) }
        } else {
            *old(state)
        }),
{
    if state.skip_phase {
        state.skip_phase = false;
        state.countdown_ms = 0;
        state.paused = true;
        true
    } else {
        false
    }
}

/// The state and timer after one tick that advances simulated time.
pub open spec fn advanced(s: SimState, t: SleepTimer) -> (SimState, SleepTimer) {
    let delta = speed_delta(s.speed);
    let elapsed = t.elapsed_ms + delta;
    let acc = t.blink_acc_ms + delta;
    let flip = acc >= 500;
    let remaining = if t.target_ms >= elapsed { t.target_ms - elapsed } else { 0 };
    (
        SimState {
            blink_on: if flip { !s.blink_on } else { s.blink_on },
            countdown_ms: remaining as u64,
            ..s
        },
        SleepTimer {
            target_ms: t.target_ms,
            elapsed_ms: elapsed as u64,
            blink_acc_ms: (if flip { acc - 500 } else { acc }) as u64,
        },
    )
}

/// One real tick of an interval: nothing passes while paused; otherwise
/// simulated time advances by the speed's delta, the blink toggles every
/// half second, and the countdown shows what is left. Returns whether the
/// interval is over.
pub fn sim_sleep_tick(state: &mut SimState, timer: &mut SleepTimer) -> (done: bool)
    requires
        timer_running(*old(timer)),
    ensures
        old(state).paused ==> *final(state) == *old(state) && *final(timer) == *old(timer) && !done,
        !old(state).paused ==> *final(state) == advanced(*old(state), *old(timer)).0
            && *final(timer) == advanced(*old(state), *old(timer)).1 && done == (final(timer).elapsed_ms
            >= final(timer).target_ms),
        !done ==> timer_running(*final(timer)),
{
    if state.paused {
        return false;
    }
    let delta = state.speed.tick_delta_ms();
    let elapsed = timer.elapsed_ms + delta;
    let acc = timer.blink_acc_ms + delta;
    let flip = acc >= 500;
    let remaining = if timer.target_ms >= elapsed { timer.target_ms - elapsed } else { 0 };
    let new_acc = if flip { acc - 500 } else { acc };
    let new_blink = if flip { !state.blink_on } else { state.blink_on };
    state.blink_on = new_blink;
    state.countdown_ms = remaining;
    *timer = SleepTimer { target_ms: timer.target_ms, elapsed_ms: elapsed, blink_acc_ms: new_acc };
    elapsed >= timer.target_ms
}


/// The phase that the cycle has at each resume point.
pub open spec fn point_ok(s: SimState, p: LoopPoint) -> bool {
    match p {
        LoopPoint::Top => true,
        LoopPoint::AfterFirstHalf | LoopPoint::AfterExtension | LoopPoint::AfterSecondSolid
        | LoopPoint::AfterPedBlinking => s.phase == Phase::PedestrianGreen,
        LoopPoint::AfterAllRedBeforeVehicle => s.phase == Phase::AllRedBeforeVehicle,
        LoopPoint::AfterVehicleSolid | LoopPoint::AfterVehicleBlinking => s.phase == Phase::VehicleGreen,
        LoopPoint::AfterVehicleYellow => s.phase == Phase::VehicleYellow,
        LoopPoint::AfterAllRedBeforePedestrian => s.phase == Phase::AllRedBeforePedestrian,
    }
}

/// Top of the cycle: pedestrians solid green, vehicles solid red, first half.
#[verifier::opaque]
pub open spec fn top_outcome(s: SimState) -> (SimState, LoopPoint, u64) {
    (
        SimState {
            phase: Phase::PedestrianGreen,
            ped_sign: TrafficSign::Green,
            ped_blinking: false,
            veh_sign: TrafficSign::Red,
            veh_blinking: false,
            countdown_ms: HALF_PED_GREEN_MS,
            blink_on: true,
            ..s
        },
        LoopPoint::AfterFirstHalf,
        HALF_PED_GREEN_MS,
    )
}

/// The pedestrian green starts blinking.
#[verifier::opaque]
pub open spec fn ped_blinking_outcome(s: SimState) -> (SimState, LoopPoint, u64) {
    (
        SimState { ped_blinking: true, countdown_ms: PED_GREEN_BLINKING_MS, ..s },
        LoopPoint::AfterPedBlinking,
        PED_GREEN_BLINKING_MS,
    )
}

/// The solid rest of the pedestrian green.
#[verifier::opaque]
pub open spec fn second_solid_outcome(s: SimState) -> (SimState, LoopPoint, u64) {
    if SECOND_SOLID_MS > 0 {
        (SimState { countdown_ms: SECOND_SOLID_MS, ..s }, LoopPoint::AfterSecondSolid, SECOND_SOLID_MS)
    } else {
        ped_blinking_outcome(s)
    }
}

/// The extension: the queued manual one if any (it is consumed), else the
/// automatic one; applied only when longer than `MIN_APPLIED_EXTENSION_MS`.
#[verifier::opaque]
pub open spec fn extension_outcome(s: SimState, auto_ext_ms: u64) -> (SimState, LoopPoint, u64) {
    let ext = match s.manual_ped_ext_ms {
        Some(e) => e,
        None => auto_ext_ms,
    };
    let s1 = SimState { manual_ped_ext_ms: None, ped_extension_ms: ext, ..s };
    if ext > MIN_APPLIED_EXTENSION_MS {
        (SimState { countdown_ms: ext, ..s1 }, LoopPoint::AfterExtension, ext)
    } else {
        second_solid_outcome(s1)
    }
}

/// One decision of the cycle from a resume point: the new state, where to
/// resume, and how much simulated time to let pass first.
#[verifier::opaque]
pub open spec fn loop_step_outcome(s: SimState, p: LoopPoint, auto_ext_ms: u64) -> (SimState, LoopPoint, u64) {
    match p {
        LoopPoint::Top => top_outcome(s),
        LoopPoint::AfterFirstHalf => extension_outcome(s, auto_ext_ms),
        LoopPoint::AfterExtension => second_solid_outcome(s),
        LoopPoint::AfterSecondSolid => ped_blinking_outcome(s),
        LoopPoint::AfterPedBlinking => (
            SimState {
                phase: Phase::AllRedBeforeVehicle,
                ped_sign: TrafficSign::Red,
                ped_blinking: false,
                countdown_ms: ALL_RED_MS,
                ..s
            },
            LoopPoint::AfterAllRedBeforeVehicle,
            ALL_RED_MS,
        ),
        LoopPoint::AfterAllRedBeforeVehicle => (
            SimState {
                phase: Phase::VehicleGreen,
                veh_sign: TrafficSign::Green,
                veh_blinking: false,
                countdown_ms: VEH_SOLID_MS,
                blink_on: true,
                ..s
            },
            LoopPoint::AfterVehicleSolid,
            VEH_SOLID_MS,
        ),
        LoopPoint::AfterVehicleSolid => (
            SimState { veh_blinking: true, countdown_ms: VEH_GREEN_BLINKING_MS, ..s },
            LoopPoint::AfterVehicleBlinking,
            VEH_GREEN_BLINKING_MS,
        ),
        LoopPoint::AfterVehicleBlinking => (
            SimState {
                phase: Phase::VehicleYellow,
                veh_sign: TrafficSign::Yellow,
                veh_blinking: false,
                countdown_ms: VEH_YELLOW_MS,
                ..s
            },
            LoopPoint::AfterVehicleYellow,
            VEH_YELLOW_MS,
        ),
        LoopPoint::AfterVehicleYellow => (
            SimState {
                phase: Phase::AllRedBeforePedestrian,
                veh_sign: TrafficSign::Red,
                countdown_ms: ALL_RED_MS,
                ..s
            },
            LoopPoint::AfterAllRedBeforePedestrian,
            ALL_RED_MS,
        ),
        LoopPoint::AfterAllRedBeforePedestrian => top_outcome(
            SimState { cycle_count: (s.cycle_count + 1) as u32, ..s },
        ),
    }
}

/// A decision that keeps the state well formed, resumes where the phase is
/// right, and asks for a positive, bounded sleep.
pub open spec fn outcome_ok(o: (SimState, LoopPoint, u64)) -> bool {
    sim_state_wf(o.0) && point_ok(o.0, o.1) && 0 < o.2 <= T_MAX_MS
}

/// The cycle law of the basic cycle without an extension: from the top,
/// the steps go pedestrian green (half the basic time, the solid rest,
/// blinking), all red, vehicle green (solid, blinking), yellow, all red, and
/// back to pedestrian green, with these lights and durations; the cycle
/// count grows by exactly one, at the end.
pub proof fn lemma_basic_cycle(s: SimState, e: u64)
    requires
        s.manual_ped_ext_ms is None,
        e <= MIN_APPLIED_EXTENSION_MS,
        s.cycle_count < u32::MAX,
    ensures
        ({
            let o1 = loop_step_outcome(s, LoopPoint::Top, e);
            let o2 = loop_step_outcome(o1.0, o1.1, e);
            let o3 = loop_step_outcome(o2.0, o2.1, e);
            let o4 = loop_step_outcome(o3.0, o3.1, e);
            let o5 = loop_step_outcome(o4.0, o4.1, e);
            let o6 = loop_step_outcome(o5.0, o5.1, e);
            let o7 = loop_step_outcome(o6.0, o6.1, e);
            let o8 = loop_step_outcome(o7.0, o7.1, e);
            let o9 = loop_step_outcome(o8.0, o8.1, e);
            &&& o1.0.phase == Phase::PedestrianGreen && o1.1 == LoopPoint::AfterFirstHalf && o1.2 == HALF_PED_GREEN_MS
                && o1.0.ped_sign == TrafficSign::Green && o1.0.veh_sign == TrafficSign::Red && !o1.0.ped_blinking
            &&& o2.0.phase == Phase::PedestrianGreen && o2.1 == LoopPoint::AfterSecondSolid && o2.2 == SECOND_SOLID_MS
                && o2.0.ped_sign == TrafficSign::Green && !o2.0.ped_blinking && o2.0.ped_extension_ms == e
            &&& o3.0.phase == Phase::PedestrianGreen && o3.1 == LoopPoint::AfterPedBlinking
                && o3.2 == PED_GREEN_BLINKING_MS && o3.0.ped_sign == TrafficSign::Green && o3.0.ped_blinking
            &&& o4.0.phase == Phase::AllRedBeforeVehicle && o4.1 == LoopPoint::AfterAllRedBeforeVehicle
                && o4.2 == ALL_RED_MS && o4.0.ped_sign == TrafficSign::Red && o4.0.veh_sign == TrafficSign::Red
            &&& o5.0.phase == Phase::VehicleGreen && o5.1 == LoopPoint::AfterVehicleSolid && o5.2 == VEH_SOLID_MS
                && o5.0.veh_sign == TrafficSign::Green && !o5.0.veh_blinking && o5.0.ped_sign == TrafficSign::Red
            &&& o6.0.phase == Phase::VehicleGreen && o6.1 == LoopPoint::AfterVehicleBlinking
                && o6.2 == VEH_GREEN_BLINKING_MS && o6.0.veh_sign == TrafficSign::Green && o6.0.veh_blinking
            &&& o7.0.phase == Phase::VehicleYellow && o7.1 == LoopPoint::AfterVehicleYellow && o7.2 == VEH_YELLOW_MS
                && o7.0.veh_sign == TrafficSign::Yellow && o7.0.ped_sign == TrafficSign::Red
            &&& o8.0.phase == Phase::AllRedBeforePedestrian && o8.1 == LoopPoint::AfterAllRedBeforePedestrian
                && o8.2 == ALL_RED_MS && o8.0.ped_sign == TrafficSign::Red && o8.0.veh_sign == TrafficSign::Red
            &&& o9.0.phase == Phase::PedestrianGreen && o9.1 == LoopPoint::AfterFirstHalf && o9.2 == HALF_PED_GREEN_MS
                && o9.0.ped_sign == TrafficSign::Green && o9.0.veh_sign == TrafficSign::Red
            &&& o8.0.cycle_count == s.cycle_count && o9.0.cycle_count == s.cycle_count + 1
        }),
{
    reveal(loop_step_outcome);
    reveal(top_outcome);
    reveal(extension_outcome);
    reveal(second_solid_outcome);
    reveal(ped_blinking_outcome);
}

/// The extension law of the basic cycle: at the end of the first half of
/// the pedestrian green, an extension queued by the operator wins over the
/// automatic one and is consumed; the extension taken is recorded, and one
/// longer than `MIN_APPLIED_EXTENSION_MS` is waited out in full before the
/// rest of the green, while a shorter one goes straight to the solid rest.
pub proof fn lemma_queued_extension_wins(s: SimState, auto_ext_ms: u64)
    ensures
        ({
            let o = loop_step_outcome(s, LoopPoint::AfterFirstHalf, auto_ext_ms);
            let e = if s.manual_ped_ext_ms is Some { s.manual_ped_ext_ms->0 } else { auto_ext_ms };
            &&& o.0.ped_extension_ms == e
            &&& o.0.manual_ped_ext_ms is None
            &&& e > MIN_APPLIED_EXTENSION_MS ==> (o.1 == LoopPoint::AfterExtension && o.2 == e && o.0.countdown_ms == e)
            &&& e <= MIN_APPLIED_EXTENSION_MS ==> (o.1 == LoopPoint::AfterSecondSolid && o.2 == PHASE_BASIC_PED_GREEN_MS / 2
                - PED_GREEN_BLINKING_MS)
            &&& o.0.phase == s.phase && o.0.ped_sign == s.ped_sign && o.0.veh_sign == s.veh_sign
        }),
{
    reveal(loop_step_outcome);
    reveal(extension_outcome);
    reveal(second_solid_outcome);
}

/// The safety law of the basic cycle: from a resume point whose phase is
/// right, one decision keeps pedestrians off yellow, never releases
/// pedestrians and vehicles together, keeps the lights in agreement with the
/// phase, resumes at a point whose phase is right, and asks only for sleeps
/// that a timer can run.
pub proof fn lemma_loop_step_safe(s: SimState, p: LoopPoint, auto_ext_ms: u64)
    requires
        sim_state_wf(s),
        point_ok(s, p),
        auto_ext_ms <= T_MAX_MS,
    ensures
        outcome_ok(loop_step_outcome(s, p, auto_ext_ms)),
{
    reveal(loop_step_outcome);
    reveal(top_outcome);
    reveal(ped_blinking_outcome);
    reveal(second_solid_outcome);
    reveal(extension_outcome);
}

fn enter_ped_blinking(state: &mut SimState) -> (r: (LoopPoint, u64))
    ensures
        *final(state) == ped_blinking_outcome(*old(state)).0,
        r == (ped_blinking_outcome(*old(state)).1, ped_blinking_outcome(*old(state)).2),
{
    reveal(ped_blinking_outcome);
    state.ped_blinking = true;
    state.countdown_ms = PED_GREEN_BLINKING_MS;
    (LoopPoint::AfterPedBlinking, PED_GREEN_BLINKING_MS)
}

fn enter_second_solid(state: &mut SimState) -> (r: (LoopPoint, u64))
    ensures
        *final(state) == second_solid_outcome(*old(state)).0,
        r == (second_solid_outcome(*old(state)).1, second_solid_outcome(*old(state)).2),
{
    reveal(second_solid_outcome);
    let second_solid = SECOND_SOLID_MS;
    if second_solid > 0 {
        state.countdown_ms = second_solid;
        (LoopPoint::AfterSecondSolid, second_solid)
    } else {
        enter_ped_blinking(state)
    }
}

fn take_extension(state: &mut SimState, auto_ext_ms: u64) -> (ext: u64)
    ensures
        ext == (match old(state).manual_ped_ext_ms {
            Some(e) => e,
            None => auto_ext_ms,
        }),
        *final(state) == (SimState { manual_ped_ext_ms: None, ped_extension_ms: ext, ..*old(state) }),
{
    let queued = state.manual_ped_ext_ms;
    let ext = match queued {
        Some(e) => e,
        None => auto_ext_ms,
    };
    state.manual_ped_ext_ms = None;
    state.ped_extension_ms = ext;
    ext
}

fn apply_extension(state: &mut SimState, auto_ext_ms: u64) -> (r: (LoopPoint, u64))
    ensures
        *final(state) == extension_outcome(*old(state), auto_ext_ms).0,
        r == (extension_outcome(*old(state), auto_ext_ms).1, extension_outcome(*old(state), auto_ext_ms).2),
{
    let ghost s0 = *state;
    let ped_ext = take_extension(state, auto_ext_ms);
    let ghost s1 = *state;
    proof {
        reveal(extension_outcome);
    }
    if ped_ext > MIN_APPLIED_EXTENSION_MS {
        state.countdown_ms = ped_ext;
        (LoopPoint::AfterExtension, ped_ext)
    } else {
        proof {
            assert(extension_outcome(s0, auto_ext_ms) == second_solid_outcome(s1));
        }
        enter_second_solid(state)
    }
}

fn top_of_cycle(state: &mut SimState) -> (r: (LoopPoint, u64))
    ensures
        *final(state) == top_outcome(*old(state)).0,
        r == (top_outcome(*old(state)).1, top_outcome(*old(state)).2),
{
    reveal(top_outcome);
    state.phase = Phase::PedestrianGreen;
    state.ped_sign = TrafficSign::Green;
    state.ped_blinking = false;
    state.veh_sign = TrafficSign::Red;
    state.veh_blinking = false;
    state.countdown_ms = HALF_PED_GREEN_MS;
    state.blink_on = true;
    (LoopPoint::AfterFirstHalf, HALF_PED_GREEN_MS)
}

/// One decision of the basic cycle, resuming at `point` once the driver has
/// let the previous interval pass. `auto_ext_ms` is the extension to use when
/// none has been queued by the operator. Returns where to resume and how much
/// simulated time to let pass first. The crossing stays safe
/// (`lemma_loop_step_safe`).
pub fn sim_loop_step(state: &mut SimState, point: LoopPoint, auto_ext_ms: u64) -> (r: (LoopPoint, u64))
    requires
        point == LoopPoint::AfterAllRedBeforePedestrian ==> old(state).cycle_count < u32::MAX,
    ensures
        *final(state) == loop_step_outcome(*old(state), point, auto_ext_ms).0,
        r == (loop_step_outcome(*old(state), point, auto_ext_ms).1, loop_step_outcome(*old(state), point, auto_ext_ms).2),
        sim_state_wf(*old(state)) && point_ok(*old(state), point) && auto_ext_ms <= T_MAX_MS
            ==> sim_state_wf(*final(state)) && point_ok(*final(state), r.0) && 0 < r.1 <= T_MAX_MS,
{
    proof {
        reveal(loop_step_outcome);
        if sim_state_wf(*old(state)) && point_ok(*old(state), point) && auto_ext_ms <= T_MAX_MS {
            lemma_loop_step_safe(*old(state), point, auto_ext_ms);
        }
    }
    match point {
        LoopPoint::Top => top_of_cycle(state),
        LoopPoint::AfterFirstHalf => apply_extension(state, auto_ext_ms),
        LoopPoint::AfterExtension => enter_second_solid(state),
        LoopPoint::AfterSecondSolid => enter_ped_blinking(state),
        LoopPoint::AfterPedBlinking => {
            state.phase = Phase::AllRedBeforeVehicle;
            state.ped_sign = TrafficSign::Red;
            state.ped_blinking = false;
            state.countdown_ms = ALL_RED_MS;
            (LoopPoint::AfterAllRedBeforeVehicle, ALL_RED_MS)
        },
        LoopPoint::AfterAllRedBeforeVehicle => {
            state.phase = Phase::VehicleGreen;
            state.veh_sign = TrafficSign::Green;
            state.veh_blinking = false;
            state.countdown_ms = VEH_SOLID_MS;
            state.blink_on = true;
            (LoopPoint::AfterVehicleSolid, VEH_SOLID_MS)
        },
        LoopPoint::AfterVehicleSolid => {
            state.veh_blinking = true;
            state.countdown_ms = VEH_GREEN_BLINKING_MS;
            (LoopPoint::AfterVehicleBlinking, VEH_GREEN_BLINKING_MS)
        },
        LoopPoint::AfterVehicleBlinking => {
            state.phase = Phase::VehicleYellow;
            state.veh_sign = TrafficSign::Yellow;
            state.veh_blinking = false;
            state.countdown_ms = VEH_YELLOW_MS;
            (LoopPoint::AfterVehicleYellow, VEH_YELLOW_MS)
        },
        LoopPoint::AfterVehicleYellow => {
            state.phase = Phase::AllRedBeforePedestrian;
            state.veh_sign = TrafficSign::Red;
            state.countdown_ms = ALL_RED_MS;
            (LoopPoint::AfterAllRedBeforePedestrian, ALL_RED_MS)
        },
        LoopPoint::AfterAllRedBeforePedestrian => {
            state.cycle_count = state.cycle_count + 1;
            top_of_cycle(state)
        },
    }
}

impl SimState {
    /// The pause button: toggles pausing.
    pub fn press_pause(&mut self)
        ensures
            *final(self) == (SimState { paused: !old(self).paused, ..*old(self) }),
            sim_state_wf(*old(self)) ==> sim_state_wf(*final(self)),
    {
        self.paused = !self.paused;
    }

    /// The skip button (shown while paused): ends the current interval and resumes.
    pub fn press_skip_phase(&mut self)
        ensures
            *final(self) == (if old(self).paused {
                SimState { skip_phase: true, paused: false, ..*old(self) }
            } else {
                *old(self)
            }),
            sim_state_wf(*old(self)) ==> sim_state_wf(*final(self)),
    {
        if self.paused {
            self.skip_phase = true;
            self.paused = false;
        }
    }

    /// The speed buttons.
    pub fn set_speed(&mut self, speed: SimSpeed)
        ensures
            *final(self) == (SimState { speed, ..*old(self) }),
            sim_state_wf(*old(self)) ==> sim_state_wf(*final(self)),
    {
        self.speed = speed;
    }

    /// Queues an extension (milliseconds) for the next pedestrian green.
    pub fn queue_manual_extension(&mut self, ext_ms: u64)
        requires
            ext_ms <= T_MAX_MS,
        ensures
            *final(self) == (SimState { manual_ped_ext_ms: Some(ext_ms), ..*old(self) }),
            sim_state_wf(*old(self)) ==> sim_state_wf(*final(self)),
    {
        self.manual_ped_ext_ms = Some(ext_ms);
    }
}

} // verus!
