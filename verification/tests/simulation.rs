use traffic_light_control::sim::traffic_light_sim::{
    manual_sim_sleep_tick, manual_transition_step, sim_loop_step, sim_sleep_interrupted,
    sim_sleep_tick, LoopAction, LoopPoint, ManualStage, Phase, SimSpeed, SimState, SleepTimer,
};
use traffic_light_control::traffic::traffic_light::{LightState, TrafficSign};

fn safe(s: &SimState) -> bool {
    let ped = s.traffic_light.sig_ped.0;
    let veh = s.traffic_light.sig_veh.0;
    ped != TrafficSign::Yellow && (ped != TrafficSign::Green || veh == TrafficSign::Red)
}

#[test]
fn phase_labels() {
    assert_eq!(Phase::PedestrianGreen.label(), "Phase 1 — Pedestrian Green");
    assert_eq!(Phase::PedestrianGreenExtension.label(), "Phase 1 — Pedestrian Green (Extended)");
    assert_eq!(Phase::AllRedBeforeVehicle.label(), "All Red — Preparing for Vehicles");
    assert_eq!(Phase::VehicleGreen.label(), "Phase 2 — Vehicle Green");
    assert_eq!(Phase::VehicleYellow.label(), "Vehicle Yellow");
    assert_eq!(Phase::AllRedBeforePedestrian.label(), "All Red — Preparing for Pedestrians");
}

#[test]
fn one_full_cycle_without_extension() {
    let mut s = SimState::default();
    assert!(safe(&s));
    let expected = [
        (LoopPoint::Top, LoopPoint::AfterFirstHalf, 15_000, Phase::PedestrianGreen),
        (LoopPoint::AfterFirstHalf, LoopPoint::AfterSecondSolid, 8_000, Phase::PedestrianGreen),
        (LoopPoint::AfterSecondSolid, LoopPoint::AfterPedBlinking, 7_000, Phase::PedestrianGreen),
        (LoopPoint::AfterPedBlinking, LoopPoint::AfterAllRedBeforeVehicle, 3_000, Phase::AllRedBeforeVehicle),
        (LoopPoint::AfterAllRedBeforeVehicle, LoopPoint::AfterVehicleSolid, 5_000, Phase::VehicleGreen),
        (LoopPoint::AfterVehicleSolid, LoopPoint::AfterVehicleBlinking, 10_000, Phase::VehicleGreen),
        (LoopPoint::AfterVehicleBlinking, LoopPoint::AfterVehicleYellow, 3_000, Phase::VehicleYellow),
        (LoopPoint::AfterVehicleYellow, LoopPoint::AfterAllRedBeforePedestrian, 3_000, Phase::AllRedBeforePedestrian),
        (LoopPoint::AfterAllRedBeforePedestrian, LoopPoint::AfterFirstHalf, 15_000, Phase::PedestrianGreen),
    ];
    for (from, to, ms, phase) in expected {
        let (p, a) = sim_loop_step(&mut s, from, 0);
        assert_eq!(p, to);
        assert_eq!(a, LoopAction::Sleep(ms));
        assert_eq!(s.phase, phase);
        assert_eq!(s.countdown_ms, ms);
        assert!(safe(&s));
    }
    assert_eq!(s.cycle_count, 1);
    assert_eq!(s.traffic_light.sig_ped, (TrafficSign::Green, LightState::Solid));
    assert_eq!(s.traffic_light.sig_veh, (TrafficSign::Red, LightState::Solid));
}

#[test]
fn lights_through_the_cycle() {
    let mut s = SimState::default();
    let _ = sim_loop_step(&mut s, LoopPoint::Top, 0);
    let _ = sim_loop_step(&mut s, LoopPoint::AfterFirstHalf, 0);
    let _ = sim_loop_step(&mut s, LoopPoint::AfterSecondSolid, 0);
    assert_eq!(s.traffic_light.sig_ped, (TrafficSign::Green, LightState::Blinking));
    assert!(s.ped_blinking);
    let _ = sim_loop_step(&mut s, LoopPoint::AfterPedBlinking, 0);
    assert_eq!(s.traffic_light.sig_ped, (TrafficSign::Red, LightState::Solid));
    assert_eq!(s.traffic_light.sig_veh, (TrafficSign::Red, LightState::Solid));
    let _ = sim_loop_step(&mut s, LoopPoint::AfterAllRedBeforeVehicle, 0);
    assert_eq!(s.traffic_light.sig_veh, (TrafficSign::Green, LightState::Solid));
    let _ = sim_loop_step(&mut s, LoopPoint::AfterVehicleSolid, 0);
    assert_eq!(s.traffic_light.sig_veh, (TrafficSign::Green, LightState::Blinking));
    let _ = sim_loop_step(&mut s, LoopPoint::AfterVehicleBlinking, 0);
    assert_eq!(s.traffic_light.sig_veh, (TrafficSign::Yellow, LightState::Solid));
    let _ = sim_loop_step(&mut s, LoopPoint::AfterVehicleYellow, 0);
    assert_eq!(s.traffic_light.sig_veh, (TrafficSign::Red, LightState::Solid));
}

#[test]
fn extension_is_applied_and_manual_one_wins() {
    let mut s = SimState::default();
    let _ = sim_loop_step(&mut s, LoopPoint::Top, 0);
    let (p, a) = sim_loop_step(&mut s, LoopPoint::AfterFirstHalf, 12_000);
    assert_eq!((p, a), (LoopPoint::AfterExtension, LoopAction::Sleep(12_000)));
    assert_eq!(s.phase, Phase::PedestrianGreenExtension);
    assert_eq!(s.ped_extension_ms, 12_000);
    let (p, a) = sim_loop_step(&mut s, LoopPoint::AfterExtension, 12_000);
    assert_eq!((p, a), (LoopPoint::AfterSecondSolid, LoopAction::Sleep(8_000)));
    assert_eq!(s.phase, Phase::PedestrianGreen);

    let mut s = SimState::default();
    s.queue_manual_extension(4_000);
    let _ = sim_loop_step(&mut s, LoopPoint::Top, 0);
    let (p, a) = sim_loop_step(&mut s, LoopPoint::AfterFirstHalf, 30_000);
    assert_eq!((p, a), (LoopPoint::AfterExtension, LoopAction::Sleep(4_000)));
    assert_eq!(s.manual_ped_ext_ms, None);
    assert_eq!(s.ped_extension_ms, 4_000);

    // an extension of 0.1 s or less is not applied
    let mut s = SimState::default();
    let _ = sim_loop_step(&mut s, LoopPoint::Top, 0);
    let (p, _) = sim_loop_step(&mut s, LoopPoint::AfterFirstHalf, 100);
    assert_eq!(p, LoopPoint::AfterSecondSolid);
    assert_eq!(s.ped_extension_ms, 100);
}

#[test]
fn sleep_ticks_advance_countdown_and_blink() {
    let mut s = SimState::default();
    let mut t = SleepTimer::new(1_000);
    let blink = s.blink_on;
    let mut ticks = 0;
    loop {
        ticks += 1;
        if sim_sleep_tick(&mut s, &mut t) {
            break;
        }
        if ticks == 10 {
            assert_eq!(s.blink_on, !blink);
            assert_eq!(s.countdown_ms, 500);
        }
    }
    assert_eq!(ticks, 20);
    assert_eq!(s.countdown_ms, 0);
    assert_eq!(s.blink_on, blink);

    let mut s = SimState::default();
    s.set_speed(SimSpeed::Quadruple);
    let mut t = SleepTimer::new(1_000);
    let mut ticks = 0;
    while !sim_sleep_tick(&mut s, &mut t) {
        ticks += 1;
    }
    assert_eq!(ticks + 1, 5);
}

#[test]
fn paused_sleep_does_not_advance() {
    let mut s = SimState::default();
    s.press_pause();
    assert!(s.paused);
    let mut t = SleepTimer::new(1_000);
    assert!(!sim_sleep_tick(&mut s, &mut t));
    assert_eq!(t.elapsed_ms, 0);
    // a manual transition's sleep is not held by pausing
    assert!(!manual_sim_sleep_tick(&mut s, &mut t));
    assert_eq!(t.elapsed_ms, 50);
}

#[test]
fn skip_ends_the_interval() {
    let mut s = SimState::default();
    assert!(!sim_sleep_interrupted(&mut s));
    s.press_pause();
    s.press_skip_phase();
    assert!(s.skip_phase && !s.paused);
    assert!(sim_sleep_interrupted(&mut s));
    assert!(!s.skip_phase);
    assert_eq!(s.countdown_ms, 0);
}

#[test]
fn manual_control_and_phase_change() {
    let mut s = SimState::default();
    s.press_manual_toggle();
    assert!(s.manual_control_enabled && s.paused);
    assert_eq!(s.countdown_ms, 0);
    assert_eq!(sim_loop_step(&mut s, LoopPoint::AfterFirstHalf, 0), (LoopPoint::Top, LoopAction::Hold));
    s.press_next_phase();
    assert!(s.manual_switch_phase);
    assert_eq!(sim_loop_step(&mut s, LoopPoint::Top, 0), (LoopPoint::Top, LoopAction::ManualTransition));

    let mut stage = ManualStage::Start;
    let mut waits = Vec::new();
    while let Some((next, ms)) = manual_transition_step(&mut s, stage) {
        assert!(safe(&s));
        waits.push(ms);
        stage = next;
    }
    assert_eq!(waits, vec![7_000, 3_000]);
    assert_eq!(s.phase, Phase::VehicleGreen);
    assert_eq!(s.traffic_light.sig_ped, (TrafficSign::Red, LightState::Solid));
    assert_eq!(s.traffic_light.sig_veh, (TrafficSign::Green, LightState::Solid));
    assert!(!s.manual_switch_phase);

    s.press_next_phase();
    let mut stage = ManualStage::Start;
    let mut waits = Vec::new();
    while let Some((next, ms)) = manual_transition_step(&mut s, stage) {
        assert!(safe(&s));
        waits.push(ms);
        stage = next;
    }
    assert_eq!(waits, vec![10_000, 3_000, 3_000]);
    assert_eq!(s.phase, Phase::PedestrianGreen);
    assert_eq!(s.traffic_light.sig_ped, (TrafficSign::Green, LightState::Solid));
    assert_eq!(s.traffic_light.sig_veh, (TrafficSign::Red, LightState::Solid));

    // leaving manual control: greens blink, the cycle runs out to all red
    s.press_manual_toggle();
    assert!(!s.manual_control_enabled && s.exiting_manual_mode && !s.paused);
    assert_eq!(s.traffic_light.sig_ped, (TrafficSign::Green, LightState::Blinking));
    assert!(s.pause_controls_disabled());
    let (p, a) = sim_loop_step(&mut s, LoopPoint::Top, 0);
    assert_eq!((p, a), (LoopPoint::AfterPedBlinking, LoopAction::Sleep(7_000)));
    let _ = sim_loop_step(&mut s, LoopPoint::AfterPedBlinking, 0);
    let (p, _) = sim_loop_step(&mut s, LoopPoint::AfterAllRedBeforeVehicle, 0);
    assert!(!s.exiting_manual_mode);
    assert_eq!(p, LoopPoint::AfterVehicleSolid);
}

#[test]
fn manual_change_from_another_phase_is_dropped() {
    let mut s = SimState::default();
    let _ = sim_loop_step(&mut s, LoopPoint::Top, 0);
    let _ = sim_loop_step(&mut s, LoopPoint::AfterFirstHalf, 5_000);
    assert_eq!(s.phase, Phase::PedestrianGreenExtension);
    s.press_manual_toggle();
    s.press_next_phase();
    assert_eq!(manual_transition_step(&mut s, ManualStage::Start), None);
    assert!(!s.manual_switch_phase);
    assert_eq!(s.phase, Phase::PedestrianGreenExtension);
}

#[test]
fn all_red_hold_from_vehicle_green() {
    let mut s = SimState::default();
    for p in [LoopPoint::Top, LoopPoint::AfterFirstHalf, LoopPoint::AfterSecondSolid, LoopPoint::AfterPedBlinking, LoopPoint::AfterAllRedBeforeVehicle] {
        let _ = sim_loop_step(&mut s, p, 0);
    }
    assert_eq!(s.phase, Phase::VehicleGreen);
    s.press_all_red();
    assert!(s.need_yellow_before_all_red && s.all_red_after_blinking && s.skip_phase && s.veh_blinking);
    assert_eq!(s.countdown_ms, 10_000);
    assert!(s.modes_transitioning());
    // locked while under way
    s.press_all_red();
    assert!(!s.all_red_hold_enabled);
    // the interrupted solid green ends; blinking, then yellow, then all red, then the hold
    assert!(sim_sleep_interrupted(&mut s));
    let (p, _) = sim_loop_step(&mut s, LoopPoint::AfterVehicleSolid, 0);
    assert_eq!(p, LoopPoint::AfterVehicleBlinking);
    let (p, a) = sim_loop_step(&mut s, LoopPoint::AfterVehicleBlinking, 0);
    assert_eq!((p, a), (LoopPoint::AfterVehicleYellow, LoopAction::Sleep(3_000)));
    let (p, _) = sim_loop_step(&mut s, LoopPoint::AfterVehicleYellow, 0);
    assert_eq!(p, LoopPoint::AfterAllRedBeforePedestrian);
    assert!(s.transitioning_to_all_red);
    let (p, a) = sim_loop_step(&mut s, LoopPoint::AfterAllRedBeforePedestrian, 0);
    assert_eq!((p, a), (LoopPoint::Top, LoopAction::Hold));
    assert!(s.all_red_hold_enabled && !s.transitioning_to_all_red);
    assert_eq!(s.cycle_count, 0);
    assert_eq!(s.traffic_light.sig_ped.0, TrafficSign::Red);
    assert_eq!(s.traffic_light.sig_veh.0, TrafficSign::Red);
    // release: both solid red, the cycle resumes at pedestrian green
    s.press_all_red();
    assert!(!s.all_red_hold_enabled);
    let (p, _) = sim_loop_step(&mut s, LoopPoint::Top, 0);
    assert_eq!(p, LoopPoint::AfterFirstHalf);
    assert_eq!(s.traffic_light.sig_ped, (TrafficSign::Green, LightState::Solid));
}

#[test]
fn all_red_during_all_red_holds_at_once() {
    let mut s = SimState::default();
    for p in [LoopPoint::Top, LoopPoint::AfterFirstHalf, LoopPoint::AfterSecondSolid, LoopPoint::AfterPedBlinking] {
        let _ = sim_loop_step(&mut s, p, 0);
    }
    assert_eq!(s.phase, Phase::AllRedBeforeVehicle);
    s.press_all_red();
    assert!(s.all_red_hold_enabled);
    let (p, a) = sim_loop_step(&mut s, LoopPoint::AfterAllRedBeforeVehicle, 0);
    assert_eq!((p, a), (LoopPoint::Top, LoopAction::Hold));
}

#[test]
fn pause_is_locked_under_manual_control() {
    let mut s = SimState::default();
    s.press_manual_toggle();
    assert!(s.paused);
    s.press_pause();
    assert!(s.paused);
    s.press_skip_phase();
    assert!(!s.skip_phase);
}

#[test]
fn leaving_manual_control_in_vehicle_green_runs_out_through_yellow_and_all_red() {
    let mut s = SimState::default();
    s.press_manual_toggle();
    s.press_next_phase();
    let mut stage = ManualStage::Start;
    while let Some((next, _)) = manual_transition_step(&mut s, stage) {
        stage = next;
    }
    assert_eq!(s.phase, Phase::VehicleGreen);
    s.press_manual_toggle();
    assert!(s.exiting_manual_mode);
    assert_eq!(s.traffic_light.sig_veh, (TrafficSign::Green, LightState::Blinking));
    let (p, a) = sim_loop_step(&mut s, LoopPoint::Top, 0);
    assert_eq!((p, a), (LoopPoint::AfterVehicleBlinking, LoopAction::Sleep(10_000)));
    assert_eq!(s.traffic_light.sig_ped.0, TrafficSign::Red);
    assert_eq!(s.traffic_light.sig_veh, (TrafficSign::Green, LightState::Blinking));
    let (p, a) = sim_loop_step(&mut s, p, 0);
    assert_eq!((p, a), (LoopPoint::AfterVehicleYellow, LoopAction::Sleep(3_000)));
    assert_eq!(s.traffic_light.sig_veh, (TrafficSign::Yellow, LightState::Solid));
    assert_eq!(s.traffic_light.sig_ped.0, TrafficSign::Red);
    let (p, a) = sim_loop_step(&mut s, p, 0);
    assert_eq!((p, a), (LoopPoint::AfterAllRedBeforePedestrian, LoopAction::Sleep(3_000)));
    assert_eq!(s.traffic_light.sig_veh.0, TrafficSign::Red);
    assert_eq!(s.traffic_light.sig_ped.0, TrafficSign::Red);
    let (p, _) = sim_loop_step(&mut s, p, 0);
    assert!(!s.exiting_manual_mode);
    assert_eq!(p, LoopPoint::AfterFirstHalf);
    assert_eq!(s.traffic_light.sig_ped, (TrafficSign::Green, LightState::Solid));
    assert_eq!(s.traffic_light.sig_veh.0, TrafficSign::Red);
}

#[test]
fn all_red_in_the_first_pedestrian_half_blinks_once_then_all_red() {
    let mut s = SimState::default();
    let (p, _) = sim_loop_step(&mut s, LoopPoint::Top, 0);
    assert_eq!(p, LoopPoint::AfterFirstHalf);
    s.press_all_red();
    assert!(s.all_red_after_blinking && s.skip_phase);
    assert!(sim_sleep_interrupted(&mut s));
    let (p, a) = sim_loop_step(&mut s, LoopPoint::AfterFirstHalf, 0);
    assert_eq!((p, a), (LoopPoint::AfterPedBlinking, LoopAction::Sleep(7_000)));
    assert_eq!(s.traffic_light.sig_ped, (TrafficSign::Green, LightState::Blinking));
    let (p, a) = sim_loop_step(&mut s, p, 0);
    assert_eq!((p, a), (LoopPoint::AfterAllRedBeforeVehicle, LoopAction::Sleep(3_000)));
    assert_eq!(s.phase, Phase::AllRedBeforeVehicle);
    assert_eq!(s.traffic_light.sig_ped.0, TrafficSign::Red);
    assert_eq!(s.traffic_light.sig_veh.0, TrafficSign::Red);
    let (p, a) = sim_loop_step(&mut s, p, 0);
    assert_eq!((p, a), (LoopPoint::Top, LoopAction::Hold));
    assert!(s.all_red_hold_enabled && !s.transitioning_to_all_red);
    assert_eq!(s.phase, Phase::AllRedBeforeVehicle);
}

#[test]
fn manual_change_ends_when_manual_control_is_switched_off() {
    let mut s = SimState::default();
    s.press_manual_toggle();
    s.press_next_phase();
    let first = manual_transition_step(&mut s, ManualStage::Start);
    assert_eq!(first, Some((ManualStage::PedBlinked, 7_000)));
    let second = manual_transition_step(&mut s, ManualStage::PedBlinked);
    assert_eq!(second, Some((ManualStage::PedCleared, 3_000)));
    s.press_manual_toggle();
    assert!(!s.manual_control_enabled);
    assert_eq!(manual_transition_step(&mut s, ManualStage::PedCleared), None);
    assert_eq!(s.phase, Phase::AllRedBeforeVehicle);
    assert_eq!(s.traffic_light.sig_veh.0, TrafficSign::Red);
    assert!(!s.manual_switch_phase);
}
