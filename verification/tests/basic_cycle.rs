use traffic_light_control::sim::traffic_light_sim::{LoopPoint, SimSpeed, SleepTimer};
use traffic_light_control::traffic::traffic_light::TrafficSign;
use traffic_light_control::traffic_light_sim::{sim_loop_step, sim_sleep_interrupted, sim_sleep_tick, Phase, SimState};

#[test]
fn basic_phase_labels() {
    assert_eq!(Phase::PedestrianGreen.label(), "Phase 1 — Pedestrian Green");
    assert_eq!(Phase::AllRedBeforeVehicle.label(), "All Red — Preparing for Vehicles");
    assert_eq!(Phase::VehicleGreen.label(), "Phase 2 — Vehicle Green");
    assert_eq!(Phase::VehicleYellow.label(), "Vehicle Yellow");
    assert_eq!(Phase::AllRedBeforePedestrian.label(), "All Red — Preparing for Pedestrians");
}

#[test]
fn basic_cycle_with_extension() {
    let mut s = SimState::default();
    let steps = [
        (LoopPoint::Top, LoopPoint::AfterFirstHalf, 15_000),
        (LoopPoint::AfterFirstHalf, LoopPoint::AfterExtension, 9_000),
        (LoopPoint::AfterExtension, LoopPoint::AfterSecondSolid, 8_000),
        (LoopPoint::AfterSecondSolid, LoopPoint::AfterPedBlinking, 7_000),
        (LoopPoint::AfterPedBlinking, LoopPoint::AfterAllRedBeforeVehicle, 3_000),
        (LoopPoint::AfterAllRedBeforeVehicle, LoopPoint::AfterVehicleSolid, 5_000),
        (LoopPoint::AfterVehicleSolid, LoopPoint::AfterVehicleBlinking, 10_000),
        (LoopPoint::AfterVehicleBlinking, LoopPoint::AfterVehicleYellow, 3_000),
        (LoopPoint::AfterVehicleYellow, LoopPoint::AfterAllRedBeforePedestrian, 3_000),
        (LoopPoint::AfterAllRedBeforePedestrian, LoopPoint::AfterFirstHalf, 15_000),
    ];
    for (from, to, ms) in steps {
        assert_eq!(sim_loop_step(&mut s, from, 9_000), (to, ms));
        assert!(s.ped_sign != TrafficSign::Green || s.veh_sign == TrafficSign::Red);
        assert!(s.ped_sign != TrafficSign::Yellow);
    }
    assert_eq!(s.cycle_count, 1);
    assert_eq!(s.ped_extension_ms, 9_000);
}

#[test]
fn basic_skip_pauses() {
    let mut s = SimState::default();
    s.press_pause();
    s.press_skip_phase();
    assert!(sim_sleep_interrupted(&mut s));
    assert!(s.paused);
    assert_eq!(s.countdown_ms, 0);
    let mut t = SleepTimer::new(100);
    assert!(!sim_sleep_tick(&mut s, &mut t));
    s.press_pause();
    s.set_speed(SimSpeed::Double);
    assert!(sim_sleep_tick(&mut s, &mut t));
}
