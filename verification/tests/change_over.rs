use traffic_light_control::traffic_light::{LightState, SignalStep, TrafficLight, TrafficSign};
use traffic_light_control::traffic::traffic_light::{
    LightState as HeadState, TrafficLight as Heads, TrafficLightPosition, TrafficSign as Sign,
};

fn start() -> TrafficLight {
    TrafficLight {
        sig_ped: (TrafficSign::GREEN, LightState::SOLID),
        sig_veh: (TrafficSign::RED, LightState::SOLID),
        time_ms: 0,
    }
}

#[test]
fn ped_to_red_then_vehicles_green() {
    let mut t = start();
    let steps = t.ped_to_red_veh_to_green();
    assert_eq!(steps.len(), 3);
    match steps[0] {
        SignalStep::Display(s) => {
            assert_eq!(s.sig_ped.0, TrafficSign::RED);
            assert_eq!(s.sig_veh.0, TrafficSign::RED);
        }
        _ => panic!("expected a display"),
    }
    assert!(matches!(steps[1], SignalStep::Wait(3_000)));
    assert_eq!(t.sig_veh, (TrafficSign::GREEN, LightState::SOLID));
    assert_eq!(t.sig_ped, (TrafficSign::RED, LightState::SOLID));

    let steps = t.veh_to_red_ped_to_green();
    assert_eq!(steps.len(), 5);
    match steps[0] {
        SignalStep::Display(s) => assert_eq!(s.sig_veh.0, TrafficSign::YELLOW),
        _ => panic!("expected a display"),
    }
    assert!(matches!(steps[1], SignalStep::Wait(3_000)));
    assert!(matches!(steps[3], SignalStep::Wait(3_000)));
    assert_eq!(t.sig_ped, (TrafficSign::GREEN, LightState::SOLID));
    assert_eq!(t.sig_veh, (TrafficSign::RED, LightState::SOLID));
    assert_eq!(t.time_ms, 3_000);
}

#[test]
fn set_sig_by_position_name() {
    let mut t = start();
    t.set_sig("veh", TrafficSign::YELLOW);
    assert_eq!(t.sig_veh, (TrafficSign::YELLOW, LightState::SOLID));
    t.set_sig("ped", TrafficSign::RED);
    assert_eq!(t.sig_ped, (TrafficSign::RED, LightState::SOLID));
}

#[test]
fn heads_set_by_position() {
    let mut h = Heads { sig_ped: (Sign::Green, HeadState::Solid), sig_veh: (Sign::Red, HeadState::Solid), time_ms: 0 };
    h.set_sig(TrafficLightPosition::Veh1, Sign::Yellow, HeadState::Blinking);
    assert_eq!(h.sig_veh, (Sign::Yellow, HeadState::Blinking));
    h.set_sig(TrafficLightPosition::Ped1, Sign::Red, HeadState::Off);
    assert_eq!(h.sig_ped, (Sign::Red, HeadState::Off));
}
