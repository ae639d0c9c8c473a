//! The signal-cycle controller with manual control and an all-red hold.

pub mod traffic_light_sim;
