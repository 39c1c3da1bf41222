use pico_template::button::{ButtonActor, ButtonActorState};
use pico_template::control::RealtimeControlActor;
use pico_template::maintenance::{MaintenanceActor, MaintenanceActorState};

#[test]
fn test_button_actor_init() {
    let actor = ButtonActor::new();
    assert!(actor.press_count == 0);
    assert!(actor.pressed == false);
}

#[test]
fn test_maintenance_actor_init() {
    let actor = MaintenanceActor::new();
    assert!(actor.tick_count == 0);
    assert!(actor.led_state == false);
    assert!(actor.system_ok == true);
}

#[test]
fn test_control_actor_init() {
    let actor = RealtimeControlActor::new();
    assert!(actor.cycle_count == 0);
    assert!(actor.enabled == true);
    assert!(actor.error_flag == false);
}

#[test]
fn test_button_actor_step() {
    let mut actor = ButtonActor::new();

    // Initial state should be Idle
    assert!(matches!(actor.state, ButtonActorState::Idle));

    // Step with no press should stay in Idle
    actor.step();
    assert!(matches!(actor.state, ButtonActorState::Idle));
}

#[test]
fn test_maintenance_actor_step() {
    let mut actor = MaintenanceActor::new();

    // Initial state should be Idle
    assert!(matches!(actor.state, MaintenanceActorState::Idle));

    // Step should transition to Checking
    actor.step();
}
