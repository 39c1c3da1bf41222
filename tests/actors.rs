use pico_template::button::ButtonActorState::{Idle, Notifying, Released};
use pico_template::button::{button_edge, button_transition, ButtonActor, ButtonActorState};
use pico_template::control::{ControlActorState, RealtimeControlActor};
use pico_template::maintenance::{MaintenanceActor, MaintenanceActorState};
use pico_template::messages::ButtonMessage;

#[test]
fn button_initial_state_is_idle() {
    let actor = ButtonActor::new();
    assert_eq!(actor.state, ButtonActorState::Idle);
}

#[test]
fn maintenance_initial_state_is_idle() {
    let actor = MaintenanceActor::new();
    assert_eq!(actor.state, MaintenanceActorState::Idle);
}

#[test]
fn control_initial_state_is_starting() {
    let actor = RealtimeControlActor::new();
    assert_eq!(actor.state, ControlActorState::Starting);
}

#[test]
fn button_never_pressed_stays_idle() {
    let mut actor = ButtonActor::new();
    for _ in 0..1000 {
        actor.step();
        assert_eq!(actor.state, ButtonActorState::Idle);
    }
    assert_eq!(actor.press_count, 0);
}

#[test]
fn button_press_counts_once_while_held() {
    let mut actor = ButtonActor::new();
    actor.pressed = true;
    for _ in 0..5 {
        actor.step();
        assert_eq!(actor.state, ButtonActorState::Notifying);
    }
    assert_eq!(actor.press_count, 1);
    actor.pressed = false;
    actor.step();
    assert_eq!(actor.state, ButtonActorState::Released);
    actor.step();
    assert_eq!(actor.state, ButtonActorState::Idle);
    assert_eq!(actor.press_count, 1);
}

#[test]
fn button_press_right_after_release_counts_again() {
    let mut actor = ButtonActor::new();
    actor.pressed = true;
    actor.step();
    actor.pressed = false;
    actor.step();
    actor.pressed = true;
    actor.step();
    assert_eq!(actor.state, ButtonActorState::Notifying);
    assert_eq!(actor.press_count, 2);
}

#[test]
fn button_press_count_wraps() {
    let mut actor = ButtonActor::new();
    actor.press_count = u32::MAX;
    actor.pressed = true;
    actor.step();
    assert_eq!(actor.press_count, 0);
}

#[test]
fn button_transition_table() {
    assert_eq!(button_transition(Idle, false), Idle);
    assert_eq!(button_transition(Idle, true), Notifying);
    assert_eq!(button_transition(Notifying, true), Notifying);
    assert_eq!(button_transition(Notifying, false), Released);
    assert_eq!(button_transition(Released, true), Notifying);
    assert_eq!(button_transition(Released, false), Idle);
}

#[test]
fn button_edges_only_on_change() {
    assert_eq!(button_edge(Idle, Notifying), Some(ButtonMessage::Pressed));
    assert_eq!(button_edge(Released, Notifying), Some(ButtonMessage::Pressed));
    assert_eq!(button_edge(Notifying, Released), Some(ButtonMessage::Released));
    assert_eq!(button_edge(Notifying, Notifying), None);
    assert_eq!(button_edge(Released, Idle), None);
    assert_eq!(button_edge(Idle, Idle), None);
}

#[test]
fn maintenance_four_steps_close_the_cycle() {
    let mut actor = MaintenanceActor::new();
    let mut flips = 0;
    let mut led = actor.led_state;
    let expected = [
        MaintenanceActorState::Checking,
        MaintenanceActorState::Toggling,
        MaintenanceActorState::Reporting,
        MaintenanceActorState::Idle,
    ];
    for state in expected {
        actor.step();
        assert_eq!(actor.state, state);
        if actor.led_state != led {
            flips += 1;
            led = actor.led_state;
        }
    }
    assert_eq!(flips, 1);
    assert_eq!(actor.led_state, true);
    assert_eq!(actor.tick_count, 4);
    assert!(actor.system_ok);
}

#[test]
fn maintenance_heartbeat_wraps() {
    let mut actor = MaintenanceActor::new();
    actor.tick_count = i32::MAX;
    actor.step();
    assert_eq!(actor.tick_count, i32::MIN);
}

#[test]
fn control_counts_each_cycle() {
    let mut actor = RealtimeControlActor::new();
    for i in 1..=10u32 {
        actor.step();
        assert_eq!(actor.cycle_count, i);
    }
    assert_eq!(actor.state, ControlActorState::Running);
    assert!(actor.enabled);
    assert!(!actor.error_flag);
}

#[test]
fn control_cycle_count_wraps() {
    let mut actor = RealtimeControlActor::new();
    actor.cycle_count = u32::MAX;
    actor.step();
    assert_eq!(actor.cycle_count, 0);
}
