use request_pipeline_sim::app::{App, FocusedComponent, Key};
use request_pipeline_sim::scenario::Scenario;
use request_pipeline_sim::simulation::ServiceState;

fn app() -> App {
    App::new(None, Scenario::default())
}

#[test]
fn tab_focus_cycles_through_components() {
    let mut app = app();

    assert_eq!(app.focused_component(), FocusedComponent::Generator);

    app.cycle_focus();
    assert_eq!(app.focused_component(), FocusedComponent::Queue);

    app.cycle_focus();
    assert_eq!(app.focused_component(), FocusedComponent::ServiceA);

    app.cycle_focus();
    assert_eq!(app.focused_component(), FocusedComponent::ServiceB);

    app.cycle_focus();
    assert_eq!(app.focused_component(), FocusedComponent::Generator);
}

#[test]
fn restart_action_only_applies_to_focused_failed_service() {
    let mut app = app();
    app.simulation.service_a.state = ServiceState::Failed;
    app.simulation.service_a.pressure_ticks = 10;
    app.simulation.service_b.state = ServiceState::Failed;
    app.simulation.service_b.pressure_ticks = 12;

    app.restart_focused_service();

    assert_eq!(app.simulation.service_a.state, ServiceState::Failed);
    assert_eq!(app.simulation.service_a.pressure_ticks, 10);
    assert_eq!(app.simulation.service_b.state, ServiceState::Failed);
    assert_eq!(app.simulation.service_b.pressure_ticks, 12);

    app.cycle_focus();
    app.cycle_focus();
    app.restart_focused_service();

    assert_eq!(app.simulation.service_a.state, ServiceState::Healthy);
    assert_eq!(app.simulation.service_a.pressure_ticks, 0);
    assert_eq!(app.simulation.service_b.state, ServiceState::Failed);
    assert_eq!(app.simulation.service_b.pressure_ticks, 12);
}

#[test]
fn app_uses_selected_scenario_config() {
    let app = App::new(None, Scenario::RetryStorm);

    assert_eq!(app.scenario(), Scenario::RetryStorm);
    assert_eq!(app.simulation.config, Scenario::RetryStorm.config());
}

#[test]
fn app_quits_once_max_ticks_is_reached() {
    let mut app = App::new(Some(2), Scenario::SteadyState);

    app.tick();
    assert!(!app.should_quit());
    assert_eq!(app.simulation.tick, 1);

    app.tick();
    assert!(app.should_quit());
    assert_eq!(app.simulation.tick, 2);
}

#[test]
fn app_without_max_ticks_keeps_running() {
    let mut app = App::new(None, Scenario::SteadyState);
    for _ in 0..50 {
        app.tick();
    }
    assert!(!app.should_quit());
}

#[test]
fn keys_drive_focus_restart_and_quit() {
    let mut app = app();
    app.simulation.service_b.state = ServiceState::Failed;

    assert!(!app.handle_key(Key::Char('x'), false));
    assert!(!app.should_quit());
    assert!(!app.handle_key(Key::Char('c'), false));
    assert!(!app.should_quit());

    assert!(!app.handle_key(Key::Tab, false));
    assert!(!app.handle_key(Key::Tab, false));
    assert!(!app.handle_key(Key::Tab, false));
    assert_eq!(app.focused_component(), FocusedComponent::ServiceB);

    assert!(app.handle_key(Key::Char('r'), false));
    assert_eq!(app.simulation.service_b.state, ServiceState::Healthy);

    assert!(!app.handle_key(Key::Other, false));
    assert!(!app.should_quit());
    assert!(!app.handle_key(Key::Char('c'), true));
    assert!(app.should_quit());

    let mut app = self::app();
    app.handle_key(Key::Char('q'), false);
    assert!(app.should_quit());

    let mut app = self::app();
    app.handle_key(Key::Esc, false);
    assert!(app.should_quit());
}

#[test]
fn focused_component_labels() {
    assert_eq!(FocusedComponent::Generator.label(), "Generator");
    assert_eq!(FocusedComponent::Queue.label(), "Queue");
    assert_eq!(FocusedComponent::ServiceA.label(), "Service A");
    assert_eq!(FocusedComponent::ServiceB.label(), "Service B");
}
