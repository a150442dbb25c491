use request_pipeline_sim::app::{App, FocusedComponent, Key};
use request_pipeline_sim::dashboard::{backpressure_label, queue_slot_counts, status_signal_labels};
use request_pipeline_sim::scenario::Scenario;
use request_pipeline_sim::simulation::{
    Request, ServiceId, ServiceState, Simulation, SimulationConfig,
};

fn run(scenario: Scenario, ticks: usize) -> Vec<Simulation> {
    let mut states = Vec::new();
    for n in 0..ticks {
        let mut simulation = Simulation::new(scenario.config());
        for _ in 0..n {
            simulation.tick();
        }
        states.push(simulation);
    }
    states
}

#[test]
fn every_offered_request_is_accepted_or_dropped() {
    for scenario in Scenario::ALL {
        for simulation in run(scenario, 40) {
            assert_eq!(simulation.generated, simulation.accepted + simulation.dropped);
            assert_eq!(
                simulation.last_generated,
                simulation.last_accepted + simulation.last_dropped
            );
        }
    }
}

#[test]
fn accepted_requests_are_queued_processed_or_exhausted() {
    for scenario in Scenario::ALL {
        for simulation in run(scenario, 40) {
            let exhausted =
                simulation.service_a.retry_exhausted + simulation.service_b.retry_exhausted;
            assert_eq!(
                simulation.queue_depth() as u64 + simulation.total_processed() + exhausted,
                simulation.accepted
            );
            assert_eq!(simulation.retry_exhausted, exhausted);
            assert_eq!(
                simulation.retry_attempts,
                simulation.service_a.retry_attempts + simulation.service_b.retry_attempts
            );
        }
    }
}

#[test]
fn queue_history_and_retries_stay_within_limits() {
    for scenario in Scenario::ALL {
        let config = scenario.config();
        for simulation in run(scenario, 40) {
            assert!(simulation.queue_depth() <= config.max_queue_size);
            assert!(simulation.history().len() <= config.history_limit);
            assert!(simulation
                .queue
                .iter()
                .all(|request| request.retries <= config.max_request_retries));
            if simulation.tick > 0 {
                assert_eq!(simulation.history().back().unwrap().tick, simulation.tick);
            }
        }
    }
}

#[test]
fn failed_services_stay_failed_until_restarted() {
    let mut simulation = Simulation::new(Scenario::DualFailure.config());
    while simulation.service_b.state != ServiceState::Failed {
        simulation.tick();
    }
    for _ in 0..10 {
        simulation.tick();
        assert_eq!(simulation.service_b.state, ServiceState::Failed);
    }
    let before = simulation.service_b.processed;
    simulation.restart_service(ServiceId::B);
    assert_eq!(simulation.service_b.state, ServiceState::Healthy);
    assert_eq!(simulation.service_b.pressure_ticks, 0);
    assert_eq!(simulation.service_b.processed, before);
    simulation.restart_service(ServiceId::B);
    assert_eq!(simulation.service_b.state, ServiceState::Healthy);
}

#[test]
fn restarting_a_working_service_changes_nothing() {
    let mut simulation = Simulation::new(Scenario::PressureRamp.config());
    for _ in 0..6 {
        simulation.tick();
    }
    let state = simulation.service_a.state;
    let pressure = simulation.service_a.pressure_ticks;
    assert_ne!(state, ServiceState::Failed);
    simulation.restart_service(ServiceId::A);
    assert_eq!(simulation.service_a.state, state);
    assert_eq!(simulation.service_a.pressure_ticks, pressure);
}

#[test]
fn backpressure_halves_the_generation_rate_but_never_below_one() {
    let config = SimulationConfig {
        requests_per_tick: 1,
        service_capacity_per_tick: 0,
        max_queue_size: 4,
        backpressure_threshold_ticks: 1,
        ..SimulationConfig::default()
    };
    let mut simulation = Simulation::new(config);
    simulation.queue.extend([Request::new(), Request::new(), Request::new()]);
    simulation.tick();
    assert!(simulation.backpressure_active);
    assert_eq!(simulation.last_generated, 1);

    let config = SimulationConfig { requests_per_tick: 7, ..config };
    let mut simulation = Simulation::new(config);
    simulation.queue.extend([Request::new(), Request::new(), Request::new()]);
    simulation.tick();
    assert!(simulation.backpressure_active);
    assert_eq!(simulation.last_generated, 3);
}

#[test]
fn zero_history_limit_records_nothing() {
    let config = SimulationConfig { history_limit: 0, ..SimulationConfig::default() };
    let mut simulation = Simulation::new(config);
    simulation.tick();
    simulation.tick();
    assert!(simulation.history().is_empty());
    assert_eq!(simulation.recent_summary().window, 0);
    assert!(simulation.status_signals().is_empty());
}

#[test]
fn four_tabs_return_focus() {
    let mut app = App::new(None, Scenario::default());
    for _ in 0..3 {
        let start = app.focused_component();
        for _ in 0..4 {
            app.cycle_focus();
        }
        assert_eq!(app.focused_component(), start);
        app.cycle_focus();
    }
    assert_eq!(app.focused_component(), FocusedComponent::ServiceB);
}

#[test]
fn headroom_holds_for_fresh_simulations() {
    for scenario in Scenario::ALL {
        assert!(Simulation::new(scenario.config()).has_tick_headroom());
    }
    let mut simulation = Simulation::new(SimulationConfig::default());
    simulation.tick = u64::MAX;
    assert!(!simulation.has_tick_headroom());
}

#[test]
fn dashboard_labels_and_gauge() {
    let mut simulation = Simulation::new(Scenario::DualFailure.config());
    assert_eq!(backpressure_label(&simulation), "off");
    assert_eq!(status_signal_labels(&simulation), "none");
    assert_eq!(queue_slot_counts(&simulation), (0, 12));
    for _ in 0..6 {
        simulation.tick();
    }
    assert_eq!(backpressure_label(&simulation), "on");
    assert_eq!(status_signal_labels(&simulation), "q up, bp, retry, svc bad");

    let config = SimulationConfig { max_queue_size: 40, ..SimulationConfig::default() };
    let mut simulation = Simulation::new(config);
    simulation.queue.extend([Request::new(); 5]);
    // 5 of 40 on a 24-slot gauge is 3 slots.
    assert_eq!(queue_slot_counts(&simulation), (3, 21));
    simulation.queue.extend([Request::new(); 1]);
    // 6 * 24 / 40 = 3.6, drawn as 4 slots.
    assert_eq!(queue_slot_counts(&simulation), (4, 20));

    let config = SimulationConfig { max_queue_size: 0, ..SimulationConfig::default() };
    let mut simulation = Simulation::new(config);
    simulation.queue.extend([Request::new(); 2]);
    assert_eq!(queue_slot_counts(&simulation), (0, 1));
}

#[test]
fn a_stopped_session_stays_stopped() {
    let mut app = App::new(Some(1), Scenario::SteadyState);
    app.tick();
    assert!(app.should_quit());
    app.tick();
    app.handle_key(Key::Tab, false);
    app.handle_key(Key::Char('r'), false);
    app.restart_focused_service();
    assert!(app.should_quit());
}
