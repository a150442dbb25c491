use request_pipeline_sim::simulation::{
    classify_queue_trend, derive_status_signals, summarize_history, HistoryEntry, QueueTrend,
    Request, ServiceId, ServiceState, Simulation, SimulationConfig, StatusSignal,
};
use std::collections::VecDeque;
fn test_config(
    requests_per_tick: u32,
    service_capacity_per_tick: u32,
    max_queue_size: usize,
) -> SimulationConfig {
    SimulationConfig {
        requests_per_tick,
        service_capacity_per_tick,
        max_queue_size,
        ..SimulationConfig::default()
    }
}

fn history_entry(
    tick: u64,
    generated: u32,
    processed: u32,
    dropped: u32,
    retried: u32,
    queue_depth: usize,
    backpressure_active: bool,
) -> HistoryEntry {
    HistoryEntry {
        tick,
        generated,
        accepted: generated,
        processed,
        dropped,
        retried,
        retry_exhausted: 0,
        failed_in_service: 0,
        queue_depth,
        backpressure_active,
        service_a_state: ServiceState::Healthy,
        service_b_state: ServiceState::Healthy,
    }
}

#[test]
fn request_flow_is_deterministic_before_overload() {
    let config = SimulationConfig {
        overload_threshold_ticks: 4,
        failure_threshold_ticks: 8,
        ..test_config(3, 1, 10)
    };
    let mut simulation = Simulation::new(config);

    simulation.tick();
    simulation.tick();
    simulation.tick();

    assert_eq!(simulation.tick, 3);
    assert_eq!(simulation.generated, 9);
    assert_eq!(simulation.accepted, 9);
    assert_eq!(simulation.total_processed(), 6);
    assert_eq!(simulation.dropped, 0);
    assert_eq!(simulation.queue_depth(), 3);
    assert_eq!(simulation.service_a.state, ServiceState::Healthy);
    assert_eq!(simulation.service_b.state, ServiceState::Healthy);
}

#[test]
fn dispatch_order_is_service_a_then_service_b() {
    let config = SimulationConfig {
        overload_threshold_ticks: 10,
        failure_threshold_ticks: 20,
        ..test_config(5, 2, 20)
    };
    let mut simulation = Simulation::new(config);

    simulation.tick();

    assert_eq!(simulation.service_a.last_processed, 2);
    assert_eq!(simulation.service_b.last_processed, 2);
    assert_eq!(simulation.queue_depth(), 1);

    simulation.tick();

    assert_eq!(simulation.service_a.processed, 4);
    assert_eq!(simulation.service_b.processed, 4);
    assert_eq!(simulation.queue_depth(), 2);
}

#[test]
fn both_services_participate_in_processing() {
    let config = SimulationConfig {
        overload_threshold_ticks: 10,
        failure_threshold_ticks: 20,
        ..test_config(4, 2, 10)
    };
    let mut simulation = Simulation::new(config);

    simulation.tick();

    assert_eq!(simulation.service_a.last_processed, 2);
    assert_eq!(simulation.service_b.last_processed, 2);
    assert_eq!(simulation.total_processed(), 4);
    assert_eq!(simulation.queue_depth(), 0);
}

#[test]
fn sustained_pressure_overloads_then_fails_services() {
    let config = SimulationConfig {
        overload_threshold_ticks: 2,
        failure_threshold_ticks: 4,
        backpressure_threshold_ticks: 20,
        ..test_config(6, 1, 8)
    };
    let mut simulation = Simulation::new(config);

    for _ in 0..3 {
        simulation.tick();
    }

    assert_eq!(simulation.service_a.state, ServiceState::Overloaded);
    assert_eq!(simulation.service_b.state, ServiceState::Overloaded);

    for _ in 0..2 {
        simulation.tick();
    }

    assert_eq!(simulation.service_a.state, ServiceState::Failed);
    assert_eq!(simulation.service_b.state, ServiceState::Failed);
}

#[test]
fn queue_overflow_counts_dropped_requests() {
    let config = SimulationConfig {
        overload_threshold_ticks: 10,
        failure_threshold_ticks: 20,
        ..test_config(5, 0, 3)
    };
    let mut simulation = Simulation::new(config);

    simulation.tick();

    assert_eq!(simulation.generated, 5);
    assert_eq!(simulation.accepted, 3);
    assert_eq!(simulation.dropped, 2);
    assert_eq!(simulation.last_dropped, 2);
    assert_eq!(simulation.queue_depth(), 3);
    assert_eq!(simulation.total_processed(), 0);
}

#[test]
fn one_failed_service_does_not_stop_the_other_service() {
    let config = SimulationConfig {
        overload_threshold_ticks: 10,
        failure_threshold_ticks: 20,
        ..test_config(5, 2, 10)
    };
    let mut simulation = Simulation::new(config);
    simulation.service_a.state = ServiceState::Failed;

    simulation.tick();

    assert_eq!(simulation.service_a.processed, 0);
    assert_eq!(simulation.service_a.failed_in_service, 2);
    assert_eq!(simulation.service_a.retry_attempts, 2);
    assert_eq!(simulation.service_b.last_processed, 2);
    assert_eq!(simulation.service_b.processed, 2);
    assert_eq!(simulation.queue_depth(), 3);
}

#[test]
fn retries_are_bounded() {
    let config = SimulationConfig {
        max_request_retries: 1,
        overload_threshold_ticks: 10,
        failure_threshold_ticks: 20,
        ..test_config(2, 1, 10)
    };
    let mut simulation = Simulation::new(config);
    simulation.service_a.state = ServiceState::Failed;
    simulation.service_b.state = ServiceState::Failed;

    simulation.tick();

    assert_eq!(simulation.last_retried, 2);
    assert_eq!(simulation.retry_attempts, 2);
    assert_eq!(simulation.retry_exhausted, 0);
    assert_eq!(simulation.queue_depth(), 2);

    simulation.tick();

    assert_eq!(simulation.last_retry_exhausted, 2);
    assert_eq!(simulation.retry_exhausted, 2);
    assert_eq!(simulation.queue_depth(), 2);
}

#[test]
fn retry_logic_is_deterministic() {
    let config = SimulationConfig {
        max_request_retries: 1,
        overload_threshold_ticks: 10,
        failure_threshold_ticks: 20,
        ..test_config(3, 1, 10)
    };
    let mut first = Simulation::new(config);
    let mut second = Simulation::new(config);
    first.service_a.state = ServiceState::Failed;
    first.service_b.state = ServiceState::Failed;
    second.service_a.state = ServiceState::Failed;
    second.service_b.state = ServiceState::Failed;

    for _ in 0..4 {
        first.tick();
        second.tick();
    }

    assert_eq!(first.generated, second.generated);
    assert_eq!(first.queue_depth(), second.queue_depth());
    assert_eq!(first.retry_attempts, second.retry_attempts);
    assert_eq!(first.retry_exhausted, second.retry_exhausted);
    assert_eq!(
        first.total_failed_in_service(),
        second.total_failed_in_service()
    );
}

#[test]
fn backpressure_activates_under_sustained_queue_pressure() {
    let config = SimulationConfig {
        backpressure_threshold_ticks: 1,
        overload_threshold_ticks: 10,
        failure_threshold_ticks: 20,
        ..test_config(6, 0, 20)
    };
    let mut simulation = Simulation::new(config);

    while !simulation.backpressure_active {
        simulation.tick();
    }

    simulation.tick();

    assert!(simulation.backpressure_active);
    assert_eq!(simulation.last_generated, 3);
}

#[test]
fn history_buffer_remains_bounded() {
    let config = SimulationConfig {
        history_limit: 3,
        ..test_config(2, 1, 10)
    };
    let mut simulation = Simulation::new(config);

    for _ in 0..5 {
        simulation.tick();
    }

    assert_eq!(simulation.history().len(), 3);
    assert_eq!(simulation.history().front().unwrap().tick, 3);
    assert_eq!(simulation.history().back().unwrap().tick, 5);
}

#[test]
fn history_values_are_recorded_deterministically() {
    let config = SimulationConfig {
        overload_threshold_ticks: 10,
        failure_threshold_ticks: 20,
        ..test_config(5, 2, 20)
    };
    let mut simulation = Simulation::new(config);

    simulation.tick();
    simulation.tick();

    let first = simulation.history().front().unwrap();
    assert_eq!(first.tick, 1);
    assert_eq!(first.generated, 5);
    assert_eq!(first.accepted, 5);
    assert_eq!(first.processed, 4);
    assert_eq!(first.dropped, 0);
    assert_eq!(first.retried, 0);
    assert_eq!(first.retry_exhausted, 0);
    assert_eq!(first.failed_in_service, 0);
    assert_eq!(first.queue_depth, 1);
    assert!(!first.backpressure_active);

    let second = simulation.history().back().unwrap();
    assert_eq!(second.tick, 2);
    assert_eq!(second.generated, 5);
    assert_eq!(second.processed, 4);
    assert_eq!(second.queue_depth, 2);
}

#[test]
fn recent_summary_calculations_are_correct() {
    let mut history = VecDeque::new();
    history.push_back(history_entry(1, 4, 2, 0, 0, 1, false));
    history.push_back(history_entry(2, 2, 4, 1, 2, 3, true));
    history.push_back(history_entry(3, 6, 3, 2, 1, 5, true));

    let summary = summarize_history(&history);
    let window = summary.window as f64;

    assert_eq!(summary.window, 3);
    assert!((summary.total_generated as f64 / window - 4.0).abs() < f64::EPSILON);
    assert!((summary.total_processed as f64 / window - 3.0).abs() < f64::EPSILON);
    assert!((summary.total_dropped as f64 / window - 1.0).abs() < f64::EPSILON);
    assert!((summary.total_retried as f64 / window - 1.0).abs() < f64::EPSILON);
    assert_eq!(summary.backpressure_ticks, 2);
    assert_eq!(summary.queue_trend, QueueTrend::Rising);
}

#[test]
fn queue_trend_classification_handles_basic_shapes() {
    let mut rising = VecDeque::new();
    rising.push_back(history_entry(1, 0, 0, 0, 0, 1, false));
    rising.push_back(history_entry(2, 0, 0, 0, 0, 4, false));
    assert_eq!(classify_queue_trend(&rising), QueueTrend::Rising);

    let mut falling = VecDeque::new();
    falling.push_back(history_entry(1, 0, 0, 0, 0, 5, false));
    falling.push_back(history_entry(2, 0, 0, 0, 0, 2, false));
    assert_eq!(classify_queue_trend(&falling), QueueTrend::Falling);

    let mut stable = VecDeque::new();
    stable.push_back(history_entry(1, 0, 0, 0, 0, 5, false));
    stable.push_back(history_entry(2, 0, 0, 0, 0, 6, false));
    assert_eq!(classify_queue_trend(&stable), QueueTrend::Stable);
}

#[test]
fn status_signal_derivation_uses_recent_history() {
    let mut history = VecDeque::new();
    history.push_back(history_entry(1, 2, 1, 0, 1, 1, true));
    history.push_back(history_entry(2, 2, 1, 0, 1, 3, true));
    let mut latest = history_entry(3, 2, 1, 0, 1, 6, true);
    latest.service_a_state = ServiceState::Overloaded;
    latest.service_b_state = ServiceState::Failed;
    history.push_back(latest);

    let signals = derive_status_signals(&history);

    assert!(signals.contains(&StatusSignal::QueueRising));
    assert!(signals.contains(&StatusSignal::SustainedBackpressure));
    assert!(signals.contains(&StatusSignal::RetryActivity));
    assert!(signals.contains(&StatusSignal::BothServicesUnhealthy));
}

#[test]
fn overloaded_service_recovers_when_pressure_stays_low() {
    let config = SimulationConfig {
        requests_per_tick: 0,
        service_capacity_per_tick: 0,
        max_queue_size: 4,
        overload_threshold_ticks: 1,
        failure_threshold_ticks: 10,
        overload_recovery_ticks: 2,
        ..SimulationConfig::default()
    };
    let mut simulation = Simulation::new(config);
    simulation
        .queue
        .extend([Request::new(), Request::new(), Request::new()]);

    simulation.tick();
    assert_eq!(simulation.service_a.state, ServiceState::Overloaded);
    assert_eq!(simulation.service_b.state, ServiceState::Overloaded);

    simulation.queue.clear();
    simulation.tick();
    assert_eq!(simulation.service_a.state, ServiceState::Overloaded);
    assert_eq!(simulation.service_a.recovery_ticks, 1);

    simulation.tick();
    assert_eq!(simulation.service_a.state, ServiceState::Healthy);
    assert_eq!(simulation.service_b.state, ServiceState::Healthy);
    assert_eq!(simulation.service_a.pressure_ticks, 0);
}

#[test]
fn failed_service_still_requires_manual_restart() {
    let config = SimulationConfig {
        requests_per_tick: 0,
        service_capacity_per_tick: 0,
        max_queue_size: 4,
        overload_threshold_ticks: 1,
        failure_threshold_ticks: 2,
        overload_recovery_ticks: 1,
        ..SimulationConfig::default()
    };
    let mut simulation = Simulation::new(config);
    simulation
        .queue
        .extend([Request::new(), Request::new(), Request::new()]);

    simulation.tick();
    simulation.tick();
    assert_eq!(simulation.service_a.state, ServiceState::Failed);

    simulation.queue.clear();
    simulation.tick();
    simulation.tick();
    assert_eq!(simulation.service_a.state, ServiceState::Failed);

    simulation.restart_service(ServiceId::A);
    assert_eq!(simulation.service_a.state, ServiceState::Healthy);
}

#[test]
fn restart_failed_service_resets_state_and_pressure_only() {
    let config = SimulationConfig {
        overload_threshold_ticks: 2,
        failure_threshold_ticks: 4,
        backpressure_threshold_ticks: 20,
        ..test_config(6, 1, 8)
    };
    let mut simulation = Simulation::new(config);

    while simulation.service_a.state != ServiceState::Failed {
        simulation.tick();
    }

    let generated = simulation.generated;
    let processed_a = simulation.service_a.processed;
    let failed_a = simulation.service_a.failed_in_service;
    let retries_a = simulation.service_a.retry_attempts;
    let processed_b = simulation.service_b.processed;
    let failed_b = simulation.service_b.failed_in_service;
    let dropped = simulation.dropped;

    simulation.restart_service(ServiceId::A);

    assert_eq!(simulation.service_a.state, ServiceState::Healthy);
    assert_eq!(simulation.service_a.pressure_ticks, 0);
    assert_eq!(simulation.service_a.recovery_ticks, 0);
    assert_eq!(simulation.generated, generated);
    assert_eq!(simulation.service_a.processed, processed_a);
    assert_eq!(simulation.service_a.failed_in_service, failed_a);
    assert_eq!(simulation.service_a.retry_attempts, retries_a);
    assert_eq!(simulation.service_b.processed, processed_b);
    assert_eq!(simulation.service_b.failed_in_service, failed_b);
    assert_eq!(simulation.dropped, dropped);
}
