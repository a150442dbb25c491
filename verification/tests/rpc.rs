use request_pipeline_sim::rpc::{
    error_response, json_string, json_string_array, ok_snapshot_response, parse_method,
    queue_trend_name, route_request, status_signal_name, QueueSnapshot, RequestRoute,
    ServiceSnapshot, SimulationSnapshot, TotalsSnapshot,
};
use request_pipeline_sim::scenario::Scenario;
use request_pipeline_sim::simulation::{
    ServiceState, Simulation, SimulationConfig, StatusSignal,
};

#[test]
fn status_signal_names_are_stable_contract_values() {
    assert_eq!(
        status_signal_name(StatusSignal::QueueRising),
        "queue_rising"
    );
    assert_eq!(
        status_signal_name(StatusSignal::SustainedBackpressure),
        "sustained_backpressure"
    );
    assert_eq!(
        status_signal_name(StatusSignal::RetryActivity),
        "retry_activity"
    );
    assert_eq!(
        status_signal_name(StatusSignal::BothServicesUnhealthy),
        "both_services_unhealthy"
    );
}

#[test]
fn snapshot_maps_current_simulation_state() {
    let mut simulation = Simulation::new(SimulationConfig::default());

    simulation.tick();
    simulation.tick();

    let snapshot = SimulationSnapshot::from_simulation(Scenario::PressureRamp, &simulation);
    let window = snapshot.recent.window as f64;

    assert_eq!(snapshot.scenario, "pressure-ramp");
    assert_eq!(snapshot.tick, 2);
    assert_eq!(snapshot.queue.depth, 4);
    assert_eq!(snapshot.queue.max, simulation.config.max_queue_size);
    assert!(!snapshot.backpressure_active);
    assert_eq!(snapshot.totals.generated, 12);
    assert_eq!(snapshot.totals.accepted, 12);
    assert_eq!(snapshot.totals.processed, 8);
    assert_eq!(snapshot.totals.dropped, 0);
    assert_eq!(snapshot.service_a.state, "healthy");
    assert_eq!(snapshot.service_b.state, "healthy");
    assert_eq!(snapshot.recent.window, 2);
    assert_eq!(snapshot.recent.total_generated as f64 / window, 6.0);
    assert_eq!(snapshot.recent.total_processed as f64 / window, 4.0);
    assert_eq!(queue_trend_name(snapshot.recent.queue_trend), "rising");
    assert_eq!(snapshot.status_signals, vec!["queue_rising"]);
}

#[test]
fn rpc_endpoint_returns_snapshot() {
    let mut simulation = Simulation::new(SimulationConfig::default());
    simulation.tick();
    let snapshot = SimulationSnapshot::from_simulation(Scenario::PressureRamp, &simulation);
    assert!(matches!(
        route_request("{\"method\":\"GetSimulationSnapshot\"}"),
        RequestRoute::Snapshot
    ));
    let response = ok_snapshot_response(&snapshot.to_json("{}"));

    assert!(response.contains("\"ok\":true"));
    assert!(response.contains("\"scenario\":\"pressure-ramp\""));
    assert!(response.contains("\"tick\":1"));
    assert!(response.contains("\"queue\":{\"depth\":2,\"max\":24}"));
    assert!(response.contains("\"service_a\""));
    assert!(response.contains("\"service_b\""));
    assert!(response.contains("\"recent\":{}"));
    assert!(response.ends_with("}}"));
}

#[test]
fn snapshot_json_is_exact() {
    let snapshot = SimulationSnapshot {
        scenario: "steady-state".to_string(),
        tick: 7,
        queue: QueueSnapshot { depth: 3, max: 24 },
        backpressure_active: true,
        totals: TotalsSnapshot {
            generated: 10,
            accepted: 9,
            processed: 5,
            dropped: 1,
            retried: 2,
            retry_exhausted: 0,
            failed_in_service: 2,
        },
        recent: Simulation::new(SimulationConfig::default()).recent_summary(),
        service_a: ServiceSnapshot {
            name: "Service A".to_string(),
            state: "failed".to_string(),
            capacity_per_tick: 2,
            processed: 1,
            failed_in_service: 2,
            retry_attempts: 2,
            retry_exhausted: 0,
            last_processed: 0,
            last_failed_in_service: 2,
            pressure_ticks: 10,
            recovery_ticks: 0,
        },
        service_b: ServiceSnapshot {
            name: "Service B".to_string(),
            state: "healthy".to_string(),
            capacity_per_tick: 2,
            processed: 4,
            failed_in_service: 0,
            retry_attempts: 0,
            retry_exhausted: 0,
            last_processed: 2,
            last_failed_in_service: 0,
            pressure_ticks: 0,
            recovery_ticks: 0,
        },
        status_signals: vec!["retry_activity".to_string()],
    };
    let expected = [
        "{\"scenario\":\"steady-state\",\"tick\":7,",
        "\"queue\":{\"depth\":3,\"max\":24},\"backpressure_active\":true,",
        "\"totals\":{\"generated\":10,\"accepted\":9,\"processed\":5,\"dropped\":1,",
        "\"retried\":2,\"retry_exhausted\":0,\"failed_in_service\":2},",
        "\"recent\":R,",
        "\"service_a\":{\"name\":\"Service A\",\"state\":\"failed\",\"capacity_per_tick\":2,",
        "\"processed\":1,\"failed_in_service\":2,\"retry_attempts\":2,\"retry_exhausted\":0,",
        "\"last_processed\":0,\"last_failed_in_service\":2,\"pressure_ticks\":10,",
        "\"recovery_ticks\":0},",
        "\"service_b\":{\"name\":\"Service B\",\"state\":\"healthy\",\"capacity_per_tick\":2,",
        "\"processed\":4,\"failed_in_service\":0,\"retry_attempts\":0,\"retry_exhausted\":0,",
        "\"last_processed\":2,\"last_failed_in_service\":0,\"pressure_ticks\":0,",
        "\"recovery_ticks\":0},",
        "\"status_signals\":[\"retry_activity\"]}",
    ]
    .concat();
    assert_eq!(snapshot.to_json("R"), expected);
}

#[test]
fn service_snapshot_copies_the_service() {
    let mut simulation = Simulation::new(SimulationConfig::default());
    simulation.service_b.state = ServiceState::Overloaded;
    simulation.service_b.pressure_ticks = 5;
    let snapshot = ServiceSnapshot::from_service(&simulation.service_b);
    assert_eq!(snapshot.name, "Service B");
    assert_eq!(snapshot.state, "overloaded");
    assert_eq!(snapshot.pressure_ticks, 5);
    assert_eq!(snapshot.capacity_per_tick, 2);
}

#[test]
fn json_strings_escape_quotes_backslashes_and_control_characters() {
    assert_eq!(json_string("plain"), "\"plain\"");
    assert_eq!(json_string("a\"b\\c\nd\re\tf"), "\"a\\\"b\\\\c\\nd\\re\\tf\"");
    assert_eq!(json_string(""), "\"\"");
    assert_eq!(json_string("caf\u{e9}"), "\"caf\u{e9}\"");
    assert_eq!(json_string_array(&[]), "[]");
    assert_eq!(
        json_string_array(&["a".to_string(), "b\"".to_string()]),
        "[\"a\",\"b\\\"\"]"
    );
}

#[test]
fn method_is_read_from_the_request_line() {
    assert_eq!(
        parse_method("{\"method\":\"Ping\"}").as_deref(),
        Some("Ping")
    );
    assert_eq!(
        parse_method("{\"method\" :  \u{a0}\"GetSimulationSnapshot\", \"id\":1}").as_deref(),
        Some("GetSimulationSnapshot")
    );
    assert_eq!(parse_method("{\"method\":Ping}"), None);
    assert_eq!(parse_method("{\"method\":\"Ping}"), None);
    assert_eq!(parse_method("{\"id\":1}"), None);
    assert_eq!(parse_method("{\"method\"}"), None);
    assert_eq!(parse_method("").as_deref(), None);
    assert_eq!(parse_method("{\"method\":\"\"}").as_deref(), Some(""));
}

fn reply(request: &str) -> Option<String> {
    match route_request(request) {
        RequestRoute::Snapshot => None,
        RequestRoute::Reply(reply) => Some(reply),
    }
}

#[test]
fn ping_returns_pong() {
    assert_eq!(
        reply("{\"method\":\"Ping\"}").as_deref(),
        Some("{\"ok\":true,\"message\":\"pong\"}")
    );
}

#[test]
fn rpc_endpoint_rejects_unknown_methods_without_mutating_snapshot() {
    let mut simulation = Simulation::new(SimulationConfig::default());
    simulation.tick();
    let snapshot = SimulationSnapshot::from_simulation(Scenario::PressureRamp, &simulation);
    let before = snapshot.to_json("{}");

    assert_eq!(
        reply("{\"method\":\"RestartService\"}").as_deref(),
        Some("{\"ok\":false,\"error\":\"unknown method\"}")
    );
    assert_eq!(snapshot.to_json("{}"), before);
    assert_eq!(simulation.tick, 1);
}

#[test]
fn garbage_requests_are_refused() {
    assert_eq!(
        reply("hello").as_deref(),
        Some("{\"ok\":false,\"error\":\"invalid request\"}")
    );
    assert_eq!(reply("{\"method\":\"GetSimulationSnapshot\"}"), None);
}

#[test]
fn responses_wrap_their_payload() {
    assert_eq!(ok_snapshot_response("{}"), "{\"ok\":true,\"snapshot\":{}}");
    assert_eq!(
        error_response("snapshot store is unavailable"),
        "{\"ok\":false,\"error\":\"snapshot store is unavailable\"}"
    );
}
