use request_pipeline_sim::app::FocusedComponent;
use request_pipeline_sim::dashboard::{
    backpressure_tone, component_tone, generator_lines, header_segments, service_border_tone,
    service_lines, service_state_tone, service_title, Segment, Tone,
};
use request_pipeline_sim::simulation::{ServiceId, ServiceState, Simulation, SimulationConfig};

fn texts(segments: &[Segment]) -> Vec<(String, Tone)> {
    segments
        .iter()
        .map(|segment| (segment.text.clone(), segment.tone))
        .collect()
}

#[test]
fn header_shows_tick_health_focus_and_backpressure() {
    let mut simulation = Simulation::new(SimulationConfig::default());
    simulation.tick = 42;
    simulation.service_b.state = ServiceState::Failed;
    simulation.backpressure_active = true;
    let header = header_segments(&simulation, FocusedComponent::Queue);
    let expected = vec![
        ("request-pipeline-sim".to_string(), Tone::Title),
        ("  tick ".to_string(), Tone::Plain),
        ("42".to_string(), Tone::Value),
        ("  A ".to_string(), Tone::Plain),
        ("healthy".to_string(), Tone::Good),
        ("  B ".to_string(), Tone::Plain),
        ("failed".to_string(), Tone::Critical),
        ("  focus ".to_string(), Tone::Plain),
        ("Queue".to_string(), Tone::Focus),
        ("  bp ".to_string(), Tone::Plain),
        ("on".to_string(), Tone::Warning),
    ];
    assert_eq!(texts(&header), expected);
}

#[test]
fn generator_and_service_panels() {
    let mut simulation = Simulation::new(SimulationConfig::default());
    simulation.tick();
    assert_eq!(
        generator_lines(&simulation),
        vec!["rate: 6/6".to_string(), "generated: 6".to_string(), "bp: off".to_string()]
    );

    simulation.service_a.state = ServiceState::Overloaded;
    simulation.service_a.pressure_ticks = 5;
    simulation.service_a.recovery_ticks = 1;
    let lines = service_lines(&simulation.service_a);
    assert_eq!(lines.len(), 3);
    assert_eq!(
        texts(&lines[0]),
        vec![
            ("state: ".to_string(), Tone::Plain),
            ("overloaded".to_string(), Tone::Warning),
            (" p5 r1".to_string(), Tone::Plain),
        ]
    );
    assert_eq!(texts(&lines[1]), vec![("cap: 2/tick last: 2".to_string(), Tone::Plain)]);
    assert_eq!(texts(&lines[2]), vec![("done: 2 fail: 0 rt: 0".to_string(), Tone::Plain)]);
    assert_eq!(service_title(&simulation.service_b), "Service B");
}

#[test]
fn tones_follow_health_focus_and_backpressure() {
    assert_eq!(service_state_tone(ServiceState::Healthy), Tone::Good);
    assert_eq!(service_state_tone(ServiceState::Overloaded), Tone::Warning);
    assert_eq!(service_state_tone(ServiceState::Failed), Tone::Critical);
    assert_eq!(backpressure_tone(true), Tone::Warning);
    assert_eq!(backpressure_tone(false), Tone::Good);
    assert_eq!(
        component_tone(FocusedComponent::Generator, FocusedComponent::Generator),
        Tone::Focus
    );
    assert_eq!(
        component_tone(FocusedComponent::Generator, FocusedComponent::Queue),
        Tone::Plain
    );
    let simulation = Simulation::new(SimulationConfig::default());
    assert_eq!(
        service_border_tone(ServiceId::A, FocusedComponent::ServiceA, &simulation.service_a),
        Tone::Focus
    );
    assert_eq!(
        service_border_tone(ServiceId::A, FocusedComponent::ServiceB, &simulation.service_a),
        Tone::Good
    );
}
