//! What the terminal dashboard shows, decided apart from how it is drawn.
use crate::app::{component_label, FocusedComponent};
use crate::simulation::{
    service_id_label, service_state_label, signals_of, ServiceId, ServiceNode, ServiceState,
    Simulation, StatusSignal,
};
use crate::text::{decimal, push_decimal};
use vstd::prelude::*;

verus! {

/// At most this many slots are drawn for the queue.
pub const QUEUE_VISIBLE_SLOTS: usize = 24;

pub open spec fn backpressure_text(active: bool) -> Seq<char> {
    if active {
        "on"@
    } else {
        "off"@
    }
}

pub fn backpressure_label(simulation: &Simulation) -> (label: &'static str)
    ensures
        label@ == backpressure_text(simulation.backpressure_active),
{
    if simulation.backpressure_active {
        "on"
    } else {
        "off"
    }
}

pub open spec fn signal_short_label(signal: StatusSignal) -> Seq<char> {
    match signal {
        StatusSignal::QueueRising => "q up"@,
        StatusSignal::SustainedBackpressure => "bp"@,
        StatusSignal::RetryActivity => "retry"@,
        StatusSignal::BothServicesUnhealthy => "svc bad"@,
    }
}

/// The short labels of `signals`, separated by `", "`.
pub open spec fn joined_signal_labels(signals: Seq<StatusSignal>) -> Seq<char>
    decreases signals.len(),
{
    if signals.len() == 0 {
        Seq::empty()
    } else if signals.len() == 1 {
        signal_short_label(signals[0])
    } else {
        joined_signal_labels(signals.drop_last()) + ", "@ + signal_short_label(signals.last())
    }
}

/// `"none"` when there are no signals, their short labels otherwise.
pub open spec fn signal_labels_text(signals: Seq<StatusSignal>) -> Seq<char> {
    if signals.len() == 0 {
        "none"@
    } else {
        joined_signal_labels(signals)
    }
}

fn signal_short_name(signal: StatusSignal) -> (label: &'static str)
    ensures
        label@ == signal_short_label(signal),
{
    match signal {
        StatusSignal::QueueRising => "q up",
        StatusSignal::SustainedBackpressure => "bp",
        StatusSignal::RetryActivity => "retry",
        StatusSignal::BothServicesUnhealthy => "svc bad",
    }
}

pub fn status_signal_labels(simulation: &Simulation) -> (text: String)
    ensures
        text@ == signal_labels_text(signals_of(simulation@.history)),
{
    let signals = simulation.status_signals();
    if signals.len() == 0 {
        return String::from_str("none");
    }
    let mut text = String::new();
    let mut i: usize = 0;
    while i < signals.len()
        invariant
            i <= signals@.len(),
            text@ == joined_signal_labels(signals@.take(i as int)),
        decreases signals@.len() - i,
    {
        if i > 0 {
            text.append(", ");
        }
        text.append(signal_short_name(signals[i]));
        assert(signals@.take(i + 1).drop_last() =~= signals@.take(i as int));
        assert(text@ =~= joined_signal_labels(signals@.take(i + 1)));
        i = i + 1;
    }
    assert(signals@.take(i as int) =~= signals@);
    text
}

/// How many queue slots are drawn: the queue's limit, but at least one and
/// at most `QUEUE_VISIBLE_SLOTS`.
pub open spec fn visible_slots(max_queue_size: int) -> int {
    if max_queue_size < 1 {
        1
    } else if max_queue_size > QUEUE_VISIBLE_SLOTS {
        QUEUE_VISIBLE_SLOTS as int
    } else {
        max_queue_size
    }
}

/// How many drawn slots are filled: the queue's share of them, rounded up
/// (the product saturates at `usize::MAX`); none for a zero limit.
pub open spec fn filled_slots(depth: int, max_queue_size: int) -> int {
    if max_queue_size == 0 {
        0
    } else {
        let product = if depth * visible_slots(max_queue_size) > usize::MAX {
            usize::MAX as int
        } else {
            depth * visible_slots(max_queue_size)
        };
        product / max_queue_size + if product % max_queue_size == 0 {
            0int
        } else {
            1int
        }
    }
}

/// The filled and the empty slots of the queue gauge.
pub fn queue_slot_counts(simulation: &Simulation) -> (slots: (usize, usize))
    ensures
        slots.0 == filled_slots(simulation@.queue.len() as int, simulation.config.max_queue_size as int),
        slots.1 == if visible_slots(simulation.config.max_queue_size as int) > slots.0 {
            visible_slots(simulation.config.max_queue_size as int) - slots.0
        } else {
            0
        },
{
    let max_size = simulation.config.max_queue_size;
    let visible = if max_size < 1 {
        1
    } else if max_size > QUEUE_VISIBLE_SLOTS {
        QUEUE_VISIBLE_SLOTS
    } else {
        max_size
    };
    let filled: usize = if max_size == 0 {
        0
    } else {
        let product = match simulation.queue_depth().checked_mul(visible) {
            Some(product) => product,
            None => usize::MAX,
        };
        let whole = product / max_size;
        if product % max_size == 0 {
            whole
        } else {
            assert(whole < usize::MAX) by (nonlinear_arith)
                requires
                    whole == product / max_size,
                    max_size >= 1,
                    product % max_size != 0,
            ;
            whole + 1
        }
    };
    let empty = if visible > filled {
        visible - filled
    } else {
        0
    };
    (filled, empty)
}


/// How a piece of dashboard text is emphasised.
#[derive(Clone, Copy, Debug, PartialEq, Eq, Structural)]
pub enum Tone {
    Plain,
    Title,
    Value,
    Good,
    Warning,
    Critical,
    Focus,
}

/// A run of text and its emphasis.
#[derive(Clone, Debug)]
pub struct Segment {
    pub text: String,
    pub tone: Tone,
}

pub open spec fn segments_view(segments: Seq<Segment>) -> Seq<(Seq<char>, Tone)> {
    Seq::new(segments.len(), |i: int| (segments[i].text@, segments[i].tone))
}

/// Healthy is good news, overloaded a warning, failed critical.
pub open spec fn state_tone(state: ServiceState) -> Tone {
    match state {
        ServiceState::Healthy => Tone::Good,
        ServiceState::Overloaded => Tone::Warning,
        ServiceState::Failed => Tone::Critical,
    }
}

pub fn service_state_tone(state: ServiceState) -> (tone: Tone)
    ensures
        tone == state_tone(state),
{
    match state {
        ServiceState::Healthy => Tone::Good,
        ServiceState::Overloaded => Tone::Warning,
        ServiceState::Failed => Tone::Critical,
    }
}

pub open spec fn pressure_tone(active: bool) -> Tone {
    if active {
        Tone::Warning
    } else {
        Tone::Good
    }
}

pub fn backpressure_tone(active: bool) -> (tone: Tone)
    ensures
        tone == pressure_tone(active),
{
    if active {
        Tone::Warning
    } else {
        Tone::Good
    }
}

/// A component's border is highlighted while it has the focus.
pub fn component_tone(component: FocusedComponent, focused: FocusedComponent) -> (tone: Tone)
    ensures
        tone == if component == focused {
            Tone::Focus
        } else {
            Tone::Plain
        },
{
    if component == focused {
        Tone::Focus
    } else {
        Tone::Plain
    }
}

pub open spec fn service_component(id: ServiceId) -> FocusedComponent {
    match id {
        ServiceId::A => FocusedComponent::ServiceA,
        ServiceId::B => FocusedComponent::ServiceB,
    }
}

/// A service's border is highlighted while it has the focus, and shows its
/// health otherwise.
pub fn service_border_tone(id: ServiceId, focused: FocusedComponent, service: &ServiceNode) -> (tone:
    Tone)
    ensures
        tone == if service_component(id) == focused {
            Tone::Focus
        } else {
            state_tone(service.state)
        },
{
    let is_focused = match (id, focused) {
        (ServiceId::A, FocusedComponent::ServiceA) => true,
        (ServiceId::B, FocusedComponent::ServiceB) => true,
        _ => false,
    };
    if is_focused {
        Tone::Focus
    } else {
        service_state_tone(service.state)
    }
}

fn segment(text: &str, tone: Tone) -> (segment: Segment)
    ensures
        segment.text@ == text@,
        segment.tone == tone,
{
    Segment { text: String::from_str(text), tone }
}

fn number_segment(n: u64, tone: Tone) -> (segment: Segment)
    ensures
        segment.text@ == decimal(n as nat),
        segment.tone == tone,
{
    let mut text = String::new();
    push_decimal(&mut text, n);
    assert(text@ =~= decimal(n as nat));
    Segment { text, tone }
}

/// The header: the program's name, the tick, each service's health, the
/// focus and the backpressure flag.
pub open spec fn header_view(simulation: Simulation, focused: FocusedComponent) -> Seq<
    (Seq<char>, Tone),
> {
    let s = simulation@;
    seq![
        ("request-pipeline-sim"@, Tone::Title),
        ("  tick "@, Tone::Plain),
        (decimal(s.tick as nat), Tone::Value),
        ("  A "@, Tone::Plain),
        (service_state_label(s.service_a.state), state_tone(s.service_a.state)),
        ("  B "@, Tone::Plain),
        (service_state_label(s.service_b.state), state_tone(s.service_b.state)),
        ("  focus "@, Tone::Plain),
        (component_label(focused), Tone::Focus),
        ("  bp "@, Tone::Plain),
        (backpressure_text(s.backpressure_active), pressure_tone(s.backpressure_active)),
    ]
}

pub fn header_segments(simulation: &Simulation, focused: FocusedComponent) -> (segments: Vec<
    Segment,
>)
    ensures
        segments_view(segments@) == header_view(*simulation, focused),
{
    let mut segments: Vec<Segment> = Vec::new();
    segments.push(segment("request-pipeline-sim", Tone::Title));
    segments.push(segment("  tick ", Tone::Plain));
    segments.push(number_segment(simulation.tick, Tone::Value));
    segments.push(segment("  A ", Tone::Plain));
    segments.push(
        segment(simulation.service_a.state.label(), service_state_tone(simulation.service_a.state)),
    );
    segments.push(segment("  B ", Tone::Plain));
    segments.push(
        segment(simulation.service_b.state.label(), service_state_tone(simulation.service_b.state)),
    );
    segments.push(segment("  focus ", Tone::Plain));
    segments.push(segment(focused.label(), Tone::Focus));
    segments.push(segment("  bp ", Tone::Plain));
    segments.push(
        segment(backpressure_label(simulation), backpressure_tone(simulation.backpressure_active)),
    );
    assert(segments_view(segments@) =~= header_view(*simulation, focused));
    segments
}

/// The generator panel: the rate offered this tick against the configured
/// rate, the running total, and the backpressure flag.
pub open spec fn generator_view(simulation: Simulation) -> Seq<Seq<char>> {
    seq![
        "rate: "@ + decimal(simulation.last_generated as nat) + "/"@ + decimal(
            simulation.config.requests_per_tick as nat,
        ),
        "generated: "@ + decimal(simulation.generated as nat),
        "bp: "@ + backpressure_text(simulation.backpressure_active),
    ]
}

pub fn generator_lines(simulation: &Simulation) -> (lines: Vec<String>)
    ensures
        lines@.len() == 3,
        forall|i: int| 0 <= i < 3 ==> #[trigger] lines@[i]@ == generator_view(*simulation)[i],
{
    let mut rate = String::from_str("rate: ");
    push_decimal(&mut rate, simulation.last_generated as u64);
    rate.append("/");
    push_decimal(&mut rate, simulation.config.requests_per_tick as u64);
    let mut generated = String::from_str("generated: ");
    push_decimal(&mut generated, simulation.generated);
    let mut bp = String::from_str("bp: ");
    bp.append(backpressure_label(simulation));
    let mut lines: Vec<String> = Vec::new();
    lines.push(rate);
    lines.push(generated);
    lines.push(bp);
    lines
}

/// A service panel: its health with pressure and recovery counts, its
/// capacity and what it processed this tick, and its running totals.
pub open spec fn service_view(service: ServiceNode) -> Seq<Seq<(Seq<char>, Tone)>> {
    seq![
        seq![
            ("state: "@, Tone::Plain),
            (service_state_label(service.state), state_tone(service.state)),
            (" p"@ + decimal(service.pressure_ticks as nat) + " r"@ + decimal(
                service.recovery_ticks as nat,
            ), Tone::Plain),
        ],
        seq![
            ("cap: "@ + decimal(service.capacity_per_tick as nat) + "/tick last: "@ + decimal(
                service.last_processed as nat,
            ), Tone::Plain),
        ],
        seq![
            ("done: "@ + decimal(service.processed as nat) + " fail: "@ + decimal(
                service.failed_in_service as nat,
            ) + " rt: "@ + decimal(service.retry_attempts as nat), Tone::Plain),
        ],
    ]
}

pub fn service_lines(service: &ServiceNode) -> (lines: Vec<Vec<Segment>>)
    ensures
        lines@.len() == 3,
        forall|i: int|
            0 <= i < 3 ==> segments_view(#[trigger] lines@[i]@) == service_view(*service)[i],
{
    let mut counts = String::from_str(" p");
    push_decimal(&mut counts, service.pressure_ticks as u64);
    counts.append(" r");
    push_decimal(&mut counts, service.recovery_ticks as u64);
    let mut first: Vec<Segment> = Vec::new();
    first.push(segment("state: ", Tone::Plain));
    first.push(segment(service.state.label(), service_state_tone(service.state)));
    first.push(Segment { text: counts, tone: Tone::Plain });

    let mut capacity = String::from_str("cap: ");
    push_decimal(&mut capacity, service.capacity_per_tick as u64);
    capacity.append("/tick last: ");
    push_decimal(&mut capacity, service.last_processed as u64);
    let mut second: Vec<Segment> = Vec::new();
    second.push(Segment { text: capacity, tone: Tone::Plain });

    let mut totals = String::from_str("done: ");
    push_decimal(&mut totals, service.processed);
    totals.append(" fail: ");
    push_decimal(&mut totals, service.failed_in_service);
    totals.append(" rt: ");
    push_decimal(&mut totals, service.retry_attempts);
    let mut third: Vec<Segment> = Vec::new();
    third.push(Segment { text: totals, tone: Tone::Plain });

    let ghost view = service_view(*service);
    assert(segments_view(first@) =~= view[0]);
    assert(segments_view(second@) =~= view[1]);
    assert(segments_view(third@) =~= view[2]);
    let mut lines: Vec<Vec<Segment>> = Vec::new();
    lines.push(first);
    lines.push(second);
    lines.push(third);
    lines
}

/// The service a panel shows.
pub fn service_title(service: &ServiceNode) -> (title: &'static str)
    ensures
        title@ == service_id_label(service.id),
{
    service.label()
}

} // verus!
