//! The read-only snapshot protocol: what a snapshot holds, how it is
//! written as JSON, and how a request line is answered.
use crate::scenario::{scenario_name, Scenario};
use crate::simulation::{
    queue_trend_label, service_id_label, service_state_label, signals_of, summary_of,
    QueueTrend, RecentSummary, ServiceNode, ServiceState, Simulation, StatusSignal,
};
use crate::text::{chars_of, decimal, push_char, push_decimal, str_equal, string_of_chars};
use vstd::prelude::*;

verus! {

pub fn service_state_name(state: ServiceState) -> (name: &'static str)
    ensures
        name@ == service_state_label(state),
{
    match state {
        ServiceState::Healthy => "healthy",
        ServiceState::Overloaded => "overloaded",
        ServiceState::Failed => "failed",
    }
}

pub fn queue_trend_name(trend: QueueTrend) -> (name: &'static str)
    ensures
        name@ == queue_trend_label(trend),
{
    match trend {
        QueueTrend::Rising => "rising",
        QueueTrend::Falling => "falling",
        QueueTrend::Stable => "stable",
    }
}

pub open spec fn status_signal_label(signal: StatusSignal) -> Seq<char> {
    match signal {
        StatusSignal::QueueRising => "queue_rising"@,
        StatusSignal::SustainedBackpressure => "sustained_backpressure"@,
        StatusSignal::RetryActivity => "retry_activity"@,
        StatusSignal::BothServicesUnhealthy => "both_services_unhealthy"@,
    }
}

pub fn status_signal_name(signal: StatusSignal) -> (name: &'static str)
    ensures
        name@ == status_signal_label(signal),
{
    match signal {
        StatusSignal::QueueRising => "queue_rising",
        StatusSignal::SustainedBackpressure => "sustained_backpressure",
        StatusSignal::RetryActivity => "retry_activity",
        StatusSignal::BothServicesUnhealthy => "both_services_unhealthy",
    }
}

// ---------------------------------------------------------------------
// JSON text
// ---------------------------------------------------------------------

/// How one character is written inside a JSON string: quote, backslash,
/// newline, carriage return and tab are escaped, everything else is kept.
pub open spec fn json_escape_char(c: char) -> Seq<char> {
    if c == '"' {
        "\\\""@
    } else if c == '\\' {
        "\\\\"@
    } else if c == '\n' {
        "\\n"@
    } else if c == '\r' {
        "\\r"@
    } else if c == '\t' {
        "\\t"@
    } else {
        seq![c]
    }
}

pub open spec fn json_escaped(s: Seq<char>) -> Seq<char>
    decreases s.len(),
{
    if s.len() == 0 {
        Seq::empty()
    } else {
        json_escaped(s.drop_last()) + json_escape_char(s.last())
    }
}

/// `s` as a quoted JSON string.
pub open spec fn json_string_of(s: Seq<char>) -> Seq<char> {
    "\""@ + json_escaped(s) + "\""@
}

/// The quoted JSON strings of `values`, separated by commas.
pub open spec fn json_items(values: Seq<String>) -> Seq<char>
    decreases values.len(),
{
    if values.len() == 0 {
        Seq::empty()
    } else if values.len() == 1 {
        json_string_of(values[0]@)
    } else {
        json_items(values.drop_last()) + ","@ + json_string_of(values.last()@)
    }
}

pub open spec fn json_array_of(values: Seq<String>) -> Seq<char> {
    "["@ + json_items(values) + "]"@
}

pub open spec fn json_bool(b: bool) -> Seq<char> {
    if b {
        "true"@
    } else {
        "false"@
    }
}

pub fn json_string(value: &str) -> (encoded: String)
    ensures
        encoded@ == json_string_of(value@),
{
    let chars = chars_of(value);
    let mut encoded = String::from_str("\"");
    let mut i: usize = 0;
    while i < chars.len()
        invariant
            chars@ == value@,
            i <= chars@.len(),
            encoded@ == "\""@ + json_escaped(chars@.take(i as int)),
        decreases chars@.len() - i,
    {
        let c = chars[i];
        let ghost before = encoded@;
        if c == '"' {
            encoded.append("\\\"");
        } else if c == '\\' {
            encoded.append("\\\\");
        } else if c == '\n' {
            encoded.append("\\n");
        } else if c == '\r' {
            encoded.append("\\r");
        } else if c == '\t' {
            encoded.append("\\t");
        } else {
            push_char(&mut encoded, c);
        }
        assert(encoded@ == before + json_escape_char(c));
        assert(chars@.take(i + 1).drop_last() =~= chars@.take(i as int));
        i = i + 1;
        assert(encoded@ =~= "\""@ + json_escaped(chars@.take(i as int)));
    }
    assert(chars@.take(i as int) =~= value@);
    encoded.append("\"");
    encoded
}

pub fn json_string_array(values: &[String]) -> (encoded: String)
    ensures
        encoded@ == json_array_of(values@),
{
    let mut encoded = String::from_str("[");
    let mut i: usize = 0;
    while i < values.len()
        invariant
            i <= values@.len(),
            encoded@ == "["@ + json_items(values@.take(i as int)),
        decreases values@.len() - i,
    {
        if i > 0 {
            encoded.append(",");
        }
        let item = json_string(values[i].as_str());
        encoded.append(item.as_str());
        assert(values@.take(i + 1).drop_last() =~= values@.take(i as int));
        assert(encoded@ =~= "["@ + json_items(values@.take(i + 1)));
        i = i + 1;
    }
    assert(values@.take(i as int) =~= values@);
    encoded.append("]");
    encoded
}

fn push_bool(out: &mut String, b: bool)
    ensures
        final(out)@ == old(out)@ + json_bool(b),
{
    if b {
        out.append("true");
    } else {
        out.append("false");
    }
}

// ---------------------------------------------------------------------
// Snapshots
// ---------------------------------------------------------------------

#[derive(Clone, Debug, PartialEq, Eq)]
pub struct QueueSnapshot {
    pub depth: usize,
    pub max: usize,
}

pub open spec fn queue_json(q: QueueSnapshot) -> Seq<char> {
    "{\"depth\":"@ + decimal(q.depth as nat) + ",\"max\":"@ + decimal(q.max as nat) + "}"@
}

impl QueueSnapshot {
    pub fn to_json(&self) -> (json: String)
        ensures
            json@ == queue_json(*self),
    {
        let mut out = String::from_str("{\"depth\":");
        push_decimal(&mut out, self.depth as u64);
        out.append(",\"max\":");
        push_decimal(&mut out, self.max as u64);
        out.append("}");
        out
    }
}

#[derive(Clone, Debug, PartialEq, Eq)]
pub struct TotalsSnapshot {
    pub generated: u64,
    pub accepted: u64,
    pub processed: u64,
    pub dropped: u64,
    pub retried: u64,
    pub retry_exhausted: u64,
    pub failed_in_service: u64,
}

pub open spec fn totals_json(t: TotalsSnapshot) -> Seq<char> {
    "{\"generated\":"@ + decimal(t.generated as nat) + ",\"accepted\":"@ + decimal(
        t.accepted as nat,
    ) + ",\"processed\":"@ + decimal(t.processed as nat) + ",\"dropped\":"@ + decimal(
        t.dropped as nat,
    ) + ",\"retried\":"@ + decimal(t.retried as nat) + ",\"retry_exhausted\":"@ + decimal(
        t.retry_exhausted as nat,
    ) + ",\"failed_in_service\":"@ + decimal(t.failed_in_service as nat) + "}"@
}

impl TotalsSnapshot {
    pub fn to_json(&self) -> (json: String)
        ensures
            json@ == totals_json(*self),
    {
        let mut out = String::from_str("{\"generated\":");
        push_decimal(&mut out, self.generated);
        out.append(",\"accepted\":");
        push_decimal(&mut out, self.accepted);
        out.append(",\"processed\":");
        push_decimal(&mut out, self.processed);
        out.append(",\"dropped\":");
        push_decimal(&mut out, self.dropped);
        out.append(",\"retried\":");
        push_decimal(&mut out, self.retried);
        out.append(",\"retry_exhausted\":");
        push_decimal(&mut out, self.retry_exhausted);
        out.append(",\"failed_in_service\":");
        push_decimal(&mut out, self.failed_in_service);
        out.append("}");
        out
    }
}

#[derive(Clone, Debug, PartialEq)]
pub struct ServiceSnapshot {
    pub name: String,
    pub state: String,
    pub capacity_per_tick: u32,
    pub processed: u64,
    pub failed_in_service: u64,
    pub retry_attempts: u64,
    pub retry_exhausted: u64,
    pub last_processed: u32,
    pub last_failed_in_service: u32,
    pub pressure_ticks: u32,
    pub recovery_ticks: u32,
}

/// `snapshot` describes `service`.
pub open spec fn describes_service(snapshot: ServiceSnapshot, service: ServiceNode) -> bool {
    &&& snapshot.name@ == service_id_label(service.id)
    &&& snapshot.state@ == service_state_label(service.state)
    &&& snapshot.capacity_per_tick == service.capacity_per_tick
    &&& snapshot.processed == service.processed
    &&& snapshot.failed_in_service == service.failed_in_service
    &&& snapshot.retry_attempts == service.retry_attempts
    &&& snapshot.retry_exhausted == service.retry_exhausted
    &&& snapshot.last_processed == service.last_processed
    &&& snapshot.last_failed_in_service == service.last_failed_in_service
    &&& snapshot.pressure_ticks == service.pressure_ticks
    &&& snapshot.recovery_ticks == service.recovery_ticks
}

pub open spec fn service_json(s: ServiceSnapshot) -> Seq<char> {
    "{\"name\":"@ + json_string_of(s.name@) + ",\"state\":"@ + json_string_of(s.state@)
        + ",\"capacity_per_tick\":"@ + decimal(s.capacity_per_tick as nat) + ",\"processed\":"@
        + decimal(s.processed as nat) + ",\"failed_in_service\":"@ + decimal(
        s.failed_in_service as nat,
    ) + ",\"retry_attempts\":"@ + decimal(s.retry_attempts as nat) + ",\"retry_exhausted\":"@
        + decimal(s.retry_exhausted as nat) + ",\"last_processed\":"@ + decimal(
        s.last_processed as nat,
    ) + ",\"last_failed_in_service\":"@ + decimal(s.last_failed_in_service as nat)
        + ",\"pressure_ticks\":"@ + decimal(s.pressure_ticks as nat) + ",\"recovery_ticks\":"@
        + decimal(s.recovery_ticks as nat) + "}"@
}

impl ServiceSnapshot {
    pub fn from_service(service: &ServiceNode) -> (snapshot: Self)
        ensures
            describes_service(snapshot, *service),
    {
        ServiceSnapshot {
            name: String::from_str(service.label()),
            state: String::from_str(service_state_name(service.state)),
            capacity_per_tick: service.capacity_per_tick,
            processed: service.processed,
            failed_in_service: service.failed_in_service,
            retry_attempts: service.retry_attempts,
            retry_exhausted: service.retry_exhausted,
            last_processed: service.last_processed,
            last_failed_in_service: service.last_failed_in_service,
            pressure_ticks: service.pressure_ticks,
            recovery_ticks: service.recovery_ticks,
        }
    }

    pub fn to_json(&self) -> (json: String)
        ensures
            json@ == service_json(*self),
    {
        let mut out = String::from_str("{\"name\":");
        out.append(json_string(self.name.as_str()).as_str());
        out.append(",\"state\":");
        out.append(json_string(self.state.as_str()).as_str());
        out.append(",\"capacity_per_tick\":");
        push_decimal(&mut out, self.capacity_per_tick as u64);
        out.append(",\"processed\":");
        push_decimal(&mut out, self.processed);
        out.append(",\"failed_in_service\":");
        push_decimal(&mut out, self.failed_in_service);
        out.append(",\"retry_attempts\":");
        push_decimal(&mut out, self.retry_attempts);
        out.append(",\"retry_exhausted\":");
        push_decimal(&mut out, self.retry_exhausted);
        out.append(",\"last_processed\":");
        push_decimal(&mut out, self.last_processed as u64);
        out.append(",\"last_failed_in_service\":");
        push_decimal(&mut out, self.last_failed_in_service as u64);
        out.append(",\"pressure_ticks\":");
        push_decimal(&mut out, self.pressure_ticks as u64);
        out.append(",\"recovery_ticks\":");
        push_decimal(&mut out, self.recovery_ticks as u64);
        out.append("}");
        out
    }
}

/// Everything an observer is told about the simulation at one moment.
/// The recent window is kept as totals; its averages, which are fractions,
/// are written by the caller of `to_json`.
#[derive(Clone, Debug)]
pub struct SimulationSnapshot {
    pub scenario: String,
    pub tick: u64,
    pub queue: QueueSnapshot,
    pub backpressure_active: bool,
    pub totals: TotalsSnapshot,
    pub recent: RecentSummary,
    pub service_a: ServiceSnapshot,
    pub service_b: ServiceSnapshot,
    pub status_signals: Vec<String>,
}

pub open spec fn simulation_json(s: SimulationSnapshot, recent_json: Seq<char>) -> Seq<char> {
    "{\"scenario\":"@ + json_string_of(s.scenario@) + ",\"tick\":"@ + decimal(s.tick as nat)
        + ",\"queue\":"@ + queue_json(s.queue) + ",\"backpressure_active\":"@ + json_bool(
        s.backpressure_active,
    ) + ",\"totals\":"@ + totals_json(s.totals) + ",\"recent\":"@ + recent_json
        + ",\"service_a\":"@ + service_json(s.service_a) + ",\"service_b\":"@ + service_json(
        s.service_b,
    ) + ",\"status_signals\":"@ + json_array_of(s.status_signals@) + "}"@
}

/// `snapshot` describes `simulation`, running `scenario`.
pub open spec fn describes_simulation(
    snapshot: SimulationSnapshot,
    scenario: Scenario,
    simulation: Simulation,
) -> bool {
    let signals = signals_of(simulation@.history);
    &&& snapshot.scenario@ == scenario_name(scenario)
    &&& snapshot.tick == simulation.tick
    &&& snapshot.queue == QueueSnapshot {
        depth: simulation@.queue.len() as usize,
        max: simulation.config.max_queue_size,
    }
    &&& snapshot.backpressure_active == simulation.backpressure_active
    &&& snapshot.totals == TotalsSnapshot {
        generated: simulation.generated,
        accepted: simulation.accepted,
        processed: (simulation.service_a.processed + simulation.service_b.processed) as u64,
        dropped: simulation.dropped,
        retried: simulation.retry_attempts,
        retry_exhausted: simulation.retry_exhausted,
        failed_in_service: (simulation.service_a.failed_in_service
            + simulation.service_b.failed_in_service) as u64,
    }
    &&& snapshot.recent == summary_of(simulation@.history)
    &&& describes_service(snapshot.service_a, simulation.service_a)
    &&& describes_service(snapshot.service_b, simulation.service_b)
    &&& snapshot.status_signals@.len() == signals.len()
    &&& forall|i: int|
        0 <= i < signals.len() ==> #[trigger] snapshot.status_signals@[i]@ == status_signal_label(
            signals[i],
        )
}

impl SimulationSnapshot {
    pub fn from_simulation(scenario: Scenario, simulation: &Simulation) -> (snapshot: Self)
        requires
            simulation.service_a.processed + simulation.service_b.processed <= u64::MAX,
            simulation.service_a.failed_in_service + simulation.service_b.failed_in_service
                <= u64::MAX,
        ensures
            describes_simulation(snapshot, scenario, *simulation),
    {
        let recent = simulation.recent_summary();
        let signals = simulation.status_signals();
        let mut names: Vec<String> = Vec::new();
        let mut i: usize = 0;
        while i < signals.len()
            invariant
                i <= signals@.len(),
                names@.len() == i,
                forall|j: int|
                    0 <= j < i ==> #[trigger] names@[j]@ == status_signal_label(signals@[j]),
            decreases signals@.len() - i,
        {
            names.push(String::from_str(status_signal_name(signals[i])));
            i = i + 1;
        }
        SimulationSnapshot {
            scenario: String::from_str(scenario.name()),
            tick: simulation.tick,
            queue: QueueSnapshot {
                depth: simulation.queue_depth(),
                max: simulation.config.max_queue_size,
            },
            backpressure_active: simulation.backpressure_active,
            totals: TotalsSnapshot {
                generated: simulation.generated,
                accepted: simulation.accepted,
                processed: simulation.total_processed(),
                dropped: simulation.dropped,
                retried: simulation.retry_attempts,
                retry_exhausted: simulation.retry_exhausted,
                failed_in_service: simulation.total_failed_in_service(),
            },
            recent,
            service_a: ServiceSnapshot::from_service(&simulation.service_a),
            service_b: ServiceSnapshot::from_service(&simulation.service_b),
            status_signals: names,
        }
    }

    /// The snapshot as one JSON object; `recent_json` is written as the
    /// value of its `recent` member.
    pub fn to_json(&self, recent_json: &str) -> (json: String)
        ensures
            json@ == simulation_json(*self, recent_json@),
    {
        let mut out = String::from_str("{\"scenario\":");
        out.append(json_string(self.scenario.as_str()).as_str());
        out.append(",\"tick\":");
        push_decimal(&mut out, self.tick);
        out.append(",\"queue\":");
        out.append(self.queue.to_json().as_str());
        out.append(",\"backpressure_active\":");
        push_bool(&mut out, self.backpressure_active);
        out.append(",\"totals\":");
        out.append(self.totals.to_json().as_str());
        out.append(",\"recent\":");
        out.append(recent_json);
        out.append(",\"service_a\":");
        out.append(self.service_a.to_json().as_str());
        out.append(",\"service_b\":");
        out.append(self.service_b.to_json().as_str());
        out.append(",\"status_signals\":");
        out.append(json_string_array(self.status_signals.as_slice()).as_str());
        out.append("}");
        out
    }
}

// ---------------------------------------------------------------------
// Requests
// ---------------------------------------------------------------------

/// The first position at or after `from` where `pattern` occurs in `s`.
pub open spec fn find_from(s: Seq<char>, pattern: Seq<char>, from: int) -> Option<int>
    decreases s.len() + 1 - from,
{
    if from < 0 || from + pattern.len() > s.len() {
        None
    } else if s.subrange(from, from + pattern.len()) == pattern {
        Some(from)
    } else {
        find_from(s, pattern, from + 1)
    }
}

/// Unicode white space, as `char::is_whitespace` defines it.
pub open spec fn is_whitespace(c: char) -> bool {
    let code = c as u32;
    ||| 0x09 <= code <= 0x0D
    ||| code == 0x20
    ||| code == 0x85
    ||| code == 0xA0
    ||| code == 0x1680
    ||| 0x2000 <= code <= 0x200A
    ||| code == 0x2028
    ||| code == 0x2029
    ||| code == 0x202F
    ||| code == 0x205F
    ||| code == 0x3000
}

/// `s` without its leading white space.
pub open spec fn trim_start(s: Seq<char>) -> Seq<char>
    decreases s.len(),
{
    if s.len() > 0 && is_whitespace(s[0]) {
        trim_start(s.skip(1))
    } else {
        s
    }
}

pub open spec fn method_key() -> Seq<char> {
    "\"method\""@
}

/// The method a request names: the text between the first pair of quotes
/// that follows the first `:` after the first `"method"`.
pub open spec fn method_of(request: Seq<char>) -> Option<Seq<char>> {
    match find_from(request, method_key(), 0) {
        None => None,
        Some(key_index) => {
            let rest = request.skip(key_index + method_key().len());
            match find_from(rest, seq![':'], 0) {
                None => None,
                Some(colon_index) => {
                    let value = trim_start(rest.skip(colon_index + 1));
                    if value.len() > 0 && value[0] == '"' {
                        let quoted = value.skip(1);
                        match find_from(quoted, seq!['"'], 0) {
                            None => None,
                            Some(end_index) => Some(quoted.take(end_index)),
                        }
                    } else {
                        None
                    }
                },
            }
        },
    }
}

pub open spec fn pong_json() -> Seq<char> {
    "{\"ok\":true,\"message\":\"pong\"}"@
}

pub open spec fn error_json(message: Seq<char>) -> Seq<char> {
    "{\"ok\":false,\"error\":"@ + json_string_of(message) + "}"@
}

pub open spec fn ok_snapshot_json(snapshot_json: Seq<char>) -> Seq<char> {
    "{\"ok\":true,\"snapshot\":"@ + snapshot_json + "}"@
}

/// The reply to a request line, or `None` when the reply is the current
/// snapshot.
pub open spec fn reply_of(request: Seq<char>) -> Option<Seq<char>> {
    match method_of(request) {
        Some(method) => if method == "GetSimulationSnapshot"@ {
            None
        } else if method == "Ping"@ {
            Some(pong_json())
        } else {
            Some(error_json("unknown method"@))
        },
        None => Some(error_json("invalid request"@)),
    }
}

fn matches_at(s: &Vec<char>, pattern: &Vec<char>, at: usize) -> (found: bool)
    requires
        at + pattern@.len() <= s@.len(),
    ensures
        found == (s@.subrange(at as int, at + pattern@.len()) == pattern@),
{
    let s_len = s.len();
    let mut j: usize = 0;
    while j < pattern.len()
        invariant
            s_len == s@.len(),
            at + pattern@.len() <= s@.len(),
            j <= pattern@.len(),
            forall|k: int| 0 <= k < j ==> s@[at + k] == pattern@[k],
        decreases pattern@.len() - j,
    {
        if s[at + j] != pattern[j] {
            assert(s@.subrange(at as int, at + pattern@.len())[j as int] != pattern@[j as int]);
            return false;
        }
        j = j + 1;
    }
    assert(s@.subrange(at as int, at + pattern@.len()) =~= pattern@);
    true
}

fn find(s: &Vec<char>, pattern: &Vec<char>) -> (index: Option<usize>)
    requires
        pattern@.len() > 0,
    ensures
        match index {
            Some(i) => find_from(s@, pattern@, 0) == Some(i as int),
            None => find_from(s@, pattern@, 0) is None,
        },
{
    if pattern.len() > s.len() {
        return None;
    }
    let s_len = s.len();
    let last = s_len - pattern.len();
    let mut i: usize = 0;
    while i <= last
        invariant
            s_len == s@.len(),
            pattern@.len() > 0,
            last == s@.len() - pattern@.len(),
            i <= last + 1,
            find_from(s@, pattern@, 0) == find_from(s@, pattern@, i as int),
        decreases last + 1 - i,
    {
        if matches_at(s, pattern, i) {
            return Some(i);
        }
        i = i + 1;
    }
    None
}

fn tail(s: &Vec<char>, from: usize) -> (rest: Vec<char>)
    requires
        from <= s@.len(),
    ensures
        rest@ == s@.skip(from as int),
{
    let mut rest: Vec<char> = Vec::new();
    let mut i = from;
    while i < s.len()
        invariant
            from <= i <= s@.len(),
            rest@ == s@.subrange(from as int, i as int),
        decreases s@.len() - i,
    {
        rest.push(s[i]);
        i = i + 1;
        assert(rest@ =~= s@.subrange(from as int, i as int));
    }
    assert(rest@ =~= s@.skip(from as int));
    rest
}

fn char_is_whitespace(c: char) -> (ws: bool)
    ensures
        ws == is_whitespace(c),
{
    let code = c as u32;
    (0x09 <= code && code <= 0x0D) || code == 0x20 || code == 0x85 || code == 0xA0 || code
        == 0x1680 || (0x2000 <= code && code <= 0x200A) || code == 0x2028 || code == 0x2029
        || code == 0x202F || code == 0x205F || code == 0x3000
}

fn trimmed_start(s: &Vec<char>) -> (trimmed: Vec<char>)
    ensures
        trimmed@ == trim_start(s@),
{
    let mut i: usize = 0;
    assert(s@.skip(0) =~= s@);
    while i < s.len() && char_is_whitespace(s[i])
        invariant
            i <= s@.len(),
            trim_start(s@) == trim_start(s@.skip(i as int)),
        decreases s@.len() - i,
    {
        assert(s@.skip(i as int).skip(1) =~= s@.skip(i + 1));
        i = i + 1;
    }
    tail(s, i)
}

pub fn parse_method(request: &str) -> (method: Option<String>)
    ensures
        match method {
            Some(m) => method_of(request@) == Some(m@),
            None => method_of(request@) is None,
        },
{
    let chars = chars_of(request);
    let key = chars_of("\"method\"");
    proof {
        reveal_strlit("\"method\"");
    }
    let key_index = match find(&chars, &key) {
        Some(i) => i,
        None => return None,
    };
    proof {
        lemma_find_in_bounds(chars@, key@, 0);
    }
    assert(key_index + key@.len() <= chars@.len());
    let _chars_len = chars.len();
    let rest = tail(&chars, key_index + key.len());
    let colon = vec![':'];
    assert(colon@ =~= seq![':']);
    let colon_index = match find(&rest, &colon) {
        Some(i) => i,
        None => return None,
    };
    proof {
        lemma_find_in_bounds(rest@, colon@, 0);
    }
    assert(colon_index + 1 <= rest@.len());
    let _rest_len = rest.len();
    let value = trimmed_start(&tail(&rest, colon_index + 1));
    if value.len() == 0 || value[0] != '"' {
        return None;
    }
    let quoted = tail(&value, 1);
    let quote = vec!['"'];
    assert(quote@ =~= seq!['"']);
    let end_index = match find(&quoted, &quote) {
        Some(i) => i,
        None => return None,
    };
    proof {
        lemma_find_in_bounds(quoted@, quote@, 0);
    }
    let method = string_of_chars(&quoted, 0, end_index);
    assert(quoted@.subrange(0, end_index as int) =~= quoted@.take(end_index as int));
    Some(method)
}

proof fn lemma_find_in_bounds(s: Seq<char>, pattern: Seq<char>, from: int)
    ensures
        find_from(s, pattern, from) matches Some(i) ==> from <= i && i + pattern.len() <= s.len(),
    decreases s.len() + 1 - from,
{
    if !(from < 0 || from + pattern.len() > s.len()) && s.subrange(from, from + pattern.len())
        != pattern {
        lemma_find_in_bounds(s, pattern, from + 1);
    }
}

/// How a request line is answered.
pub enum RequestRoute {
    /// With the current snapshot.
    Snapshot,
    /// With this reply.
    Reply(String),
}

/// Decides how to answer a request line: a snapshot request needs the
/// current snapshot; a ping, an unknown method or an unreadable request is
/// answered directly. No request changes anything.
pub fn route_request(request: &str) -> (route: RequestRoute)
    ensures
        match route {
            RequestRoute::Snapshot => reply_of(request@) is None,
            RequestRoute::Reply(reply) => reply_of(request@) == Some(reply@),
        },
{
    match parse_method(request) {
        Some(method) => {
            if str_equal(method.as_str(), "GetSimulationSnapshot") {
                RequestRoute::Snapshot
            } else if str_equal(method.as_str(), "Ping") {
                RequestRoute::Reply(String::from_str("{\"ok\":true,\"message\":\"pong\"}"))
            } else {
                RequestRoute::Reply(error_response("unknown method"))
            }
        },
        None => RequestRoute::Reply(error_response("invalid request")),
    }
}

pub fn ok_snapshot_response(snapshot_json: &str) -> (response: String)
    ensures
        response@ == ok_snapshot_json(snapshot_json@),
{
    let mut response = String::from_str("{\"ok\":true,\"snapshot\":");
    response.append(snapshot_json);
    response.append("}");
    response
}

pub fn error_response(message: &str) -> (response: String)
    ensures
        response@ == error_json(message@),
{
    let mut response = String::from_str("{\"ok\":false,\"error\":");
    response.append(json_string(message).as_str());
    response.append("}");
    response
}

} // verus!
