use std::collections::VecDeque;
use vstd::prelude::*;

verus! {

pub const DEFAULT_REQUESTS_PER_TICK: u32 = 6;
pub const DEFAULT_SERVICE_CAPACITY_PER_TICK: u32 = 2;
pub const DEFAULT_MAX_QUEUE_SIZE: usize = 24;
pub const DEFAULT_OVERLOAD_THRESHOLD_TICKS: u32 = 4;
pub const DEFAULT_FAILURE_THRESHOLD_TICKS: u32 = 10;
pub const DEFAULT_MAX_REQUEST_RETRIES: u8 = 2;
pub const DEFAULT_BACKPRESSURE_THRESHOLD_TICKS: u32 = 2;
pub const DEFAULT_OVERLOAD_RECOVERY_TICKS: u32 = 3;
pub const DEFAULT_HISTORY_LIMIT: usize = 30;

pub const QUEUE_PRESSURE_NUMERATOR: usize = 3;
pub const QUEUE_PRESSURE_DENOMINATOR: usize = 4;
pub const BACKPRESSURE_RATE_DIVISOR: u32 = 2;

/// The tunable parameters of a simulation run.
#[derive(Clone, Copy, Debug, PartialEq, Eq, Structural)]
pub struct SimulationConfig {
    pub requests_per_tick: u32,
    pub service_capacity_per_tick: u32,
    pub max_queue_size: usize,
    pub overload_threshold_ticks: u32,
    pub failure_threshold_ticks: u32,
    pub max_request_retries: u8,
    pub backpressure_threshold_ticks: u32,
    pub overload_recovery_ticks: u32,
    pub history_limit: usize,
}

pub open spec fn default_config() -> SimulationConfig {
    SimulationConfig {
        requests_per_tick: DEFAULT_REQUESTS_PER_TICK,
        service_capacity_per_tick: DEFAULT_SERVICE_CAPACITY_PER_TICK,
        max_queue_size: DEFAULT_MAX_QUEUE_SIZE,
        overload_threshold_ticks: DEFAULT_OVERLOAD_THRESHOLD_TICKS,
        failure_threshold_ticks: DEFAULT_FAILURE_THRESHOLD_TICKS,
        max_request_retries: DEFAULT_MAX_REQUEST_RETRIES,
        backpressure_threshold_ticks: DEFAULT_BACKPRESSURE_THRESHOLD_TICKS,
        overload_recovery_ticks: DEFAULT_OVERLOAD_RECOVERY_TICKS,
        history_limit: DEFAULT_HISTORY_LIMIT,
    }
}

impl Default for SimulationConfig {
    fn default() -> (config: Self)
        ensures
            config == default_config(),
    {
        SimulationConfig {
            requests_per_tick: DEFAULT_REQUESTS_PER_TICK,
            service_capacity_per_tick: DEFAULT_SERVICE_CAPACITY_PER_TICK,
            max_queue_size: DEFAULT_MAX_QUEUE_SIZE,
            overload_threshold_ticks: DEFAULT_OVERLOAD_THRESHOLD_TICKS,
            failure_threshold_ticks: DEFAULT_FAILURE_THRESHOLD_TICKS,
            max_request_retries: DEFAULT_MAX_REQUEST_RETRIES,
            backpressure_threshold_ticks: DEFAULT_BACKPRESSURE_THRESHOLD_TICKS,
            overload_recovery_ticks: DEFAULT_OVERLOAD_RECOVERY_TICKS,
            history_limit: DEFAULT_HISTORY_LIMIT,
        }
    }
}

/// Which of the two services a value refers to.
#[derive(Clone, Copy, Debug, PartialEq, Eq, Structural)]
pub enum ServiceId {
    A,
    B,
}

pub open spec fn service_id_label(id: ServiceId) -> Seq<char> {
    match id {
        ServiceId::A => "Service A"@,
        ServiceId::B => "Service B"@,
    }
}

impl ServiceId {
    pub fn label(self) -> (label: &'static str)
        ensures
            label@ == service_id_label(self),
    {
        match self {
            ServiceId::A => "Service A",
            ServiceId::B => "Service B",
        }
    }
}

/// The health of a service.
#[derive(Clone, Copy, Debug, PartialEq, Eq, Structural)]
pub enum ServiceState {
    Healthy,
    Overloaded,
    Failed,
}

pub open spec fn service_state_label(state: ServiceState) -> Seq<char> {
    match state {
        ServiceState::Healthy => "healthy"@,
        ServiceState::Overloaded => "overloaded"@,
        ServiceState::Failed => "failed"@,
    }
}

impl ServiceState {
    pub fn label(self) -> (label: &'static str)
        ensures
            label@ == service_state_label(self),
    {
        match self {
            ServiceState::Healthy => "healthy",
            ServiceState::Overloaded => "overloaded",
            ServiceState::Failed => "failed",
        }
    }
}

/// The direction in which the queue depth moved over the recorded history.
#[derive(Clone, Copy, Debug, PartialEq, Eq, Structural)]
pub enum QueueTrend {
    Rising,
    Falling,
    Stable,
}

pub open spec fn queue_trend_label(trend: QueueTrend) -> Seq<char> {
    match trend {
        QueueTrend::Rising => "rising"@,
        QueueTrend::Falling => "falling"@,
        QueueTrend::Stable => "stable"@,
    }
}

impl QueueTrend {
    pub fn label(self) -> (label: &'static str)
        ensures
            label@ == queue_trend_label(self),
    {
        match self {
            QueueTrend::Rising => "rising",
            QueueTrend::Falling => "falling",
            QueueTrend::Stable => "stable",
        }
    }
}

/// A condition worth an operator's attention, derived from the history.
#[derive(Clone, Copy, Debug, PartialEq, Eq, Structural)]
pub enum StatusSignal {
    QueueRising,
    SustainedBackpressure,
    RetryActivity,
    BothServicesUnhealthy,
}

/// What happened during one tick.
#[derive(Clone, Copy, Debug)]
pub struct HistoryEntry {
    pub tick: u64,
    pub generated: u32,
    pub accepted: u32,
    pub processed: u32,
    pub dropped: u32,
    pub retried: u32,
    pub retry_exhausted: u32,
    pub failed_in_service: u32,
    pub queue_depth: usize,
    pub backpressure_active: bool,
    pub service_a_state: ServiceState,
    pub service_b_state: ServiceState,
}

/// Totals over the recorded history window. Averages are these totals
/// divided by `window`.
#[derive(Clone, Copy, Debug)]
pub struct RecentSummary {
    pub window: usize,
    pub total_generated: u128,
    pub total_processed: u128,
    pub total_dropped: u128,
    pub total_retried: u128,
    pub backpressure_ticks: usize,
    pub queue_trend: QueueTrend,
}

/// A queued request and how often it has been retried.
#[derive(Clone, Copy, Debug)]
pub struct Request {
    pub retries: u8,
}

impl Request {
    pub fn new() -> (request: Self)
        ensures
            request.retries == 0,
    {
        Request { retries: 0 }
    }
}

/// What a service did with the requests it took this tick.
struct ServiceTickResult {
    retried: u32,
    retry_exhausted: u32,
    failed_in_service: u32,
}

/// One of the two services that drain the shared queue.
#[derive(Debug)]
pub struct ServiceNode {
    pub id: ServiceId,
    pub capacity_per_tick: u32,
    pub state: ServiceState,
    pub processed: u64,
    pub failed_in_service: u64,
    pub retry_attempts: u64,
    pub retry_exhausted: u64,
    pub last_processed: u32,
    pub last_failed_in_service: u32,
    pub pressure_ticks: u32,
    pub recovery_ticks: u32,
}

pub open spec fn fresh_service(id: ServiceId, capacity_per_tick: u32) -> ServiceNode {
    ServiceNode {
        id,
        capacity_per_tick,
        state: ServiceState::Healthy,
        processed: 0,
        failed_in_service: 0,
        retry_attempts: 0,
        retry_exhausted: 0,
        last_processed: 0,
        last_failed_in_service: 0,
        pressure_ticks: 0,
        recovery_ticks: 0,
    }
}

/// The requests that go back to the queue after a failed service took
/// `batch`: those below the retry limit, each with one more retry.
pub open spec fn requeued(batch: Seq<Request>, max_retries: u8) -> Seq<Request>
    decreases batch.len(),
{
    if batch.len() == 0 {
        Seq::empty()
    } else {
        let earlier = requeued(batch.drop_last(), max_retries);
        let request = batch.last();
        if request.retries < max_retries {
            earlier.push(Request { retries: (request.retries + 1) as u8 })
        } else {
            earlier
        }
    }
}

/// How many requests a service with `capacity` takes from a queue of `len`.
pub open spec fn served(capacity: u32, len: int) -> int {
    if capacity < len {
        capacity as int
    } else {
        len
    }
}

/// The requests a service sends back for retry after taking `batch`.
pub open spec fn requeued_by(node: ServiceNode, batch: Seq<Request>, max_retries: u8) -> Seq<
    Request,
> {
    if node.state == ServiceState::Failed {
        requeued(batch, max_retries)
    } else {
        Seq::empty()
    }
}

/// How many of `batch` failed in the service.
pub open spec fn failed_count(node: ServiceNode, batch: Seq<Request>) -> int {
    if node.state == ServiceState::Failed {
        batch.len() as int
    } else {
        0
    }
}

/// The service after it took `batch`: a working service processes it, a
/// failed one fails each request and counts the retries and exhaustions.
pub open spec fn serve_batch(node: ServiceNode, batch: Seq<Request>, max_retries: u8) -> ServiceNode {
    let k = batch.len();
    if node.state == ServiceState::Failed {
        let retried = requeued(batch, max_retries).len();
        ServiceNode {
            failed_in_service: (node.failed_in_service + k) as u64,
            last_failed_in_service: (node.last_failed_in_service + k) as u32,
            retry_attempts: (node.retry_attempts + retried) as u64,
            retry_exhausted: (node.retry_exhausted + (k - retried)) as u64,
            ..node
        }
    } else {
        ServiceNode {
            processed: (node.processed + k) as u64,
            last_processed: (node.last_processed + k) as u32,
            ..node
        }
    }
}

pub open spec fn serve_fits(node: ServiceNode, batch: Seq<Request>, max_retries: u8) -> bool {
    let k = batch.len();
    if node.state == ServiceState::Failed {
        let retried = requeued(batch, max_retries).len();
        &&& node.failed_in_service + k <= u64::MAX
        &&& node.last_failed_in_service + k <= u32::MAX
        &&& node.retry_attempts + retried <= u64::MAX
        &&& node.retry_exhausted + (k - retried) <= u64::MAX
    } else {
        &&& node.processed + k <= u64::MAX
        &&& node.last_processed + k <= u32::MAX
    }
}

/// The service's health after a tick with or without pressure.
pub open spec fn settle_service(
    node: ServiceNode,
    config: SimulationConfig,
    queue_pressure: bool,
    dropping_requests: bool,
) -> ServiceNode {
    if node.state == ServiceState::Failed {
        node
    } else if queue_pressure || dropping_requests {
        let pressure_ticks = (node.pressure_ticks + 1) as u32;
        ServiceNode {
            pressure_ticks,
            recovery_ticks: 0,
            state: if pressure_ticks >= config.failure_threshold_ticks {
                ServiceState::Failed
            } else if pressure_ticks >= config.overload_threshold_ticks {
                ServiceState::Overloaded
            } else {
                ServiceState::Healthy
            },
            ..node
        }
    } else if node.state == ServiceState::Healthy {
        ServiceNode { pressure_ticks: 0, recovery_ticks: 0, ..node }
    } else {
        let recovery_ticks = (node.recovery_ticks + 1) as u32;
        if recovery_ticks >= config.overload_recovery_ticks {
            ServiceNode {
                state: ServiceState::Healthy,
                pressure_ticks: 0,
                recovery_ticks: 0,
                ..node
            }
        } else {
            ServiceNode { recovery_ticks, ..node }
        }
    }
}

pub open spec fn settle_fits(
    node: ServiceNode,
    queue_pressure: bool,
    dropping_requests: bool,
) -> bool {
    &&& (node.state != ServiceState::Failed && (queue_pressure || dropping_requests))
        ==> node.pressure_ticks < u32::MAX
    &&& (node.state == ServiceState::Overloaded && !(queue_pressure || dropping_requests))
        ==> node.recovery_ticks < u32::MAX
}

/// A failed service comes back healthy with its pressure forgotten; any
/// other service is left as it is.
pub open spec fn restarted(node: ServiceNode) -> ServiceNode {
    if node.state == ServiceState::Failed {
        ServiceNode {
            state: ServiceState::Healthy,
            pressure_ticks: 0,
            recovery_ticks: 0,
            ..node
        }
    } else {
        node
    }
}

impl ServiceNode {
    fn new(id: ServiceId, capacity_per_tick: u32) -> (node: Self)
        ensures
            node == fresh_service(id, capacity_per_tick),
    {
        ServiceNode {
            id,
            capacity_per_tick,
            state: ServiceState::Healthy,
            processed: 0,
            failed_in_service: 0,
            retry_attempts: 0,
            retry_exhausted: 0,
            last_processed: 0,
            last_failed_in_service: 0,
            pressure_ticks: 0,
            recovery_ticks: 0,
        }
    }

    pub fn label(&self) -> (label: &'static str)
        ensures
            label@ == service_id_label(self.id),
    {
        self.id.label()
    }

    fn reset_tick(&mut self)
        ensures
            *final(self) == (ServiceNode {
                last_processed: 0,
                last_failed_in_service: 0,
                ..*old(self)
            }),
    {
        self.last_processed = 0;
        self.last_failed_in_service = 0;
    }

    fn process_from_queue(
        &mut self,
        queue: &mut VecDeque<Request>,
        retry_buffer: &mut VecDeque<Request>,
        max_request_retries: u8,
    ) -> (result: ServiceTickResult)
        requires
            serve_fits(
                *old(self),
                old(queue)@.take(served(old(self).capacity_per_tick, old(queue)@.len() as int)),
                max_request_retries,
            ),
        ensures
            ({
                let k = served(old(self).capacity_per_tick, old(queue)@.len() as int);
                let batch = old(queue)@.take(k);
                let back = requeued_by(*old(self), batch, max_request_retries);
                &&& final(queue)@ == old(queue)@.skip(k)
                &&& final(retry_buffer)@ == old(retry_buffer)@ + back
                &&& *final(self) == serve_batch(*old(self), batch, max_request_retries)
                &&& result.retried == back.len()
                &&& result.failed_in_service == failed_count(*old(self), batch)
                &&& result.retry_exhausted == failed_count(*old(self), batch) - back.len()
            }),
    {
        if self.state == ServiceState::Failed {
            return self.retry_offered_work(queue, retry_buffer, max_request_retries);
        }
        let ghost q0 = queue@;
        let n: usize = if (self.capacity_per_tick as usize) < queue.len() {
            self.capacity_per_tick as usize
        } else {
            queue.len()
        };
        let mut i: usize = 0;
        while i < n
            invariant
                i <= n,
                n == served(self.capacity_per_tick, q0.len() as int),
                queue@ == q0.skip(i as int),
            decreases n - i,
        {
            let _request = queue.pop_front();
            i = i + 1;
            assert(queue@ =~= q0.skip(i as int));
        }
        self.processed = self.processed + n as u64;
        self.last_processed = self.last_processed + n as u32;
        assert(retry_buffer@ =~= retry_buffer@ + Seq::<Request>::empty());
        ServiceTickResult { retried: 0, retry_exhausted: 0, failed_in_service: 0 }
    }

    fn retry_offered_work(
        &mut self,
        queue: &mut VecDeque<Request>,
        retry_buffer: &mut VecDeque<Request>,
        max_request_retries: u8,
    ) -> (result: ServiceTickResult)
        requires
            old(self).state == ServiceState::Failed,
            serve_fits(
                *old(self),
                old(queue)@.take(served(old(self).capacity_per_tick, old(queue)@.len() as int)),
                max_request_retries,
            ),
        ensures
            ({
                let k = served(old(self).capacity_per_tick, old(queue)@.len() as int);
                let batch = old(queue)@.take(k);
                let back = requeued(batch, max_request_retries);
                &&& final(queue)@ == old(queue)@.skip(k)
                &&& final(retry_buffer)@ == old(retry_buffer)@ + back
                &&& *final(self) == serve_batch(*old(self), batch, max_request_retries)
                &&& result.retried == back.len()
                &&& result.failed_in_service == k
                &&& result.retry_exhausted == k - back.len()
            }),
    {
        let ghost q0 = queue@;
        let ghost b0 = retry_buffer@;
        let n: usize = if (self.capacity_per_tick as usize) < queue.len() {
            self.capacity_per_tick as usize
        } else {
            queue.len()
        };
        let mut i: usize = 0;
        let mut retried: u32 = 0;
        proof {
            lemma_requeued_len(q0.take(n as int), max_request_retries);
        }
        while i < n
            invariant
                i <= n,
                n == served(self.capacity_per_tick, q0.len() as int),
                n <= q0.len(),
                n <= self.capacity_per_tick,
                queue@ == q0.skip(i as int),
                retry_buffer@ == b0 + requeued(q0.take(i as int), max_request_retries),
                retried == requeued(q0.take(i as int), max_request_retries).len(),
            decreases n - i,
        {
            let ghost before = q0.take(i as int);
            proof {
                lemma_requeued_len(before, max_request_retries);
            }
            let popped = queue.pop_front();
            if let Some(request) = popped {
                assert(q0.take(i + 1).drop_last() =~= before);
                assert(q0.take(i + 1).last() == request);
                if request.retries < max_request_retries {
                    retry_buffer.push_back(Request { retries: request.retries + 1 });
                    retried = retried + 1;
                }
            }
            i = i + 1;
            assert(queue@ =~= q0.skip(i as int));
        }
        assert(q0.take(n as int) =~= q0.take(i as int));
        proof {
            lemma_requeued_len(q0.take(n as int), max_request_retries);
        }
        self.failed_in_service = self.failed_in_service + n as u64;
        self.last_failed_in_service = self.last_failed_in_service + n as u32;
        self.retry_attempts = self.retry_attempts + retried as u64;
        self.retry_exhausted = self.retry_exhausted + (n as u32 - retried) as u64;
        ServiceTickResult {
            retried,
            retry_exhausted: n as u32 - retried,
            failed_in_service: n as u32,
        }
    }

    fn update_state(
        &mut self,
        config: SimulationConfig,
        queue_pressure: bool,
        dropping_requests: bool,
    )
        requires
            settle_fits(*old(self), queue_pressure, dropping_requests),
        ensures
            *final(self) == settle_service(*old(self), config, queue_pressure, dropping_requests),
    {
        if self.state == ServiceState::Failed {
            return ;
        }
        if queue_pressure || dropping_requests {
            self.pressure_ticks = self.pressure_ticks + 1;
            self.recovery_ticks = 0;
            self.state = if self.pressure_ticks >= config.failure_threshold_ticks {
                ServiceState::Failed
            } else if self.pressure_ticks >= config.overload_threshold_ticks {
                ServiceState::Overloaded
            } else {
                ServiceState::Healthy
            };
            return ;
        }
        match self.state {
            ServiceState::Healthy => {
                self.pressure_ticks = 0;
                self.recovery_ticks = 0;
            },
            ServiceState::Overloaded => {
                self.recovery_ticks = self.recovery_ticks + 1;
                if self.recovery_ticks >= config.overload_recovery_ticks {
                    self.state = ServiceState::Healthy;
                    self.pressure_ticks = 0;
                    self.recovery_ticks = 0;
                }
            },
            ServiceState::Failed => {},
        }
    }

    fn restart(&mut self)
        ensures
            *final(self) == restarted(*old(self)),
    {
        if self.state == ServiceState::Failed {
            self.state = ServiceState::Healthy;
            self.pressure_ticks = 0;
            self.recovery_ticks = 0;
        }
    }
}

/// A failed service sends back at most as many requests as it took.
pub proof fn lemma_requeued_len(batch: Seq<Request>, max_retries: u8)
    ensures
        requeued(batch, max_retries).len() <= batch.len(),
    decreases batch.len(),
{
    if batch.len() > 0 {
        lemma_requeued_len(batch.drop_last(), max_retries);
    }
}

/// The mathematical state of a simulation: every field of `Simulation`,
/// with the queue and the history as sequences.
#[verifier::ext_equal]
pub struct SimState {
    pub tick: u64,
    pub generated: u64,
    pub accepted: u64,
    pub dropped: u64,
    pub retry_attempts: u64,
    pub retry_exhausted: u64,
    pub last_generated: u32,
    pub last_accepted: u32,
    pub last_dropped: u32,
    pub last_retried: u32,
    pub last_retry_exhausted: u32,
    pub last_failed_in_service: u32,
    pub backpressure_active: bool,
    pub backpressure_ticks: u32,
    pub config: SimulationConfig,
    pub service_a: ServiceNode,
    pub service_b: ServiceNode,
    pub queue: Seq<Request>,
    pub history: Seq<HistoryEntry>,
}

/// The state of a simulation that has just been created.
pub open spec fn initial_state(config: SimulationConfig) -> SimState {
    SimState {
        tick: 0,
        generated: 0,
        accepted: 0,
        dropped: 0,
        retry_attempts: 0,
        retry_exhausted: 0,
        last_generated: 0,
        last_accepted: 0,
        last_dropped: 0,
        last_retried: 0,
        last_retry_exhausted: 0,
        last_failed_in_service: 0,
        backpressure_active: false,
        backpressure_ticks: 0,
        config,
        service_a: fresh_service(ServiceId::A, config.service_capacity_per_tick),
        service_b: fresh_service(ServiceId::B, config.service_capacity_per_tick),
        queue: Seq::empty(),
        history: Seq::empty(),
    }
}

pub open spec fn service_of(s: SimState, id: ServiceId) -> ServiceNode {
    match id {
        ServiceId::A => s.service_a,
        ServiceId::B => s.service_b,
    }
}

pub open spec fn with_service(s: SimState, id: ServiceId, node: ServiceNode) -> SimState {
    match id {
        ServiceId::A => SimState { service_a: node, ..s },
        ServiceId::B => SimState { service_b: node, ..s },
    }
}

/// `x * factor`, saturated at `usize::MAX`.
pub open spec fn saturating_product(x: int, factor: int) -> int {
    if x * factor > usize::MAX {
        usize::MAX as int
    } else {
        x * factor
    }
}

/// The queue is at least three quarters full (products saturate at
/// `usize::MAX`).
pub open spec fn at_pressure_level(queue_len: int, max_queue_size: int) -> bool {
    saturating_product(queue_len, QUEUE_PRESSURE_DENOMINATOR as int) >= saturating_product(
        max_queue_size,
        QUEUE_PRESSURE_NUMERATOR as int,
    )
}

/// How many requests the generator offers in a tick: the configured rate,
/// halved (but at least one) while backpressure is active.
pub open spec fn generation_rate(config: SimulationConfig, backpressure_active: bool) -> u32 {
    if !backpressure_active || config.requests_per_tick == 0 {
        config.requests_per_tick
    } else if config.requests_per_tick / BACKPRESSURE_RATE_DIVISOR > 1 {
        config.requests_per_tick / BACKPRESSURE_RATE_DIVISOR
    } else {
        1
    }
}

/// How many of `offered` new requests fit into a queue of `queue_len`.
pub open spec fn admitted(queue_len: int, max_queue_size: int, offered: int) -> int {
    if queue_len < max_queue_size {
        if offered < max_queue_size - queue_len {
            offered
        } else {
            max_queue_size - queue_len
        }
    } else {
        0
    }
}

pub open spec fn fresh_requests(n: int) -> Seq<Request> {
    Seq::new(n as nat, |i: int| Request { retries: 0 })
}

/// Phase one of a tick: advance the clock and clear the per-tick counters.
pub open spec fn begin_step(s: SimState) -> SimState {
    SimState {
        tick: (s.tick + 1) as u64,
        last_generated: 0,
        last_accepted: 0,
        last_dropped: 0,
        last_retried: 0,
        last_retry_exhausted: 0,
        last_failed_in_service: 0,
        service_a: ServiceNode { last_processed: 0, last_failed_in_service: 0, ..s.service_a },
        service_b: ServiceNode { last_processed: 0, last_failed_in_service: 0, ..s.service_b },
        ..s
    }
}

/// Phase two: count the ticks the queue has been under pressure and turn
/// backpressure on once that count reaches the threshold.
pub open spec fn backpressure_step(s: SimState) -> SimState {
    let ticks = if at_pressure_level(s.queue.len() as int, s.config.max_queue_size as int) {
        (s.backpressure_ticks + 1) as u32
    } else {
        0
    };
    SimState {
        backpressure_ticks: ticks,
        backpressure_active: ticks >= s.config.backpressure_threshold_ticks,
        ..s
    }
}

pub open spec fn backpressure_fits(s: SimState) -> bool {
    at_pressure_level(s.queue.len() as int, s.config.max_queue_size as int)
        ==> s.backpressure_ticks < u32::MAX
}

/// Phase three: offer new requests; those that find room are queued, the
/// rest are dropped.
pub open spec fn generate_step(s: SimState) -> SimState {
    let rate = generation_rate(s.config, s.backpressure_active);
    let n = admitted(s.queue.len() as int, s.config.max_queue_size as int, rate as int);
    SimState {
        last_generated: rate,
        generated: (s.generated + rate) as u64,
        accepted: (s.accepted + n) as u64,
        dropped: (s.dropped + (rate - n)) as u64,
        last_accepted: (s.last_accepted + n) as u32,
        last_dropped: (s.last_dropped + (rate - n)) as u32,
        queue: s.queue + fresh_requests(n),
        ..s
    }
}

pub open spec fn generate_fits(s: SimState) -> bool {
    let rate = generation_rate(s.config, s.backpressure_active);
    let n = admitted(s.queue.len() as int, s.config.max_queue_size as int, rate as int);
    &&& s.generated + rate <= u64::MAX
    &&& s.accepted + n <= u64::MAX
    &&& s.dropped + (rate - n) <= u64::MAX
    &&& s.last_accepted + n <= u32::MAX
    &&& s.last_dropped + (rate - n) <= u32::MAX
}

/// The requests service A takes: the front of the queue, up to its capacity.
pub open spec fn batch_a(s: SimState) -> Seq<Request> {
    s.queue.take(served(s.service_a.capacity_per_tick, s.queue.len() as int))
}

pub open spec fn queue_after_a(s: SimState) -> Seq<Request> {
    s.queue.skip(served(s.service_a.capacity_per_tick, s.queue.len() as int))
}

/// The requests service B takes: the front of what A left, up to its capacity.
pub open spec fn batch_b(s: SimState) -> Seq<Request> {
    let rest = queue_after_a(s);
    rest.take(served(s.service_b.capacity_per_tick, rest.len() as int))
}

pub open spec fn queue_after_b(s: SimState) -> Seq<Request> {
    let rest = queue_after_a(s);
    rest.skip(served(s.service_b.capacity_per_tick, rest.len() as int))
}

/// Phase four: service A, then service B, take requests from the front of
/// the queue; what failed services send back for retry joins the back of
/// the queue, A's before B's.
pub open spec fn dispatch_step(s: SimState) -> SimState {
    let max_retries = s.config.max_request_retries;
    let back_a = requeued_by(s.service_a, batch_a(s), max_retries);
    let back_b = requeued_by(s.service_b, batch_b(s), max_retries);
    let failed_a = failed_count(s.service_a, batch_a(s));
    let failed_b = failed_count(s.service_b, batch_b(s));
    let retried = back_a.len() + back_b.len();
    let exhausted = (failed_a - back_a.len()) + (failed_b - back_b.len());
    SimState {
        service_a: serve_batch(s.service_a, batch_a(s), max_retries),
        service_b: serve_batch(s.service_b, batch_b(s), max_retries),
        last_retried: retried as u32,
        last_retry_exhausted: exhausted as u32,
        last_failed_in_service: (failed_a + failed_b) as u32,
        retry_attempts: (s.retry_attempts + retried) as u64,
        retry_exhausted: (s.retry_exhausted + exhausted) as u64,
        queue: queue_after_b(s) + back_a + back_b,
        ..s
    }
}

pub open spec fn dispatch_fits(s: SimState) -> bool {
    let max_retries = s.config.max_request_retries;
    let back_a = requeued_by(s.service_a, batch_a(s), max_retries);
    let back_b = requeued_by(s.service_b, batch_b(s), max_retries);
    let failed_a = failed_count(s.service_a, batch_a(s));
    let failed_b = failed_count(s.service_b, batch_b(s));
    let retried = back_a.len() + back_b.len();
    let exhausted = (failed_a - back_a.len()) + (failed_b - back_b.len());
    &&& serve_fits(s.service_a, batch_a(s), max_retries)
    &&& serve_fits(s.service_b, batch_b(s), max_retries)
    &&& retried <= u32::MAX
    &&& exhausted <= u32::MAX
    &&& failed_a + failed_b <= u32::MAX
    &&& s.retry_attempts + retried <= u64::MAX
    &&& s.retry_exhausted + exhausted <= u64::MAX
}

/// Phase five: each service's health follows queue pressure and drops.
pub open spec fn settle_step(s: SimState) -> SimState {
    let pressure = at_pressure_level(s.queue.len() as int, s.config.max_queue_size as int);
    let dropping = s.last_dropped > 0;
    SimState {
        service_a: settle_service(s.service_a, s.config, pressure, dropping),
        service_b: settle_service(s.service_b, s.config, pressure, dropping),
        ..s
    }
}

pub open spec fn settle_step_fits(s: SimState) -> bool {
    let pressure = at_pressure_level(s.queue.len() as int, s.config.max_queue_size as int);
    let dropping = s.last_dropped > 0;
    settle_fits(s.service_a, pressure, dropping) && settle_fits(s.service_b, pressure, dropping)
}

/// The history entry that describes the tick just run.
pub open spec fn history_entry_of(s: SimState) -> HistoryEntry {
    HistoryEntry {
        tick: s.tick,
        generated: s.last_generated,
        accepted: s.last_accepted,
        processed: (s.service_a.last_processed + s.service_b.last_processed) as u32,
        dropped: s.last_dropped,
        retried: s.last_retried,
        retry_exhausted: s.last_retry_exhausted,
        failed_in_service: s.last_failed_in_service,
        queue_depth: s.queue.len() as usize,
        backpressure_active: s.backpressure_active,
        service_a_state: s.service_a.state,
        service_b_state: s.service_b.state,
    }
}

/// Phase six: append the tick to the history, forgetting the oldest entry
/// when the history is full; a limit of zero records nothing.
pub open spec fn record_step(s: SimState) -> SimState {
    if s.config.history_limit == 0 {
        s
    } else {
        let kept = if s.history.len() == s.config.history_limit {
            s.history.drop_first()
        } else {
            s.history
        };
        SimState { history: kept.push(history_entry_of(s)), ..s }
    }
}

pub open spec fn record_fits(s: SimState) -> bool {
    s.config.history_limit > 0 ==> s.service_a.last_processed + s.service_b.last_processed
        <= u32::MAX
}

/// One tick of the simulation.
pub open spec fn tick_step(s: SimState) -> SimState {
    record_step(settle_step(dispatch_step(generate_step(backpressure_step(begin_step(s))))))
}

/// Every counter stays within its type for the tick: this holds exactly
/// when the tick's arithmetic does not overflow.
pub open spec fn tick_fits(s: SimState) -> bool {
    let s1 = begin_step(s);
    let s2 = backpressure_step(s1);
    let s3 = generate_step(s2);
    let s4 = dispatch_step(s3);
    let s5 = settle_step(s4);
    &&& s.tick < u64::MAX
    &&& backpressure_fits(s1)
    &&& generate_fits(s2)
    &&& dispatch_fits(s3)
    &&& settle_step_fits(s4)
    &&& record_fits(s5)
}

pub open spec fn service_headroom(node: ServiceNode) -> bool {
    &&& node.processed + node.capacity_per_tick <= u64::MAX
    &&& node.failed_in_service + node.capacity_per_tick <= u64::MAX
    &&& node.retry_attempts + node.capacity_per_tick <= u64::MAX
    &&& node.retry_exhausted + node.capacity_per_tick <= u64::MAX
    &&& node.pressure_ticks < u32::MAX
    &&& node.recovery_ticks < u32::MAX
}

/// Every counter is far enough from its type's limit that no tick can
/// overflow it, whatever the tick does.
pub open spec fn tick_headroom(s: SimState) -> bool {
    let rate = s.config.requests_per_tick as int;
    let capacity = s.service_a.capacity_per_tick + s.service_b.capacity_per_tick;
    &&& s.tick < u64::MAX
    &&& s.backpressure_ticks < u32::MAX
    &&& s.generated + rate <= u64::MAX
    &&& s.accepted + rate <= u64::MAX
    &&& s.dropped + rate <= u64::MAX
    &&& s.retry_attempts + capacity <= u64::MAX
    &&& s.retry_exhausted + capacity <= u64::MAX
    &&& (capacity <= u32::MAX || s.queue.len() + rate <= u32::MAX)
    &&& service_headroom(s.service_a)
    &&& service_headroom(s.service_b)
}

proof fn lemma_admitted_bounded(queue_len: int, max_queue_size: int, offered: int)
    requires
        offered >= 0,
    ensures
        0 <= admitted(queue_len, max_queue_size, offered) <= offered,
{
}

/// Headroom for a tick rules out overflow in every phase of it.
pub proof fn lemma_headroom_fits(s: SimState)
    requires
        tick_headroom(s),
    ensures
        tick_fits(s),
{
    let s1 = begin_step(s);
    let s2 = backpressure_step(s1);
    let s3 = generate_step(s2);
    let s4 = dispatch_step(s3);
    let rate = generation_rate(s2.config, s2.backpressure_active);
    lemma_backpressure_halves_generation(s2.config, s2.backpressure_active);
    let n = admitted(s2.queue.len() as int, s2.config.max_queue_size as int, rate as int);
    lemma_admitted_bounded(s2.queue.len() as int, s2.config.max_queue_size as int, rate as int);
    assert(generate_fits(s2));
    let max_retries = s3.config.max_request_retries;
    lemma_requeued_len(batch_a(s3), max_retries);
    lemma_requeued_len(batch_b(s3), max_retries);
    assert(s3.queue.len() == s.queue.len() + n);
    assert(batch_a(s3).len() + batch_b(s3).len() <= s3.queue.len());
    assert(batch_a(s3).len() <= s3.service_a.capacity_per_tick);
    assert(batch_b(s3).len() <= s3.service_b.capacity_per_tick);
    assert(dispatch_fits(s3));
}

/// The simulation: a generator, a bounded shared queue, two services and
/// a rolling history of ticks.
#[derive(Debug)]
pub struct Simulation {
    pub tick: u64,
    pub generated: u64,
    pub accepted: u64,
    pub dropped: u64,
    pub retry_attempts: u64,
    pub retry_exhausted: u64,
    pub last_generated: u32,
    pub last_accepted: u32,
    pub last_dropped: u32,
    pub last_retried: u32,
    pub last_retry_exhausted: u32,
    pub last_failed_in_service: u32,
    pub backpressure_active: bool,
    pub backpressure_ticks: u32,
    pub config: SimulationConfig,
    pub service_a: ServiceNode,
    pub service_b: ServiceNode,
    pub queue: VecDeque<Request>,
    pub history: VecDeque<HistoryEntry>,
}

impl View for Simulation {
    type V = SimState;

    open spec fn view(&self) -> SimState {
        SimState {
            tick: self.tick,
            generated: self.generated,
            accepted: self.accepted,
            dropped: self.dropped,
            retry_attempts: self.retry_attempts,
            retry_exhausted: self.retry_exhausted,
            last_generated: self.last_generated,
            last_accepted: self.last_accepted,
            last_dropped: self.last_dropped,
            last_retried: self.last_retried,
            last_retry_exhausted: self.last_retry_exhausted,
            last_failed_in_service: self.last_failed_in_service,
            backpressure_active: self.backpressure_active,
            backpressure_ticks: self.backpressure_ticks,
            config: self.config,
            service_a: self.service_a,
            service_b: self.service_b,
            queue: self.queue@,
            history: self.history@,
        }
    }
}

impl Simulation {
    pub fn new(config: SimulationConfig) -> (simulation: Self)
        ensures
            simulation@ == initial_state(config),
    {
        Simulation {
            tick: 0,
            generated: 0,
            accepted: 0,
            dropped: 0,
            retry_attempts: 0,
            retry_exhausted: 0,
            last_generated: 0,
            last_accepted: 0,
            last_dropped: 0,
            last_retried: 0,
            last_retry_exhausted: 0,
            last_failed_in_service: 0,
            backpressure_active: false,
            backpressure_ticks: 0,
            config,
            service_a: ServiceNode::new(ServiceId::A, config.service_capacity_per_tick),
            service_b: ServiceNode::new(ServiceId::B, config.service_capacity_per_tick),
            queue: VecDeque::with_capacity(config.max_queue_size),
            history: VecDeque::with_capacity(config.history_limit),
        }
    }

    /// Runs one tick: backpressure, generation, dispatch, health, history.
    pub fn tick(&mut self)
        requires
            tick_fits(old(self)@),
        ensures
            final(self)@ == tick_step(old(self)@),
    {
        let ghost s0 = self@;
        self.tick = self.tick + 1;
        self.last_generated = 0;
        self.last_accepted = 0;
        self.last_dropped = 0;
        self.last_retried = 0;
        self.last_retry_exhausted = 0;
        self.last_failed_in_service = 0;
        self.service_a.reset_tick();
        self.service_b.reset_tick();
        assert(self@ =~= begin_step(s0));
        self.update_backpressure();
        self.generate_requests();
        self.dispatch_requests();
        self.update_service_states();
        self.record_history();
    }

    /// Whether every counter is far enough from its limit that the next
    /// tick cannot overflow it (see `lemma_headroom_fits`).
    pub fn has_tick_headroom(&self) -> (ok: bool)
        ensures
            ok == tick_headroom(self@),
    {
        let rate = self.config.requests_per_tick as u64;
        let capacity = self.service_a.capacity_per_tick as u64
            + self.service_b.capacity_per_tick as u64;
        self.tick < u64::MAX && self.backpressure_ticks < u32::MAX && self.generated <= u64::MAX
            - rate && self.accepted <= u64::MAX - rate && self.dropped <= u64::MAX - rate
            && self.retry_attempts <= u64::MAX - capacity && self.retry_exhausted <= u64::MAX
            - capacity && (capacity <= u32::MAX as u64 || (self.queue.len() as u64 <= u32::MAX
            as u64 && (self.queue.len() as u64) + rate <= u32::MAX as u64))
            && service_has_headroom(&self.service_a) && service_has_headroom(&self.service_b)
    }

    pub fn queue_depth(&self) -> (depth: usize)
        ensures
            depth == self@.queue.len(),
    {
        self.queue.len()
    }

    pub fn total_processed(&self) -> (total: u64)
        requires
            self.service_a.processed + self.service_b.processed <= u64::MAX,
        ensures
            total == self.service_a.processed + self.service_b.processed,
    {
        self.service_a.processed + self.service_b.processed
    }

    pub fn total_failed_in_service(&self) -> (total: u64)
        requires
            self.service_a.failed_in_service + self.service_b.failed_in_service <= u64::MAX,
        ensures
            total == self.service_a.failed_in_service + self.service_b.failed_in_service,
    {
        self.service_a.failed_in_service + self.service_b.failed_in_service
    }

    pub fn history(&self) -> (history: &VecDeque<HistoryEntry>)
        ensures
            history@ == self@.history,
    {
        &self.history
    }

    pub fn service(&self, id: ServiceId) -> (service: &ServiceNode)
        ensures
            *service == service_of(self@, id),
    {
        match id {
            ServiceId::A => &self.service_a,
            ServiceId::B => &self.service_b,
        }
    }

    pub fn service_mut(&mut self, id: ServiceId) -> (service: &mut ServiceNode)
        ensures
            *service == service_of(old(self)@, id),
            final(self)@ == with_service(old(self)@, id, *final(service)),
    {
        match id {
            ServiceId::A => &mut self.service_a,
            ServiceId::B => &mut self.service_b,
        }
    }

    /// Brings a failed service back; a service that has not failed is
    /// left alone.
    pub fn restart_service(&mut self, id: ServiceId)
        ensures
            final(self)@ == with_service(old(self)@, id, restarted(service_of(old(self)@, id))),
    {
        self.service_mut(id).restart();
    }

    fn update_backpressure(&mut self)
        requires
            backpressure_fits(old(self)@),
        ensures
            final(self)@ == backpressure_step(old(self)@),
    {
        if self.queue_len_at_pressure_level() {
            self.backpressure_ticks = self.backpressure_ticks + 1;
        } else {
            self.backpressure_ticks = 0;
        }
        self.backpressure_active = self.backpressure_ticks
            >= self.config.backpressure_threshold_ticks;
    }

    fn current_generation_rate(&self) -> (rate: u32)
        ensures
            rate == generation_rate(self.config, self.backpressure_active),
    {
        if !self.backpressure_active || self.config.requests_per_tick == 0 {
            return self.config.requests_per_tick;
        }
        let halved = self.config.requests_per_tick / BACKPRESSURE_RATE_DIVISOR;
        if halved > 1 {
            halved
        } else {
            1
        }
    }

    fn generate_requests(&mut self)
        requires
            generate_fits(old(self)@),
        ensures
            final(self)@ == generate_step(old(self)@),
    {
        let ghost s0 = self@;
        let rate = self.current_generation_rate();
        self.last_generated = rate;
        let accepted = enqueue_fresh(&mut self.queue, self.config.max_queue_size, rate);
        let dropped = rate - accepted;
        self.generated = self.generated + rate as u64;
        self.accepted = self.accepted + accepted as u64;
        self.dropped = self.dropped + dropped as u64;
        self.last_accepted = self.last_accepted + accepted;
        self.last_dropped = self.last_dropped + dropped;
        assert(self@ =~= generate_step(s0));
    }

    fn dispatch_requests(&mut self)
        requires
            dispatch_fits(old(self)@),
        ensures
            final(self)@ == dispatch_step(old(self)@),
    {
        let ghost s0 = self@;
        let mut retry_buffer: VecDeque<Request> = VecDeque::new();
        let max_retries = self.config.max_request_retries;
        let service_a_result = self.service_a.process_from_queue(
            &mut self.queue,
            &mut retry_buffer,
            max_retries,
        );
        assert(self.queue@ == queue_after_a(s0));
        let service_b_result = self.service_b.process_from_queue(
            &mut self.queue,
            &mut retry_buffer,
            max_retries,
        );
        self.last_retried = service_a_result.retried + service_b_result.retried;
        self.last_retry_exhausted = service_a_result.retry_exhausted
            + service_b_result.retry_exhausted;
        self.last_failed_in_service = service_a_result.failed_in_service
            + service_b_result.failed_in_service;
        self.retry_attempts = self.retry_attempts + self.last_retried as u64;
        self.retry_exhausted = self.retry_exhausted + self.last_retry_exhausted as u64;
        self.queue.append(&mut retry_buffer);
        assert(self.queue@ =~= queue_after_b(s0) + requeued_by(
            s0.service_a,
            batch_a(s0),
            max_retries,
        ) + requeued_by(s0.service_b, batch_b(s0), max_retries));
        assert(self@ =~= dispatch_step(s0));
    }

    fn update_service_states(&mut self)
        requires
            settle_step_fits(old(self)@),
        ensures
            final(self)@ == settle_step(old(self)@),
    {
        let ghost s0 = self@;
        let queue_pressure = self.queue_len_at_pressure_level();
        let dropping_requests = self.last_dropped > 0;
        let config = self.config;
        self.service_a.update_state(config, queue_pressure, dropping_requests);
        self.service_b.update_state(config, queue_pressure, dropping_requests);
        assert(self@ =~= settle_step(s0));
    }

    fn queue_len_at_pressure_level(&self) -> (at_pressure: bool)
        ensures
            at_pressure == at_pressure_level(
                self@.queue.len() as int,
                self.config.max_queue_size as int,
            ),
    {
        let depth = match self.queue.len().checked_mul(QUEUE_PRESSURE_DENOMINATOR) {
            Some(product) => product,
            None => usize::MAX,
        };
        let limit = match self.config.max_queue_size.checked_mul(QUEUE_PRESSURE_NUMERATOR) {
            Some(product) => product,
            None => usize::MAX,
        };
        depth >= limit
    }

    fn record_history(&mut self)
        requires
            record_fits(old(self)@),
        ensures
            final(self)@ == record_step(old(self)@),
    {
        let ghost s0 = self@;
        if self.config.history_limit == 0 {
            return ;
        }
        if self.history.len() == self.config.history_limit {
            let _oldest = self.history.pop_front();
        }
        let entry = HistoryEntry {
            tick: self.tick,
            generated: self.last_generated,
            accepted: self.last_accepted,
            processed: self.service_a.last_processed + self.service_b.last_processed,
            dropped: self.last_dropped,
            retried: self.last_retried,
            retry_exhausted: self.last_retry_exhausted,
            failed_in_service: self.last_failed_in_service,
            queue_depth: self.queue_depth(),
            backpressure_active: self.backpressure_active,
            service_a_state: self.service_a.state,
            service_b_state: self.service_b.state,
        };
        self.history.push_back(entry);
        assert(self@.history =~= record_step(s0).history);
        assert(self@ =~= record_step(s0));
    }
}

fn service_has_headroom(node: &ServiceNode) -> (ok: bool)
    ensures
        ok == service_headroom(*node),
{
    let capacity = node.capacity_per_tick as u64;
    node.processed <= u64::MAX - capacity && node.failed_in_service <= u64::MAX - capacity
        && node.retry_attempts <= u64::MAX - capacity && node.retry_exhausted <= u64::MAX
        - capacity && node.pressure_ticks < u32::MAX && node.recovery_ticks < u32::MAX
}

/// Offers `offered` fresh requests to `queue`; each is queued while the
/// queue holds fewer than `max_queue_size` requests. Returns how many were
/// queued.
fn enqueue_fresh(queue: &mut VecDeque<Request>, max_queue_size: usize, offered: u32) -> (accepted:
    u32)
    ensures
        accepted == admitted(old(queue)@.len() as int, max_queue_size as int, offered as int),
        final(queue)@ == old(queue)@ + fresh_requests(accepted as int),
{
    let ghost q0 = queue@;
    let mut accepted: u32 = 0;
    let mut i: u32 = 0;
    while i < offered
        invariant
            i <= offered,
            accepted == admitted(q0.len() as int, max_queue_size as int, i as int),
            queue@ == q0 + fresh_requests(accepted as int),
        decreases offered - i,
    {
        if queue.len() < max_queue_size {
            queue.push_back(Request::new());
            accepted = accepted + 1;
        }
        i = i + 1;
        assert(queue@ =~= q0 + fresh_requests(accepted as int));
    }
    accepted
}

/// Backpressure on this many of the recorded ticks is reported as sustained.
pub const SUSTAINED_BACKPRESSURE_TICKS: usize = 3;

/// A per-tick quantity that the summary adds up over the history.
pub enum Tally {
    Generated,
    Processed,
    Dropped,
    Retried,
    BackpressureTicks,
}

pub open spec fn tally_of(entry: HistoryEntry, tally: Tally) -> int {
    match tally {
        Tally::Generated => entry.generated as int,
        Tally::Processed => entry.processed as int,
        Tally::Dropped => entry.dropped as int,
        Tally::Retried => entry.retried as int,
        Tally::BackpressureTicks => if entry.backpressure_active {
            1
        } else {
            0
        },
    }
}

/// The sum of `tally` over the entries of `history`.
pub open spec fn history_total(history: Seq<HistoryEntry>, tally: Tally) -> int
    decreases history.len(),
{
    if history.len() == 0 {
        0
    } else {
        history_total(history.drop_last(), tally) + tally_of(history.last(), tally)
    }
}

/// Rising or falling when the last recorded depth differs from the first by
/// more than one; stable otherwise, and for an empty history.
pub open spec fn trend_of(history: Seq<HistoryEntry>) -> QueueTrend {
    if history.len() == 0 {
        QueueTrend::Stable
    } else {
        let first = history[0].queue_depth as int;
        let last = history.last().queue_depth as int;
        if last > first + 1 {
            QueueTrend::Rising
        } else if first > last + 1 {
            QueueTrend::Falling
        } else {
            QueueTrend::Stable
        }
    }
}

pub open spec fn summary_of(history: Seq<HistoryEntry>) -> RecentSummary {
    RecentSummary {
        window: history.len() as usize,
        total_generated: history_total(history, Tally::Generated) as u128,
        total_processed: history_total(history, Tally::Processed) as u128,
        total_dropped: history_total(history, Tally::Dropped) as u128,
        total_retried: history_total(history, Tally::Retried) as u128,
        backpressure_ticks: history_total(history, Tally::BackpressureTicks) as usize,
        queue_trend: trend_of(history),
    }
}

/// The signals a history raises, in this order: the queue is rising;
/// backpressure held on at least `SUSTAINED_BACKPRESSURE_TICKS` ticks; on
/// average at least one retry per tick; both services unhealthy on the
/// latest tick.
pub open spec fn signals_of(history: Seq<HistoryEntry>) -> Seq<StatusSignal> {
    let rising = if trend_of(history) == QueueTrend::Rising {
        seq![StatusSignal::QueueRising]
    } else {
        Seq::empty()
    };
    let sustained = if history_total(history, Tally::BackpressureTicks)
        >= SUSTAINED_BACKPRESSURE_TICKS {
        rising.push(StatusSignal::SustainedBackpressure)
    } else {
        rising
    };
    let retrying = if history.len() > 0 && history_total(history, Tally::Retried)
        >= history.len() {
        sustained.push(StatusSignal::RetryActivity)
    } else {
        sustained
    };
    if history.len() > 0 && history.last().service_a_state != ServiceState::Healthy
        && history.last().service_b_state != ServiceState::Healthy {
        retrying.push(StatusSignal::BothServicesUnhealthy)
    } else {
        retrying
    }
}

proof fn lemma_history_total_step(history: Seq<HistoryEntry>, tally: Tally, i: int)
    requires
        0 <= i < history.len(),
    ensures
        history_total(history.take(i + 1), tally) == history_total(history.take(i), tally)
            + tally_of(history[i], tally),
{
    assert(history.take(i + 1).drop_last() =~= history.take(i));
}

proof fn lemma_history_total_bounds(history: Seq<HistoryEntry>, tally: Tally)
    ensures
        0 <= history_total(history, tally) <= history.len() * (u32::MAX as int),
    decreases history.len(),
{
    if history.len() > 0 {
        lemma_history_total_bounds(history.drop_last(), tally);
    }
}

/// Sums the history's per-tick counts, counts its backpressure ticks and
/// classifies its queue trend.
pub fn summarize_history(history: &VecDeque<HistoryEntry>) -> (summary: RecentSummary)
    ensures
        summary == summary_of(history@),
{
    let window = history.len();
    let mut generated: u128 = 0;
    let mut processed: u128 = 0;
    let mut dropped: u128 = 0;
    let mut retried: u128 = 0;
    let mut backpressure_ticks: usize = 0;
    let mut i: usize = 0;
    while i < window
        invariant
            window == history@.len(),
            i <= window,
            generated == history_total(history@.take(i as int), Tally::Generated),
            processed == history_total(history@.take(i as int), Tally::Processed),
            dropped == history_total(history@.take(i as int), Tally::Dropped),
            retried == history_total(history@.take(i as int), Tally::Retried),
            backpressure_ticks == history_total(history@.take(i as int), Tally::BackpressureTicks),
        decreases window - i,
    {
        let entry = history[i];
        proof {
            let h = history@;
            lemma_history_total_step(h, Tally::Generated, i as int);
            lemma_history_total_step(h, Tally::Processed, i as int);
            lemma_history_total_step(h, Tally::Dropped, i as int);
            lemma_history_total_step(h, Tally::Retried, i as int);
            lemma_history_total_step(h, Tally::BackpressureTicks, i as int);
            lemma_history_total_bounds(h.take(i + 1), Tally::Generated);
            lemma_history_total_bounds(h.take(i + 1), Tally::Processed);
            lemma_history_total_bounds(h.take(i + 1), Tally::Dropped);
            lemma_history_total_bounds(h.take(i + 1), Tally::Retried);
            lemma_history_total_bounds(h.take(i as int), Tally::BackpressureTicks);
            assert(history_total(h.take(i as int), Tally::BackpressureTicks) <= i) by {
                lemma_backpressure_total_bounded(h.take(i as int));
            }
        }
        generated = generated + entry.generated as u128;
        processed = processed + entry.processed as u128;
        dropped = dropped + entry.dropped as u128;
        retried = retried + entry.retried as u128;
        if entry.backpressure_active {
            backpressure_ticks = backpressure_ticks + 1;
        }
        i = i + 1;
    }
    assert(history@.take(window as int) =~= history@);
    RecentSummary {
        window,
        total_generated: generated,
        total_processed: processed,
        total_dropped: dropped,
        total_retried: retried,
        backpressure_ticks,
        queue_trend: classify_queue_trend(history),
    }
}

proof fn lemma_backpressure_total_bounded(history: Seq<HistoryEntry>)
    ensures
        0 <= history_total(history, Tally::BackpressureTicks) <= history.len(),
    decreases history.len(),
{
    if history.len() > 0 {
        lemma_backpressure_total_bounded(history.drop_last());
    }
}

pub fn classify_queue_trend(history: &VecDeque<HistoryEntry>) -> (trend: QueueTrend)
    ensures
        trend == trend_of(history@),
{
    let len = history.len();
    if len == 0 {
        return QueueTrend::Stable;
    }
    let first = history[0].queue_depth;
    let last = history[len - 1].queue_depth;
    if last > first.saturating_add(1) {
        QueueTrend::Rising
    } else if first > last.saturating_add(1) {
        QueueTrend::Falling
    } else {
        QueueTrend::Stable
    }
}

pub fn derive_status_signals(history: &VecDeque<HistoryEntry>) -> (signals: Vec<StatusSignal>)
    ensures
        signals@ == signals_of(history@),
{
    let summary = summarize_history(history);
    let mut signals: Vec<StatusSignal> = Vec::new();
    if summary.queue_trend == QueueTrend::Rising {
        signals.push(StatusSignal::QueueRising);
    }
    if summary.backpressure_ticks >= SUSTAINED_BACKPRESSURE_TICKS {
        signals.push(StatusSignal::SustainedBackpressure);
    }
    if summary.window > 0 && summary.total_retried >= summary.window as u128 {
        signals.push(StatusSignal::RetryActivity);
    }
    let len = history.len();
    if len > 0 {
        let latest = history[len - 1];
        let service_a_unhealthy = latest.service_a_state != ServiceState::Healthy;
        let service_b_unhealthy = latest.service_b_state != ServiceState::Healthy;
        if service_a_unhealthy && service_b_unhealthy {
            signals.push(StatusSignal::BothServicesUnhealthy);
        }
    }
    proof {
        lemma_history_total_bounds(history@, Tally::Retried);
        lemma_backpressure_total_bounded(history@);
    }
    assert(signals@ =~= signals_of(history@));
    signals
}

impl Simulation {
    pub fn recent_summary(&self) -> (summary: RecentSummary)
        ensures
            summary == summary_of(self@.history),
    {
        summarize_history(&self.history)
    }

    pub fn status_signals(&self) -> (signals: Vec<StatusSignal>)
        ensures
            signals@ == signals_of(self@.history),
    {
        derive_status_signals(&self.history)
    }
}

/// Every request offered in a tick is either accepted or dropped, so a tick
/// leaves `generated - accepted - dropped` unchanged.
pub proof fn lemma_tick_accounts_for_offered_requests(s: SimState)
    requires
        tick_fits(s),
    ensures
        tick_step(s).generated == s.generated + tick_step(s).last_generated,
        tick_step(s).last_generated == tick_step(s).last_accepted + tick_step(s).last_dropped,
        tick_step(s).generated - tick_step(s).accepted - tick_step(s).dropped == s.generated
            - s.accepted - s.dropped,
        tick_step(s).accepted == s.accepted + tick_step(s).last_accepted,
        tick_step(s).dropped == s.dropped + tick_step(s).last_dropped,
{
    let s1 = begin_step(s);
    let s2 = backpressure_step(s1);
    let rate = generation_rate(s2.config, s2.backpressure_active);
    lemma_admitted_bounded(s2.queue.len() as int, s2.config.max_queue_size as int, rate as int);
}

/// A tick neither loses nor invents requests: what was queued, plus what
/// was accepted, equals what is queued now plus what the services
/// processed or gave up on during the tick.
pub proof fn lemma_tick_conserves_requests(s: SimState)
    requires
        tick_fits(s),
    ensures
        ({
            let t = tick_step(s);
            t.queue.len() + t.service_a.processed + t.service_b.processed
                + t.service_a.retry_exhausted + t.service_b.retry_exhausted == s.queue.len()
                + s.service_a.processed + s.service_b.processed + s.service_a.retry_exhausted
                + s.service_b.retry_exhausted + t.last_accepted
        }),
{
    let s1 = begin_step(s);
    let s2 = backpressure_step(s1);
    let s3 = generate_step(s2);
    let rate = generation_rate(s2.config, s2.backpressure_active);
    lemma_admitted_bounded(s2.queue.len() as int, s2.config.max_queue_size as int, rate as int);
    let max_retries = s3.config.max_request_retries;
    lemma_requeued_len(batch_a(s3), max_retries);
    lemma_requeued_len(batch_b(s3), max_retries);
    let s4 = dispatch_step(s3);
    assert(s4.queue.len() == s3.queue.len() - batch_a(s3).len() - batch_b(s3).len()
        + requeued_by(s3.service_a, batch_a(s3), max_retries).len() + requeued_by(
        s3.service_b,
        batch_b(s3),
        max_retries,
    ).len());
}

/// A queue within its limit stays within it: generation stops at the limit
/// and a failed service sends back no more requests than it took.
pub proof fn lemma_tick_keeps_queue_within_limit(s: SimState)
    requires
        tick_fits(s),
        s.queue.len() <= s.config.max_queue_size,
    ensures
        tick_step(s).queue.len() <= s.config.max_queue_size,
{
    let s1 = begin_step(s);
    let s2 = backpressure_step(s1);
    let s3 = generate_step(s2);
    let rate = generation_rate(s2.config, s2.backpressure_active);
    lemma_admitted_bounded(s2.queue.len() as int, s2.config.max_queue_size as int, rate as int);
    let max_retries = s3.config.max_request_retries;
    lemma_requeued_len(batch_a(s3), max_retries);
    lemma_requeued_len(batch_b(s3), max_retries);
}

/// The history never holds more than `history_limit` entries, and after a
/// tick with a non-zero limit its newest entry describes that tick.
pub proof fn lemma_tick_keeps_history_within_limit(s: SimState)
    requires
        s.history.len() <= s.config.history_limit,
    ensures
        tick_step(s).history.len() <= s.config.history_limit,
        s.config.history_limit > 0 ==> tick_step(s).history.len() > 0
            && tick_step(s).history.last().tick == tick_step(s).tick,
{
}

/// No queued request has been retried more than `max_request_retries`
/// times, before or after a tick.
pub proof fn lemma_tick_keeps_retries_bounded(s: SimState)
    requires
        forall|i: int|
            0 <= i < s.queue.len() ==> #[trigger] s.queue[i].retries
                <= s.config.max_request_retries,
    ensures
        forall|i: int|
            0 <= i < tick_step(s).queue.len() ==> #[trigger] tick_step(s).queue[i].retries
                <= s.config.max_request_retries,
{
    let s1 = begin_step(s);
    let s2 = backpressure_step(s1);
    let s3 = generate_step(s2);
    let max_retries = s3.config.max_request_retries;
    let rate = generation_rate(s2.config, s2.backpressure_active);
    let n = admitted(s2.queue.len() as int, s2.config.max_queue_size as int, rate as int);
    assert forall|i: int| 0 <= i < s3.queue.len() implies #[trigger] s3.queue[i].retries
        <= max_retries by {
        if i >= s2.queue.len() {
            assert(s3.queue[i] == fresh_requests(n)[i - s2.queue.len()]);
        }
    }
    lemma_requeued_within_limit(batch_a(s3), max_retries);
    lemma_requeued_within_limit(batch_b(s3), max_retries);
    let s4 = dispatch_step(s3);
    let rest = queue_after_b(s3);
    let back_a = requeued_by(s3.service_a, batch_a(s3), max_retries);
    let back_b = requeued_by(s3.service_b, batch_b(s3), max_retries);
    assert forall|i: int| 0 <= i < s4.queue.len() implies #[trigger] s4.queue[i].retries
        <= max_retries by {
        if i < rest.len() {
            let ka = served(s3.service_a.capacity_per_tick, s3.queue.len() as int);
            let kb = served(s3.service_b.capacity_per_tick, queue_after_a(s3).len() as int);
            assert(rest[i] == s3.queue[i + ka + kb]);
        } else if i < rest.len() + back_a.len() {
            assert(s4.queue[i] == back_a[i - rest.len()]);
        } else {
            assert(s4.queue[i] == back_b[i - rest.len() - back_a.len()]);
        }
    }
}

/// What a failed service sends back has been retried at most
/// `max_retries` times.
pub proof fn lemma_requeued_within_limit(batch: Seq<Request>, max_retries: u8)
    ensures
        forall|i: int|
            0 <= i < requeued(batch, max_retries).len() ==> #[trigger] requeued(
                batch,
                max_retries,
            )[i].retries <= max_retries,
    decreases batch.len(),
{
    if batch.len() > 0 {
        let earlier = requeued(batch.drop_last(), max_retries);
        lemma_requeued_within_limit(batch.drop_last(), max_retries);
        assert forall|i: int|
            0 <= i < requeued(batch, max_retries).len() implies #[trigger] requeued(
            batch,
            max_retries,
        )[i].retries <= max_retries by {
            if i < earlier.len() {
                assert(requeued(batch, max_retries)[i] == earlier[i]);
            }
        }
    }
}

/// A failed service stays failed through any number of ticks; only a
/// restart brings it back.
pub proof fn lemma_failed_service_stays_failed(s: SimState, id: ServiceId)
    requires
        service_of(s, id).state == ServiceState::Failed,
    ensures
        service_of(tick_step(s), id).state == ServiceState::Failed,
{
}

/// The simulation's retry totals are the sums of the services' totals, and
/// a tick keeps them so.
pub proof fn lemma_tick_keeps_retry_totals_consistent(s: SimState)
    requires
        tick_fits(s),
        s.retry_attempts == s.service_a.retry_attempts + s.service_b.retry_attempts,
        s.retry_exhausted == s.service_a.retry_exhausted + s.service_b.retry_exhausted,
    ensures
        tick_step(s).retry_attempts == tick_step(s).service_a.retry_attempts + tick_step(
            s,
        ).service_b.retry_attempts,
        tick_step(s).retry_exhausted == tick_step(s).service_a.retry_exhausted + tick_step(
            s,
        ).service_b.retry_exhausted,
{
    let s1 = begin_step(s);
    let s2 = backpressure_step(s1);
    let s3 = generate_step(s2);
    let max_retries = s3.config.max_request_retries;
    lemma_requeued_len(batch_a(s3), max_retries);
    lemma_requeued_len(batch_b(s3), max_retries);
}

/// A tick advances the clock by one and never decreases a running total.
pub proof fn lemma_tick_totals_never_decrease(s: SimState)
    requires
        tick_fits(s),
    ensures
        tick_step(s).tick == s.tick + 1,
        tick_step(s).generated >= s.generated,
        tick_step(s).accepted >= s.accepted,
        tick_step(s).dropped >= s.dropped,
        tick_step(s).retry_attempts >= s.retry_attempts,
        tick_step(s).retry_exhausted >= s.retry_exhausted,
        tick_step(s).service_a.processed >= s.service_a.processed,
        tick_step(s).service_b.processed >= s.service_b.processed,
        tick_step(s).service_a.failed_in_service >= s.service_a.failed_in_service,
        tick_step(s).service_b.failed_in_service >= s.service_b.failed_in_service,
{
    let s1 = begin_step(s);
    let s2 = backpressure_step(s1);
    let s3 = generate_step(s2);
    let rate = generation_rate(s2.config, s2.backpressure_active);
    lemma_admitted_bounded(s2.queue.len() as int, s2.config.max_queue_size as int, rate as int);
    let max_retries = s3.config.max_request_retries;
    lemma_requeued_len(batch_a(s3), max_retries);
    lemma_requeued_len(batch_b(s3), max_retries);
}

/// Ticking is deterministic: equal states stay equal after a tick.
pub proof fn lemma_tick_is_deterministic(s: SimState, t: SimState)
    requires
        s == t,
    ensures
        tick_step(s) == tick_step(t),
{
}

/// While backpressure is active the generator offers half its configured
/// rate, but at least one request; otherwise the configured rate.
pub proof fn lemma_backpressure_halves_generation(config: SimulationConfig, active: bool)
    ensures
        generation_rate(config, active) <= config.requests_per_tick,
        !active ==> generation_rate(config, active) == config.requests_per_tick,
        active && config.requests_per_tick > 0 ==> generation_rate(config, active) >= 1
            && generation_rate(config, active) * 2 <= config.requests_per_tick + 1,
{
}

/// Restarting touches only a failed service's health and pressure:
/// a failed service comes back healthy with its pressure forgotten and its
/// totals kept, any other service is left alone, and restarting twice is
/// the same as restarting once.
pub proof fn lemma_restart_resets_only_health(node: ServiceNode)
    ensures
        node.state != ServiceState::Failed ==> restarted(node) == node,
        node.state == ServiceState::Failed ==> restarted(node) == (ServiceNode {
            state: ServiceState::Healthy,
            pressure_ticks: 0,
            recovery_ticks: 0,
            ..node
        }),
        restarted(restarted(node)) == restarted(node),
{
}


/// The service after `n` ticks with the same pressure and drop conditions.
pub open spec fn settle_repeatedly(
    node: ServiceNode,
    config: SimulationConfig,
    queue_pressure: bool,
    dropping_requests: bool,
    n: nat,
) -> ServiceNode
    decreases n,
{
    if n == 0 {
        node
    } else {
        settle_service(
            settle_repeatedly(node, config, queue_pressure, dropping_requests, (n - 1) as nat),
            config,
            queue_pressure,
            dropping_requests,
        )
    }
}

/// Sustained pressure escalates: a working service with no pressure behind
/// it, kept under pressure for `n` ticks, has counted `n` pressure ticks; it
/// is healthy below the overload threshold, overloaded from there, and
/// failed from the failure threshold on.
pub proof fn lemma_sustained_pressure_escalates(
    node: ServiceNode,
    config: SimulationConfig,
    dropping_requests: bool,
    n: nat,
)
    requires
        node.state != ServiceState::Failed,
        node.pressure_ticks == 0,
        1 <= n <= config.failure_threshold_ticks,
    ensures
        ({
            let after = settle_repeatedly(node, config, true, dropping_requests, n);
            &&& after.pressure_ticks == n
            &&& after.recovery_ticks == 0
            &&& after.state == if n >= config.failure_threshold_ticks {
                ServiceState::Failed
            } else if n >= config.overload_threshold_ticks {
                ServiceState::Overloaded
            } else {
                ServiceState::Healthy
            }
        }),
    decreases n,
{
    reveal_with_fuel(settle_repeatedly, 2);
    if n > 1 {
        lemma_sustained_pressure_escalates(node, config, dropping_requests, (n - 1) as nat);
    }
}

/// Quiet ticks heal an overloaded service: with no pressure and no drops it
/// stays overloaded, counting recovery ticks, until `overload_recovery_ticks`
/// quiet ticks have passed, and is then healthy with its pressure forgotten.
pub proof fn lemma_quiet_ticks_recover_overloaded_service(
    node: ServiceNode,
    config: SimulationConfig,
    n: nat,
)
    requires
        node.state == ServiceState::Overloaded,
        node.recovery_ticks == 0,
        1 <= n <= config.overload_recovery_ticks,
    ensures
        ({
            let after = settle_repeatedly(node, config, false, false, n);
            &&& n < config.overload_recovery_ticks ==> after.state == ServiceState::Overloaded
                && after.recovery_ticks == n && after.pressure_ticks == node.pressure_ticks
            &&& n == config.overload_recovery_ticks ==> after.state == ServiceState::Healthy
                && after.recovery_ticks == 0 && after.pressure_ticks == 0
        }),
    decreases n,
{
    reveal_with_fuel(settle_repeatedly, 2);
    if n > 1 {
        lemma_quiet_ticks_recover_overloaded_service(node, config, (n - 1) as nat);
    }
}


/// How a service's health moves in one tick. A failed service is left
/// exactly as it is. Under queue pressure or drops a working service counts
/// one more pressure tick, forgets its recovery, and is failed from the
/// failure threshold, overloaded from the overload threshold, healthy below
/// both. In a quiet tick a healthy service forgets all pressure, and an
/// overloaded one counts a recovery tick, becoming healthy with nothing
/// counted once it has `overload_recovery_ticks` of them. Its identity,
/// capacity and traffic counts never change.
pub proof fn lemma_service_health_transitions(
    node: ServiceNode,
    config: SimulationConfig,
    queue_pressure: bool,
    dropping_requests: bool,
)
    requires
        settle_fits(node, queue_pressure, dropping_requests),
    ensures
        ({
            let after = settle_service(node, config, queue_pressure, dropping_requests);
            &&& after.id == node.id
            &&& after.capacity_per_tick == node.capacity_per_tick
            &&& after.processed == node.processed
            &&& after.failed_in_service == node.failed_in_service
            &&& after.retry_attempts == node.retry_attempts
            &&& after.retry_exhausted == node.retry_exhausted
            &&& after.last_processed == node.last_processed
            &&& after.last_failed_in_service == node.last_failed_in_service
            &&& node.state == ServiceState::Failed ==> after == node
            &&& (node.state != ServiceState::Failed && (queue_pressure || dropping_requests)) ==> {
                &&& after.pressure_ticks == node.pressure_ticks + 1
                &&& after.recovery_ticks == 0
                &&& (node.pressure_ticks + 1 >= config.failure_threshold_ticks ==> after.state
                    == ServiceState::Failed)
                &&& (node.pressure_ticks + 1 < config.failure_threshold_ticks
                    && node.pressure_ticks + 1 >= config.overload_threshold_ticks ==> after.state
                    == ServiceState::Overloaded)
                &&& (node.pressure_ticks + 1 < config.failure_threshold_ticks
                    && node.pressure_ticks + 1 < config.overload_threshold_ticks ==> after.state
                    == ServiceState::Healthy)
            }
            &&& (node.state == ServiceState::Healthy && !queue_pressure && !dropping_requests)
                ==> {
                &&& after.state == ServiceState::Healthy
                &&& after.pressure_ticks == 0
                &&& after.recovery_ticks == 0
            }
            &&& (node.state == ServiceState::Overloaded && !queue_pressure && !dropping_requests)
                ==> {
                &&& (node.recovery_ticks + 1 >= config.overload_recovery_ticks ==> {
                    &&& after.state == ServiceState::Healthy
                    &&& after.pressure_ticks == 0
                    &&& after.recovery_ticks == 0
                })
                &&& (node.recovery_ticks + 1 < config.overload_recovery_ticks ==> {
                    &&& after.state == ServiceState::Overloaded
                    &&& after.pressure_ticks == node.pressure_ticks
                    &&& after.recovery_ticks == node.recovery_ticks + 1
                })
            }
        }),
{
}

/// A healthy service that goes through a tick ending with the queue below
/// three quarters full and with nothing dropped comes out healthy with no
/// pressure and no recovery counted.
pub proof fn lemma_quiet_tick_clears_healthy_service(s: SimState, id: ServiceId)
    requires
        tick_fits(s),
        service_of(s, id).state == ServiceState::Healthy,
        tick_step(s).last_dropped == 0,
        tick_step(s).queue.len() * 4 < s.config.max_queue_size * 3,
        tick_step(s).queue.len() * 4 < usize::MAX,
    ensures
        service_of(tick_step(s), id).state == ServiceState::Healthy,
        service_of(tick_step(s), id).pressure_ticks == 0,
        service_of(tick_step(s), id).recovery_ticks == 0,
{
}

/// Backpressure follows the queue at the start of each tick. With the
/// queue below three quarters full the count of pressured ticks drops to
/// zero, backpressure is on only for a zero threshold, and the generator
/// offers its full rate. With the queue at or above that level the count
/// grows by one. Backpressure is on exactly when the count has reached the
/// threshold, and while it is on (with a non-zero rate) the generator
/// offers half its rate, but at least one request.
pub proof fn lemma_backpressure_follows_queue_pressure(s: SimState)
    requires
        tick_fits(s),
    ensures
        ({
            let t = tick_step(s);
            let len = s.queue.len();
            let max = s.config.max_queue_size;
            let rate = s.config.requests_per_tick;
            &&& t.backpressure_active == (t.backpressure_ticks
                >= s.config.backpressure_threshold_ticks)
            &&& (len * 4 < max * 3 && len * 4 < usize::MAX) ==> {
                &&& t.backpressure_ticks == 0
                &&& t.backpressure_active == (s.config.backpressure_threshold_ticks == 0)
            }
            &&& len * 4 >= max * 3 ==> t.backpressure_ticks == s.backpressure_ticks + 1
            &&& !t.backpressure_active ==> t.last_generated == rate
            &&& (t.backpressure_active && rate > 0) ==> {
                &&& t.last_generated >= 1
                &&& (rate >= 2 ==> t.last_generated == rate / 2)
            }
            &&& (t.backpressure_active && rate == 0) ==> t.last_generated == 0
        }),
{
}

/// Each history entry holds its own tick's counts: after a tick with a
/// non-zero history limit, the newest entry carries that tick's number, the
/// requests generated, accepted, dropped, processed, retried, exhausted and
/// failed during it, the queue depth after it, the backpressure flag and
/// both services' health; the entries before it are the old history, less
/// its oldest entry when it was full. With a zero limit the history does
/// not change.
pub proof fn lemma_history_records_the_tick(s: SimState)
    requires
        tick_fits(s),
    ensures
        ({
            let t = tick_step(s);
            let e = t.history.last();
            &&& s.config.history_limit == 0 ==> t.history == s.history
            &&& s.config.history_limit > 0 ==> {
                &&& t.history.len() > 0
                &&& e.tick == t.tick
                &&& e.generated == t.last_generated
                &&& e.accepted == t.last_accepted
                &&& e.dropped == t.last_dropped
                &&& e.processed == t.service_a.last_processed + t.service_b.last_processed
                &&& e.retried == t.last_retried
                &&& e.retry_exhausted == t.last_retry_exhausted
                &&& e.failed_in_service == t.last_failed_in_service
                &&& t.queue.len() <= usize::MAX ==> e.queue_depth == t.queue.len()
                &&& e.backpressure_active == t.backpressure_active
                &&& e.service_a_state == t.service_a.state
                &&& e.service_b_state == t.service_b.state
                &&& t.history.drop_last() == if s.history.len() == s.config.history_limit {
                    s.history.drop_first()
                } else {
                    s.history
                }
            }
        }),
{
    let t = tick_step(s);
    if s.config.history_limit > 0 {
        let kept = if s.history.len() == s.config.history_limit {
            s.history.drop_first()
        } else {
            s.history
        };
        assert(t.history.drop_last() =~= kept);
    }
}

/// Until the history fills up, its entries add up to the simulation's
/// running totals: if the dropped and generated counts of the entries
/// equal the totals before a tick, they still do after it.
pub proof fn lemma_history_sums_track_totals(s: SimState)
    requires
        tick_fits(s),
        s.history.len() < s.config.history_limit,
        history_total(s.history, Tally::Dropped) == s.dropped,
        history_total(s.history, Tally::Generated) == s.generated,
    ensures
        history_total(tick_step(s).history, Tally::Dropped) == tick_step(s).dropped,
        history_total(tick_step(s).history, Tally::Generated) == tick_step(s).generated,
{
    lemma_tick_accounts_for_offered_requests(s);
    lemma_history_records_the_tick(s);
    let t = tick_step(s);
    assert(t.history.drop_last() == s.history);
}

/// The history totals add an entry's own counts: a one-entry-longer
/// history has each total grown by that entry's generated, processed,
/// dropped or retried count, and the backpressure count by one exactly when
/// the entry had backpressure on; the empty history sums to zero.
pub proof fn lemma_history_totals_add_up(history: Seq<HistoryEntry>, entry: HistoryEntry)
    ensures
        history_total(Seq::empty(), Tally::Generated) == 0,
        history_total(Seq::empty(), Tally::Retried) == 0,
        history_total(history.push(entry), Tally::Generated) == history_total(
            history,
            Tally::Generated,
        ) + entry.generated,
        history_total(history.push(entry), Tally::Processed) == history_total(
            history,
            Tally::Processed,
        ) + entry.processed,
        history_total(history.push(entry), Tally::Dropped) == history_total(
            history,
            Tally::Dropped,
        ) + entry.dropped,
        history_total(history.push(entry), Tally::Retried) == history_total(
            history,
            Tally::Retried,
        ) + entry.retried,
        history_total(history.push(entry), Tally::BackpressureTicks) == history_total(
            history,
            Tally::BackpressureTicks,
        ) + if entry.backpressure_active {
            1int
        } else {
            0int
        },
{
    assert(history.push(entry).drop_last() =~= history);
}

/// The order in which signals are listed.
pub open spec fn signal_rank(signal: StatusSignal) -> int {
    match signal {
        StatusSignal::QueueRising => 0,
        StatusSignal::SustainedBackpressure => 1,
        StatusSignal::RetryActivity => 2,
        StatusSignal::BothServicesUnhealthy => 3,
    }
}

/// What each signal means. The queue is rising when the newest recorded
/// depth exceeds the oldest by more than one; backpressure is sustained when
/// it was on for at least three recorded ticks; there is retry activity
/// when the history holds at least one retry per entry; both services are
/// unhealthy when neither is healthy on the newest entry. Each signal
/// appears at most once, in that order.
pub proof fn lemma_status_signals_meaning(history: Seq<HistoryEntry>)
    ensures
        ({
            let signals = signals_of(history);
            &&& signals.contains(StatusSignal::QueueRising) <==> (history.len() > 0
                && history.last().queue_depth > history[0].queue_depth + 1)
            &&& signals.contains(StatusSignal::SustainedBackpressure) <==> history_total(
                history,
                Tally::BackpressureTicks,
            ) >= 3
            &&& signals.contains(StatusSignal::RetryActivity) <==> (history.len() > 0
                && history_total(history, Tally::Retried) >= history.len())
            &&& signals.contains(StatusSignal::BothServicesUnhealthy) <==> (history.len() > 0
                && history.last().service_a_state != ServiceState::Healthy
                && history.last().service_b_state != ServiceState::Healthy)
            &&& forall|i: int, j: int|
                0 <= i < j < signals.len() ==> signal_rank(signals[i]) < signal_rank(signals[j])
        }),
{
    let rising = if trend_of(history) == QueueTrend::Rising {
        seq![StatusSignal::QueueRising]
    } else {
        Seq::empty()
    };
    let sustained = if history_total(history, Tally::BackpressureTicks)
        >= SUSTAINED_BACKPRESSURE_TICKS {
        rising.push(StatusSignal::SustainedBackpressure)
    } else {
        rising
    };
    let retrying = if history.len() > 0 && history_total(history, Tally::Retried)
        >= history.len() {
        sustained.push(StatusSignal::RetryActivity)
    } else {
        sustained
    };
    let signals = signals_of(history);
    assert(forall|i: int| 0 <= i < rising.len() ==> signal_rank(#[trigger] rising[i]) == 0);
    assert(forall|i: int| 0 <= i < sustained.len() ==> signal_rank(#[trigger] sustained[i]) <= 1);
    assert(forall|i: int| 0 <= i < retrying.len() ==> signal_rank(#[trigger] retrying[i]) <= 2);
    assert(forall|i: int|
        0 <= i < sustained.len() ==> (signal_rank(#[trigger] sustained[i]) == 1 <==> i
            == rising.len()));
    assert(forall|i: int|
        0 <= i < retrying.len() ==> (signal_rank(#[trigger] retrying[i]) == 2 <==> i
            == sustained.len()));
    assert(forall|i: int|
        0 <= i < signals.len() ==> (signal_rank(#[trigger] signals[i]) == 3 <==> i
            == retrying.len()));
    assert forall|i: int, j: int| 0 <= i < j < signals.len() implies signal_rank(signals[i])
        < signal_rank(signals[j]) by {
        assert(signals[i] == retrying[i] || i == retrying.len());
    }
    assert(signals.contains(StatusSignal::QueueRising) <==> rising.len() == 1) by {
        if rising.len() == 1 {
            assert(signals[0] == StatusSignal::QueueRising);
        }
        if signals.contains(StatusSignal::QueueRising) {
            let k = choose|k: int| 0 <= k < signals.len() && signals[k] == StatusSignal::QueueRising;
            assert(signal_rank(signals[k]) == 0);
        }
    }
    assert(signals.contains(StatusSignal::SustainedBackpressure) <==> sustained.len()
        > rising.len()) by {
        if sustained.len() > rising.len() {
            assert(signals[rising.len() as int] == StatusSignal::SustainedBackpressure);
        }
        if signals.contains(StatusSignal::SustainedBackpressure) {
            let k = choose|k: int|
                0 <= k < signals.len() && signals[k] == StatusSignal::SustainedBackpressure;
            assert(signal_rank(signals[k]) == 1);
        }
    }
    assert(signals.contains(StatusSignal::RetryActivity) <==> retrying.len() > sustained.len())
        by {
        if retrying.len() > sustained.len() {
            assert(signals[sustained.len() as int] == StatusSignal::RetryActivity);
        }
        if signals.contains(StatusSignal::RetryActivity) {
            let k = choose|k: int|
                0 <= k < signals.len() && signals[k] == StatusSignal::RetryActivity;
            assert(signal_rank(signals[k]) == 2);
        }
    }
    assert(signals.contains(StatusSignal::BothServicesUnhealthy) <==> signals.len()
        > retrying.len()) by {
        if signals.len() > retrying.len() {
            assert(signals[retrying.len() as int] == StatusSignal::BothServicesUnhealthy);
        }
        if signals.contains(StatusSignal::BothServicesUnhealthy) {
            let k = choose|k: int|
                0 <= k < signals.len() && signals[k] == StatusSignal::BothServicesUnhealthy;
            assert(signal_rank(signals[k]) == 3);
        }
    }
}

/// The queue trend compares the newest recorded depth with the oldest:
/// rising when it is more than one higher, falling when more than one
/// lower, stable otherwise and for an empty history.
pub proof fn lemma_queue_trend_meaning(history: Seq<HistoryEntry>)
    ensures
        trend_of(history) == QueueTrend::Rising <==> (history.len() > 0
            && history.last().queue_depth > history[0].queue_depth + 1),
        trend_of(history) == QueueTrend::Falling <==> (history.len() > 0
            && history[0].queue_depth > history.last().queue_depth + 1),
        summary_of(history).queue_trend == trend_of(history),
        history.len() <= usize::MAX ==> summary_of(history).window == history.len(),
{
}


/// The generator queues as many of the requests it offers as fit below the
/// queue limit, and drops the rest: none are queued into a full queue, all
/// are queued when they fit, and otherwise the queue is filled exactly to
/// its limit. The requests it queues go to the back and have never been
/// retried.
pub proof fn lemma_generation_fills_up_to_the_limit(s: SimState)
    requires
        generate_fits(s),
    ensures
        ({
            let t = generate_step(s);
            let len = s.queue.len();
            let max = s.config.max_queue_size;
            let offered = t.last_generated;
            &&& offered == generation_rate(s.config, s.backpressure_active)
            &&& t.last_accepted - s.last_accepted + t.last_dropped - s.last_dropped == offered
            &&& len >= max ==> t.queue == s.queue
            &&& (len < max && len + offered <= max) ==> t.queue.len() == len + offered
            &&& (len < max && len + offered > max) ==> t.queue.len() == max
            &&& t.queue.take(len as int) == s.queue
            &&& t.queue.len() - len == t.last_accepted - s.last_accepted
            &&& forall|i: int| len <= i < t.queue.len() ==> #[trigger] t.queue[i].retries == 0
        }),
{
    let t = generate_step(s);
    assert(t.queue.take(s.queue.len() as int) =~= s.queue);
}

/// What a failed service sends back: at most what it took, only requests
/// that had not reached the retry limit, each with one more retry; when
/// every request it took was below the limit it sends them all back, in
/// order, and when none was it sends nothing.
pub proof fn lemma_requeued_meaning(batch: Seq<Request>, max_retries: u8)
    ensures
        requeued(batch, max_retries).len() <= batch.len(),
        forall|i: int|
            0 <= i < requeued(batch, max_retries).len() ==> 1 <= #[trigger] requeued(
                batch,
                max_retries,
            )[i].retries <= max_retries,
        (forall|i: int| 0 <= i < batch.len() ==> #[trigger] batch[i].retries < max_retries) ==> {
            &&& requeued(batch, max_retries).len() == batch.len()
            &&& forall|i: int|
                0 <= i < batch.len() ==> #[trigger] requeued(batch, max_retries)[i].retries
                    == batch[i].retries + 1
        },
        (forall|i: int| 0 <= i < batch.len() ==> #[trigger] batch[i].retries >= max_retries)
            ==> requeued(batch, max_retries).len() == 0,
    decreases batch.len(),
{
    lemma_requeued_len(batch, max_retries);
    lemma_requeued_within_limit(batch, max_retries);
    if batch.len() > 0 {
        let rest = batch.drop_last();
        lemma_requeued_meaning(rest, max_retries);
        let earlier = requeued(rest, max_retries);
        assert(forall|i: int| 0 <= i < rest.len() ==> rest[i] == batch[i]);
        assert forall|i: int|
            0 <= i < requeued(batch, max_retries).len() implies 1 <= #[trigger] requeued(
            batch,
            max_retries,
        )[i].retries by {
            if i < earlier.len() {
                assert(requeued(batch, max_retries)[i] == earlier[i]);
            }
        }
        if forall|i: int| 0 <= i < batch.len() ==> #[trigger] batch[i].retries < max_retries {
            assert(forall|i: int| 0 <= i < rest.len() ==> #[trigger] rest[i].retries < max_retries);
            assert(batch[batch.len() - 1].retries < max_retries);
            assert forall|i: int| 0 <= i < batch.len() implies #[trigger] requeued(
                batch,
                max_retries,
            )[i].retries == batch[i].retries + 1 by {
                if i < rest.len() {
                    assert(requeued(batch, max_retries)[i] == earlier[i]);
                }
            }
        }
        if forall|i: int| 0 <= i < batch.len() ==> #[trigger] batch[i].retries >= max_retries {
            assert(forall|i: int| 0 <= i < rest.len() ==> #[trigger] rest[i].retries >= max_retries);
            assert(batch[batch.len() - 1].retries >= max_retries);
        }
    }
}

/// How the services share the queue. Service A takes from the front as many
/// requests as its capacity allows, then service B takes the next ones up
/// to its capacity; what neither took stays at the front of the queue, in
/// order, followed by what failed services send back. A working service
/// counts what it took as processed; a failed one counts it as failed in
/// service, split into retried and exhausted requests, and processes
/// nothing.
pub proof fn lemma_dispatch_serves_the_front_a_first(s: SimState)
    requires
        dispatch_fits(s),
    ensures
        ({
            let t = dispatch_step(s);
            let len = s.queue.len() as int;
            let cap_a = s.service_a.capacity_per_tick as int;
            let cap_b = s.service_b.capacity_per_tick as int;
            let taken_a = if cap_a < len {
                cap_a
            } else {
                len
            };
            let taken_b = if cap_b < len - taken_a {
                cap_b
            } else {
                len - taken_a
            };
            let untaken = len - taken_a - taken_b;
            &&& t.queue.take(untaken) == s.queue.skip(taken_a + taken_b)
            &&& t.queue.len() == untaken + t.last_retried
            &&& s.service_a.state != ServiceState::Failed ==> {
                &&& t.service_a.processed == s.service_a.processed + taken_a
                &&& t.service_a.last_processed == s.service_a.last_processed + taken_a
                &&& t.service_a.failed_in_service == s.service_a.failed_in_service
            }
            &&& s.service_a.state == ServiceState::Failed ==> {
                &&& t.service_a.processed == s.service_a.processed
                &&& t.service_a.failed_in_service == s.service_a.failed_in_service + taken_a
                &&& (t.service_a.retry_attempts - s.service_a.retry_attempts)
                    + (t.service_a.retry_exhausted - s.service_a.retry_exhausted) == taken_a
            }
            &&& s.service_b.state != ServiceState::Failed ==> {
                &&& t.service_b.processed == s.service_b.processed + taken_b
                &&& t.service_b.last_processed == s.service_b.last_processed + taken_b
                &&& t.service_b.failed_in_service == s.service_b.failed_in_service
            }
            &&& s.service_b.state == ServiceState::Failed ==> {
                &&& t.service_b.processed == s.service_b.processed
                &&& t.service_b.failed_in_service == s.service_b.failed_in_service + taken_b
                &&& (t.service_b.retry_attempts - s.service_b.retry_attempts)
                    + (t.service_b.retry_exhausted - s.service_b.retry_exhausted) == taken_b
            }
            &&& t.last_retried == (t.service_a.retry_attempts - s.service_a.retry_attempts) + (
            t.service_b.retry_attempts - s.service_b.retry_attempts)
            &&& t.last_retry_exhausted == (t.service_a.retry_exhausted
                - s.service_a.retry_exhausted) + (t.service_b.retry_exhausted
                - s.service_b.retry_exhausted)
            &&& t.last_failed_in_service == (t.service_a.failed_in_service
                - s.service_a.failed_in_service) + (t.service_b.failed_in_service
                - s.service_b.failed_in_service)
        }),
{
    let max_retries = s.config.max_request_retries;
    lemma_requeued_len(batch_a(s), max_retries);
    lemma_requeued_len(batch_b(s), max_retries);
    let t = dispatch_step(s);
    let rest = queue_after_b(s);
    assert(t.queue.take(rest.len() as int) =~= rest);
    assert(rest =~= s.queue.skip(
        served(s.service_a.capacity_per_tick, s.queue.len() as int) + served(
            s.service_b.capacity_per_tick,
            queue_after_a(s).len() as int,
        ),
    ));
}

/// The summary's totals are the sums of the history's per-tick counts.
pub proof fn lemma_summary_adds_up_the_history(history: Seq<HistoryEntry>)
    requires
        history.len() <= usize::MAX,
    ensures
        summary_of(history).total_generated == history_total(history, Tally::Generated),
        summary_of(history).total_processed == history_total(history, Tally::Processed),
        summary_of(history).total_dropped == history_total(history, Tally::Dropped),
        summary_of(history).total_retried == history_total(history, Tally::Retried),
        summary_of(history).backpressure_ticks == history_total(
            history,
            Tally::BackpressureTicks,
        ),
{
    lemma_history_total_bounds(history, Tally::Generated);
    lemma_history_total_bounds(history, Tally::Processed);
    lemma_history_total_bounds(history, Tally::Dropped);
    lemma_history_total_bounds(history, Tally::Retried);
    lemma_backpressure_total_bounded(history);
}

} // verus!
