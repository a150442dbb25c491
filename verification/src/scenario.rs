use crate::simulation::SimulationConfig;
use crate::text::str_equal;
use vstd::prelude::*;

verus! {

/// A built-in load profile to run the simulation with.
#[derive(Clone, Copy, Debug, PartialEq, Eq, Structural)]
pub enum Scenario {
    SteadyState,
    PressureRamp,
    RetryStorm,
    DualFailure,
}

pub open spec fn scenario_name(scenario: Scenario) -> Seq<char> {
    match scenario {
        Scenario::SteadyState => "steady-state"@,
        Scenario::PressureRamp => "pressure-ramp"@,
        Scenario::RetryStorm => "retry-storm"@,
        Scenario::DualFailure => "dual-failure"@,
    }
}

pub open spec fn scenario_description(scenario: Scenario) -> Seq<char> {
    match scenario {
        Scenario::SteadyState => "balanced load that should remain healthy"@,
        Scenario::PressureRamp => "sustained pressure that fills the queue over time"@,
        Scenario::RetryStorm => "failed services create bounded retry pressure"@,
        Scenario::DualFailure => "aggressive load drives both services to failure"@,
    }
}

pub open spec fn scenario_config(scenario: Scenario) -> SimulationConfig {
    match scenario {
        Scenario::SteadyState => SimulationConfig {
            requests_per_tick: 4,
            service_capacity_per_tick: 2,
            max_queue_size: 24,
            overload_threshold_ticks: 4,
            failure_threshold_ticks: 10,
            max_request_retries: 2,
            backpressure_threshold_ticks: 2,
            overload_recovery_ticks: 3,
            history_limit: 30,
        },
        Scenario::PressureRamp => SimulationConfig {
            requests_per_tick: 6,
            service_capacity_per_tick: 2,
            max_queue_size: 24,
            overload_threshold_ticks: 4,
            failure_threshold_ticks: 10,
            max_request_retries: 2,
            backpressure_threshold_ticks: 2,
            overload_recovery_ticks: 3,
            history_limit: 30,
        },
        Scenario::RetryStorm => SimulationConfig {
            requests_per_tick: 8,
            service_capacity_per_tick: 1,
            max_queue_size: 16,
            overload_threshold_ticks: 1,
            failure_threshold_ticks: 2,
            max_request_retries: 3,
            backpressure_threshold_ticks: 1,
            overload_recovery_ticks: 4,
            history_limit: 30,
        },
        Scenario::DualFailure => SimulationConfig {
            requests_per_tick: 10,
            service_capacity_per_tick: 1,
            max_queue_size: 12,
            overload_threshold_ticks: 1,
            failure_threshold_ticks: 2,
            max_request_retries: 1,
            backpressure_threshold_ticks: 1,
            overload_recovery_ticks: 4,
            history_limit: 30,
        },
    }
}

impl Scenario {
    pub const ALL: [Scenario; 4] = [
        Scenario::SteadyState,
        Scenario::PressureRamp,
        Scenario::RetryStorm,
        Scenario::DualFailure,
    ];

    pub fn name(self) -> (name: &'static str)
        ensures
            name@ == scenario_name(self),
    {
        match self {
            Scenario::SteadyState => "steady-state",
            Scenario::PressureRamp => "pressure-ramp",
            Scenario::RetryStorm => "retry-storm",
            Scenario::DualFailure => "dual-failure",
        }
    }

    pub fn description(self) -> (description: &'static str)
        ensures
            description@ == scenario_description(self),
    {
        match self {
            Scenario::SteadyState => "balanced load that should remain healthy",
            Scenario::PressureRamp => "sustained pressure that fills the queue over time",
            Scenario::RetryStorm => "failed services create bounded retry pressure",
            Scenario::DualFailure => "aggressive load drives both services to failure",
        }
    }

    pub fn config(self) -> (config: SimulationConfig)
        ensures
            config == scenario_config(self),
    {
        match self {
            Scenario::SteadyState => SimulationConfig {
                requests_per_tick: 4,
                service_capacity_per_tick: 2,
                max_queue_size: 24,
                overload_threshold_ticks: 4,
                failure_threshold_ticks: 10,
                max_request_retries: 2,
                backpressure_threshold_ticks: 2,
                overload_recovery_ticks: 3,
                history_limit: 30,
            },
            Scenario::PressureRamp => SimulationConfig {
                requests_per_tick: 6,
                service_capacity_per_tick: 2,
                max_queue_size: 24,
                overload_threshold_ticks: 4,
                failure_threshold_ticks: 10,
                max_request_retries: 2,
                backpressure_threshold_ticks: 2,
                overload_recovery_ticks: 3,
                history_limit: 30,
            },
            Scenario::RetryStorm => SimulationConfig {
                requests_per_tick: 8,
                service_capacity_per_tick: 1,
                max_queue_size: 16,
                overload_threshold_ticks: 1,
                failure_threshold_ticks: 2,
                max_request_retries: 3,
                backpressure_threshold_ticks: 1,
                overload_recovery_ticks: 4,
                history_limit: 30,
            },
            Scenario::DualFailure => SimulationConfig {
                requests_per_tick: 10,
                service_capacity_per_tick: 1,
                max_queue_size: 12,
                overload_threshold_ticks: 1,
                failure_threshold_ticks: 2,
                max_request_retries: 1,
                backpressure_threshold_ticks: 1,
                overload_recovery_ticks: 4,
                history_limit: 30,
            },
        }
    }

    /// The scenario called `name`, or an error that names it.
    pub fn from_name(name: &str) -> (result: Result<Self, ScenarioError>)
        ensures
            match result {
                Ok(scenario) => scenario_name(scenario) == name@,
                Err(ScenarioError::Unknown(unknown)) => unknown@ == name@ && forall|
                    scenario: Scenario,
                | scenario_name(scenario) != name@,
            },
    {
        let all = Scenario::ALL;
        let mut i: usize = 0;
        while i < 4
            invariant
                i <= 4,
                all@ == seq![
                    Scenario::SteadyState,
                    Scenario::PressureRamp,
                    Scenario::RetryStorm,
                    Scenario::DualFailure,
                ],
                forall|j: int| 0 <= j < i ==> scenario_name(#[trigger] all@[j]) != name@,
            decreases 4 - i,
        {
            let scenario = all[i];
            if str_equal(scenario.name(), name) {
                return Ok(scenario);
            }
            i = i + 1;
        }
        assert forall|scenario: Scenario| scenario_name(scenario) != name@ by {
            match scenario {
                Scenario::SteadyState => assert(scenario_name(all@[0]) != name@),
                Scenario::PressureRamp => assert(scenario_name(all@[1]) != name@),
                Scenario::RetryStorm => assert(scenario_name(all@[2]) != name@),
                Scenario::DualFailure => assert(scenario_name(all@[3]) != name@),
            }
        }
        Err(ScenarioError::Unknown(String::from_str(name)))
    }
}

impl Default for Scenario {
    fn default() -> (scenario: Self)
        ensures
            scenario == Scenario::SteadyState,
    {
        Scenario::SteadyState
    }
}

/// Why a scenario name was refused.
#[derive(Clone, Debug, PartialEq, Eq)]
pub enum ScenarioError {
    Unknown(String),
}

pub open spec fn scenario_error_message(error: ScenarioError) -> Seq<char> {
    match error {
        ScenarioError::Unknown(name) => "unknown scenario: "@ + name@ + " (use --list-scenarios)"@,
    }
}

impl ScenarioError {
    /// The message shown to the user.
    pub fn message(&self) -> (message: String)
        ensures
            message@ == scenario_error_message(*self),
    {
        match self {
            ScenarioError::Unknown(name) => {
                let mut message = String::from_str("unknown scenario: ");
                message.append(name.as_str());
                message.append(" (use --list-scenarios)");
                message
            },
        }
    }
}

/// No two scenarios share a name, so a name picks out one scenario and
/// `from_name` gives back the scenario whose name it is handed.
pub proof fn lemma_scenario_names_are_distinct(a: Scenario, b: Scenario)
    ensures
        scenario_name(a) == scenario_name(b) ==> a == b,
{
    reveal_strlit("steady-state");
    reveal_strlit("pressure-ramp");
    reveal_strlit("retry-storm");
    reveal_strlit("dual-failure");
    if a != b {
        match a {
            Scenario::SteadyState => assert(scenario_name(a)[0] != scenario_name(b)[0]
                || scenario_name(a)[1] != scenario_name(b)[1]),
            Scenario::PressureRamp => assert(scenario_name(a)[0] != scenario_name(b)[0]),
            Scenario::RetryStorm => assert(scenario_name(a)[0] != scenario_name(b)[0]),
            Scenario::DualFailure => assert(scenario_name(a)[0] != scenario_name(b)[0]),
        }
    }
}

/// The default scenario is the steady baseline, whose generator offers
/// exactly what the two services can take together.
pub proof fn lemma_default_scenario_is_balanced()
    ensures
        scenario_config(Scenario::SteadyState).requests_per_tick == 2 * scenario_config(
            Scenario::SteadyState,
        ).service_capacity_per_tick,
{
}

} // verus!
