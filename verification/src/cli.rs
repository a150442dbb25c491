//! Command-line arguments.
use crate::scenario::{lemma_scenario_names_are_distinct, scenario_error_message, scenario_name, Scenario, ScenarioError};
use crate::text::{chars_of, str_equal};
use vstd::prelude::*;

verus! {

/// Why a decimal number could not be read (as `core::num::IntErrorKind`
/// names it).
#[derive(Clone, Copy, Debug, PartialEq, Eq, Structural)]
pub enum IntErrorKind {
    Empty,
    InvalidDigit,
    PosOverflow,
}

pub open spec fn is_decimal_digit(c: char) -> bool {
    48 <= (c as u32) <= 57
}

/// Reads the digits `s` on top of `acc`, left to right: the first
/// non-digit is an invalid digit, a value past `u64::MAX` an overflow.
pub open spec fn digits_value(s: Seq<char>, acc: int) -> Result<int, IntErrorKind>
    decreases s.len(),
{
    if s.len() == 0 {
        Ok(acc)
    } else if !is_decimal_digit(s[0]) {
        Err(IntErrorKind::InvalidDigit)
    } else {
        let value = acc * 10 + ((s[0] as u32) - 48);
        if value > u64::MAX {
            Err(IntErrorKind::PosOverflow)
        } else {
            digits_value(s.skip(1), value)
        }
    }
}

/// `str::parse::<u64>`: an optional `+`, then decimal digits.
pub open spec fn u64_of(s: Seq<char>) -> Result<u64, IntErrorKind> {
    if s.len() == 0 {
        Err(IntErrorKind::Empty)
    } else if (s[0] == '+' || s[0] == '-') && s.len() == 1 {
        Err(IntErrorKind::InvalidDigit)
    } else {
        let digits = if s[0] == '+' {
            s.skip(1)
        } else {
            s
        };
        match digits_value(digits, 0) {
            Ok(value) => Ok(value as u64),
            Err(kind) => Err(kind),
        }
    }
}

/// Reads a decimal `u64` the way `str::parse::<u64>` does.
pub fn parse_u64(s: &str) -> (result: Result<u64, IntErrorKind>)
    ensures
        result == u64_of(s@),
{
    let chars = chars_of(s);
    let len = chars.len();
    if len == 0 {
        return Err(IntErrorKind::Empty);
    }
    if (chars[0] == '+' || chars[0] == '-') && len == 1 {
        return Err(IntErrorKind::InvalidDigit);
    }
    let start: usize = if chars[0] == '+' {
        1
    } else {
        0
    };
    let ghost digits = chars@.skip(start as int);
    assert(start == 0 ==> digits =~= chars@);
    assert(digits == (if s@[0] == '+' {
        s@.skip(1)
    } else {
        s@
    }));
    let mut value: u64 = 0;
    let mut i: usize = start;
    while i < len
        invariant
            len == chars@.len(),
            chars@ == s@,
            s@.len() > 0,
            !((s@[0] == '+' || s@[0] == '-') && s@.len() == 1),
            digits == (if s@[0] == '+' {
                s@.skip(1)
            } else {
                s@
            }),
            start <= i <= len,
            digits == chars@.skip(start as int),
            digits_value(digits, 0) == digits_value(chars@.skip(i as int), value as int),
        decreases len - i,
    {
        let c = chars[i];
        let ghost rest = chars@.skip(i as int);
        assert(rest[0] == c);
        assert(rest.skip(1) =~= chars@.skip(i + 1));
        let code = c as u32;
        if code < 48 || code > 57 {
            return Err(IntErrorKind::InvalidDigit);
        }
        let d = (code - 48) as u64;
        if value > (u64::MAX - d) / 10 {
            assert(value * 10 + d > u64::MAX) by (nonlinear_arith)
                requires
                    value > (u64::MAX - d) / 10,
                    d <= 9,
            ;
            return Err(IntErrorKind::PosOverflow);
        }
        assert(value * 10 + d <= u64::MAX) by (nonlinear_arith)
            requires
                value <= (u64::MAX - d) / 10,
                d <= 9,
        ;
        value = value * 10 + d;
        i = i + 1;
    }
    assert(chars@.skip(len as int).len() == 0);
    Ok(value)
}

pub open spec fn int_error_text(kind: IntErrorKind) -> Seq<char> {
    match kind {
        IntErrorKind::Empty => "cannot parse integer from empty string"@,
        IntErrorKind::InvalidDigit => "invalid digit found in string"@,
        IntErrorKind::PosOverflow => "number too large to fit in target type"@,
    }
}

/// What the program was asked to do.
#[derive(Debug)]
pub struct RunConfig {
    pub max_ticks: Option<u64>,
    pub rpc_addr: Option<String>,
    pub scenario: Scenario,
    pub list_scenarios: bool,
    pub show_help: bool,
}

/// The mathematical value of a `RunConfig`.
pub struct RunSettings {
    pub max_ticks: Option<u64>,
    pub rpc_addr: Option<Seq<char>>,
    pub scenario: Scenario,
    pub list_scenarios: bool,
    pub show_help: bool,
}

impl View for RunConfig {
    type V = RunSettings;

    open spec fn view(&self) -> RunSettings {
        RunSettings {
            max_ticks: self.max_ticks,
            rpc_addr: match self.rpc_addr {
                Some(addr) => Some(addr@),
                None => None,
            },
            scenario: self.scenario,
            list_scenarios: self.list_scenarios,
            show_help: self.show_help,
        }
    }
}

/// Why the arguments were refused.
#[derive(Debug)]
pub enum ArgsError {
    MissingMaxTicks,
    InvalidMaxTicks(IntErrorKind),
    MissingRpcAddr,
    MissingScenario,
    UnknownScenario(ScenarioError),
    UnknownArgument(String),
}

/// The mathematical value of an `ArgsError`.
pub enum ArgsFailure {
    MissingMaxTicks,
    InvalidMaxTicks(IntErrorKind),
    MissingRpcAddr,
    MissingScenario,
    UnknownScenario(Seq<char>),
    UnknownArgument(Seq<char>),
}

impl View for ArgsError {
    type V = ArgsFailure;

    open spec fn view(&self) -> ArgsFailure {
        match self {
            ArgsError::MissingMaxTicks => ArgsFailure::MissingMaxTicks,
            ArgsError::InvalidMaxTicks(kind) => ArgsFailure::InvalidMaxTicks(*kind),
            ArgsError::MissingRpcAddr => ArgsFailure::MissingRpcAddr,
            ArgsError::MissingScenario => ArgsFailure::MissingScenario,
            ArgsError::UnknownScenario(ScenarioError::Unknown(name)) => ArgsFailure::UnknownScenario(
                name@,
            ),
            ArgsError::UnknownArgument(arg) => ArgsFailure::UnknownArgument(arg@),
        }
    }
}

pub open spec fn args_failure_text(failure: ArgsFailure) -> Seq<char> {
    match failure {
        ArgsFailure::MissingMaxTicks => "--max-ticks requires an integer value"@,
        ArgsFailure::InvalidMaxTicks(kind) => int_error_text(kind),
        ArgsFailure::MissingRpcAddr => "--rpc-addr requires an address"@,
        ArgsFailure::MissingScenario => "--scenario requires a scenario name"@,
        ArgsFailure::UnknownScenario(name) => "unknown scenario: "@ + name
            + " (use --list-scenarios)"@,
        ArgsFailure::UnknownArgument(arg) => "unknown argument: "@ + arg,
    }
}

impl ArgsError {
    /// The message shown to the user.
    pub fn message(&self) -> (message: String)
        ensures
            message@ == args_failure_text(self@),
    {
        match self {
            ArgsError::MissingMaxTicks => String::from_str("--max-ticks requires an integer value"),
            ArgsError::InvalidMaxTicks(kind) => match kind {
                IntErrorKind::Empty => String::from_str("cannot parse integer from empty string"),
                IntErrorKind::InvalidDigit => String::from_str("invalid digit found in string"),
                IntErrorKind::PosOverflow => String::from_str(
                    "number too large to fit in target type",
                ),
            },
            ArgsError::MissingRpcAddr => String::from_str("--rpc-addr requires an address"),
            ArgsError::MissingScenario => String::from_str("--scenario requires a scenario name"),
            ArgsError::UnknownScenario(error) => error.message(),
            ArgsError::UnknownArgument(arg) => {
                let mut message = String::from_str("unknown argument: ");
                message.append(arg.as_str());
                message
            },
        }
    }
}

/// The scenario whose name is `name`, if there is one.
pub open spec fn scenario_by_name(name: Seq<char>) -> Option<Scenario> {
    if name == scenario_name(Scenario::SteadyState) {
        Some(Scenario::SteadyState)
    } else if name == scenario_name(Scenario::PressureRamp) {
        Some(Scenario::PressureRamp)
    } else if name == scenario_name(Scenario::RetryStorm) {
        Some(Scenario::RetryStorm)
    } else if name == scenario_name(Scenario::DualFailure) {
        Some(Scenario::DualFailure)
    } else {
        None
    }
}

/// What no arguments ask for: the default scenario, nothing else.
pub open spec fn default_settings() -> RunSettings {
    RunSettings {
        max_ticks: None,
        rpc_addr: None,
        scenario: Scenario::SteadyState,
        list_scenarios: false,
        show_help: false,
    }
}

/// Reads `args[i..]` on top of `settings`. An option that takes a value
/// reads the next argument; `--help` or `-h` stops reading.
pub open spec fn parse_from(args: Seq<String>, i: int, settings: RunSettings) -> Result<
    RunSettings,
    ArgsFailure,
>
    decreases args.len() - i,
{
    if i < 0 || i >= args.len() {
        Ok(settings)
    } else {
        let arg = args[i]@;
        if arg == "--max-ticks"@ {
            if i + 1 >= args.len() {
                Err(ArgsFailure::MissingMaxTicks)
            } else {
                match u64_of(args[i + 1]@) {
                    Ok(value) => parse_from(
                        args,
                        i + 2,
                        RunSettings { max_ticks: Some(value), ..settings },
                    ),
                    Err(kind) => Err(ArgsFailure::InvalidMaxTicks(kind)),
                }
            }
        } else if arg == "--rpc-addr"@ {
            if i + 1 >= args.len() {
                Err(ArgsFailure::MissingRpcAddr)
            } else {
                parse_from(args, i + 2, RunSettings { rpc_addr: Some(args[i + 1]@), ..settings })
            }
        } else if arg == "--scenario"@ {
            if i + 1 >= args.len() {
                Err(ArgsFailure::MissingScenario)
            } else {
                match scenario_by_name(args[i + 1]@) {
                    Some(scenario) => parse_from(
                        args,
                        i + 2,
                        RunSettings { scenario, ..settings },
                    ),
                    None => Err(ArgsFailure::UnknownScenario(args[i + 1]@)),
                }
            }
        } else if arg == "--list-scenarios"@ {
            parse_from(args, i + 1, RunSettings { list_scenarios: true, ..settings })
        } else if arg == "--help"@ || arg == "-h"@ {
            Ok(RunSettings { show_help: true, ..settings })
        } else {
            Err(ArgsFailure::UnknownArgument(arg))
        }
    }
}

/// Reads the program's arguments (without the program name).
pub fn parse_args(args: Vec<String>) -> (result: Result<RunConfig, ArgsError>)
    ensures
        match result {
            Ok(config) => parse_from(args@, 0, default_settings()) == Ok::<
                RunSettings,
                ArgsFailure,
            >(config@),
            Err(error) => parse_from(args@, 0, default_settings()) == Err::<
                RunSettings,
                ArgsFailure,
            >(error@),
        },
{
    let mut config = RunConfig {
        max_ticks: None,
        rpc_addr: None,
        scenario: Scenario::default(),
        list_scenarios: false,
        show_help: false,
    };
    let n = args.len();
    let mut i: usize = 0;
    while i < n
        invariant
            n == args@.len(),
            i <= n,
            parse_from(args@, 0, default_settings()) == parse_from(args@, i as int, config@),
        decreases n - i,
    {
        let arg = args[i].as_str();
        if str_equal(arg, "--max-ticks") {
            if i + 1 >= n {
                return Err(ArgsError::MissingMaxTicks);
            }
            match parse_u64(args[i + 1].as_str()) {
                Ok(value) => {
                    config.max_ticks = Some(value);
                },
                Err(kind) => {
                    return Err(ArgsError::InvalidMaxTicks(kind));
                },
            }
            i = i + 2;
        } else if str_equal(arg, "--rpc-addr") {
            if i + 1 >= n {
                return Err(ArgsError::MissingRpcAddr);
            }
            config.rpc_addr = Some(args[i + 1].clone());
            i = i + 2;
        } else if str_equal(arg, "--scenario") {
            if i + 1 >= n {
                return Err(ArgsError::MissingScenario);
            }
            match Scenario::from_name(args[i + 1].as_str()) {
                Ok(scenario) => {
                    proof {
                        lemma_scenario_by_name(args@[i + 1]@, scenario);
                    }
                    config.scenario = scenario;
                },
                Err(error) => {
                    proof {
                        lemma_no_scenario_by_name(args@[i + 1]@);
                    }
                    return Err(ArgsError::UnknownScenario(error));
                },
            }
            i = i + 2;
        } else if str_equal(arg, "--list-scenarios") {
            config.list_scenarios = true;
            i = i + 1;
        } else if str_equal(arg, "--help") || str_equal(arg, "-h") {
            config.show_help = true;
            return Ok(config);
        } else {
            return Err(ArgsError::UnknownArgument(String::from_str(arg)));
        }
    }
    Ok(config)
}

proof fn lemma_scenario_by_name(name: Seq<char>, scenario: Scenario)
    requires
        scenario_name(scenario) == name,
    ensures
        scenario_by_name(name) == Some(scenario),
{
    lemma_scenario_names_are_distinct(scenario, Scenario::SteadyState);
    lemma_scenario_names_are_distinct(scenario, Scenario::PressureRamp);
    lemma_scenario_names_are_distinct(scenario, Scenario::RetryStorm);
    lemma_scenario_names_are_distinct(scenario, Scenario::DualFailure);
}

proof fn lemma_no_scenario_by_name(name: Seq<char>)
    requires
        forall|scenario: Scenario| scenario_name(scenario) != name,
    ensures
        scenario_by_name(name) is None,
{
    assert(scenario_name(Scenario::SteadyState) != name);
    assert(scenario_name(Scenario::PressureRamp) != name);
    assert(scenario_name(Scenario::RetryStorm) != name);
    assert(scenario_name(Scenario::DualFailure) != name);
}

} // verus!
