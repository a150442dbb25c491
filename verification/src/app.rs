use crate::scenario::{scenario_config, Scenario};
use crate::simulation::{
    initial_state, restarted, service_of, tick_fits, tick_step, with_service, ServiceId,
    SimState, Simulation,
};
use vstd::prelude::*;

verus! {

/// The part of the pipeline the operator is looking at.
#[derive(Clone, Copy, Debug, PartialEq, Eq, Structural)]
pub enum FocusedComponent {
    Generator,
    Queue,
    ServiceA,
    ServiceB,
}

pub open spec fn component_label(component: FocusedComponent) -> Seq<char> {
    match component {
        FocusedComponent::Generator => "Generator"@,
        FocusedComponent::Queue => "Queue"@,
        FocusedComponent::ServiceA => "Service A"@,
        FocusedComponent::ServiceB => "Service B"@,
    }
}

/// Focus moves generator, queue, service A, service B, and back.
pub open spec fn next_component(component: FocusedComponent) -> FocusedComponent {
    match component {
        FocusedComponent::Generator => FocusedComponent::Queue,
        FocusedComponent::Queue => FocusedComponent::ServiceA,
        FocusedComponent::ServiceA => FocusedComponent::ServiceB,
        FocusedComponent::ServiceB => FocusedComponent::Generator,
    }
}

/// The service a focused component stands for, if it is one.
pub open spec fn focused_service(component: FocusedComponent) -> Option<ServiceId> {
    match component {
        FocusedComponent::ServiceA => Some(ServiceId::A),
        FocusedComponent::ServiceB => Some(ServiceId::B),
        _ => None,
    }
}

impl FocusedComponent {
    pub fn label(self) -> (label: &'static str)
        ensures
            label@ == component_label(self),
    {
        match self {
            FocusedComponent::Generator => "Generator",
            FocusedComponent::Queue => "Queue",
            FocusedComponent::ServiceA => "Service A",
            FocusedComponent::ServiceB => "Service B",
        }
    }

    fn next(self) -> (next: Self)
        ensures
            next == next_component(self),
    {
        match self {
            FocusedComponent::Generator => FocusedComponent::Queue,
            FocusedComponent::Queue => FocusedComponent::ServiceA,
            FocusedComponent::ServiceA => FocusedComponent::ServiceB,
            FocusedComponent::ServiceB => FocusedComponent::Generator,
        }
    }
}

/// A key the operator pressed.
#[derive(Clone, Copy, Debug, PartialEq, Eq, Structural)]
pub enum Key {
    Char(char),
    Tab,
    Esc,
    Other,
}

/// The operator's session: the simulation, the scenario it runs, what is
/// focused, and whether to stop.
pub struct App {
    pub simulation: Simulation,
    scenario: Scenario,
    focused_component: FocusedComponent,
    should_quit: bool,
    max_ticks: Option<u64>,
}

/// The mathematical state of an `App`.
pub struct AppState {
    pub simulation: SimState,
    pub scenario: Scenario,
    pub focused_component: FocusedComponent,
    pub should_quit: bool,
    pub max_ticks: Option<u64>,
}

impl View for App {
    type V = AppState;

    closed spec fn view(&self) -> AppState {
        AppState {
            simulation: self.simulation@,
            scenario: self.scenario,
            focused_component: self.focused_component,
            should_quit: self.should_quit,
            max_ticks: self.max_ticks,
        }
    }
}

/// The session after one tick: the simulation advances, and the session
/// ends once the tick count reaches `max_ticks`.
pub open spec fn app_tick(a: AppState) -> AppState {
    let simulation = tick_step(a.simulation);
    AppState {
        simulation,
        should_quit: a.should_quit || match a.max_ticks {
            Some(max_ticks) => simulation.tick >= max_ticks,
            None => false,
        },
        ..a
    }
}

/// A restart of the focused service, if a service is focused.
pub open spec fn app_restart_focused(a: AppState) -> AppState {
    match focused_service(a.focused_component) {
        Some(id) => AppState {
            simulation: with_service(
                a.simulation,
                id,
                restarted(service_of(a.simulation, id)),
            ),
            ..a
        },
        None => a,
    }
}

/// What a key press does: Ctrl-C, `q` and Esc end the session, Tab moves
/// the focus, `r` restarts the focused service; other keys do nothing.
pub open spec fn app_key(a: AppState, key: Key, control: bool) -> AppState {
    match key {
        Key::Char(c) => if c == 'c' && control {
            AppState { should_quit: true, ..a }
        } else if c == 'r' {
            app_restart_focused(a)
        } else if c == 'q' {
            AppState { should_quit: true, ..a }
        } else {
            a
        },
        Key::Tab => AppState { focused_component: next_component(a.focused_component), ..a },
        Key::Esc => AppState { should_quit: true, ..a },
        Key::Other => a,
    }
}

impl App {
    pub fn new(max_ticks: Option<u64>, scenario: Scenario) -> (app: Self)
        ensures
            app@ == (AppState {
                simulation: initial_state(scenario_config(scenario)),
                scenario,
                focused_component: FocusedComponent::Generator,
                should_quit: false,
                max_ticks,
            }),
    {
        App {
            simulation: Simulation::new(scenario.config()),
            scenario,
            focused_component: FocusedComponent::Generator,
            should_quit: false,
            max_ticks,
        }
    }

    pub fn tick(&mut self)
        requires
            tick_fits(old(self)@.simulation),
        ensures
            final(self)@ == app_tick(old(self)@),
    {
        self.simulation.tick();
        let reached = match self.max_ticks {
            Some(max_ticks) => self.simulation.tick >= max_ticks,
            None => false,
        };
        if reached {
            self.quit();
        }
    }

    pub fn quit(&mut self)
        ensures
            final(self)@ == (AppState { should_quit: true, ..old(self)@ }),
    {
        self.should_quit = true;
    }

    pub fn should_quit(&self) -> (quit: bool)
        ensures
            quit == self@.should_quit,
    {
        self.should_quit
    }

    pub fn focused_component(&self) -> (component: FocusedComponent)
        ensures
            component == self@.focused_component,
    {
        self.focused_component
    }

    pub fn scenario(&self) -> (scenario: Scenario)
        ensures
            scenario == self@.scenario,
    {
        self.scenario
    }

    pub fn cycle_focus(&mut self)
        ensures
            final(self)@ == (AppState {
                focused_component: next_component(old(self)@.focused_component),
                ..old(self)@
            }),
    {
        self.focused_component = self.focused_component.next();
    }

    /// Restarts the focused service if it has failed; with the generator or
    /// the queue focused, nothing happens.
    pub fn restart_focused_service(&mut self)
        ensures
            final(self)@ == app_restart_focused(old(self)@),
    {
        match self.focused_component {
            FocusedComponent::ServiceA => self.simulation.restart_service(ServiceId::A),
            FocusedComponent::ServiceB => self.simulation.restart_service(ServiceId::B),
            FocusedComponent::Generator | FocusedComponent::Queue => {},
        }
    }

    /// Applies a key press; returns whether the simulation may have changed
    /// in a way observers should be told about (a restart request).
    pub fn handle_key(&mut self, key: Key, control: bool) -> (changed: bool)
        ensures
            final(self)@ == app_key(old(self)@, key, control),
            changed == (key == Key::Char('r')),
    {
        match key {
            Key::Char(c) => {
                if c == 'c' && control {
                    self.quit();
                    false
                } else if c == 'r' {
                    self.restart_focused_service();
                    true
                } else if c == 'q' {
                    self.quit();
                    false
                } else {
                    false
                }
            },
            Key::Tab => {
                self.cycle_focus();
                false
            },
            Key::Esc => {
                self.quit();
                false
            },
            Key::Other => false,
        }
    }
}

/// Four presses of Tab bring the focus back to where it started.
pub proof fn lemma_focus_cycle_returns(component: FocusedComponent)
    ensures
        next_component(next_component(next_component(next_component(component)))) == component,
        next_component(component) != component,
{
}

/// A restart request leaves everything but the focused service alone, and
/// leaves that service alone too unless it has failed.
pub proof fn lemma_restart_focused_touches_only_focused_service(a: AppState)
    ensures
        app_restart_focused(a).focused_component == a.focused_component,
        app_restart_focused(a).should_quit == a.should_quit,
        focused_service(a.focused_component) is None ==> app_restart_focused(a) == a,
        focused_service(a.focused_component) != Some(ServiceId::A)
            ==> app_restart_focused(a).simulation.service_a == a.simulation.service_a,
        focused_service(a.focused_component) != Some(ServiceId::B)
            ==> app_restart_focused(a).simulation.service_b == a.simulation.service_b,
        app_restart_focused(a).simulation.queue == a.simulation.queue,
        app_restart_focused(a).simulation.generated == a.simulation.generated,
{
}

/// Once the session has decided to stop it stays stopped.
pub proof fn lemma_quit_is_final(a: AppState, key: Key, control: bool)
    requires
        a.should_quit,
    ensures
        app_tick(a).should_quit,
        app_key(a, key, control).should_quit,
        app_restart_focused(a).should_quit,
{
}

} // verus!
