use vstd::prelude::*;

verus! {

/// The state of the fan-out supervisor.
#[derive(Debug, Clone, Copy, PartialEq, Eq, Structural)]
pub enum SupervisorState {
    Running,
    ShuttingDown,
}

/// What the supervisor observes.
#[derive(Debug, Clone, PartialEq, Eq)]
pub enum SupervisorEvent {
    /// A data producer became available.
    ProducerAvailable(String),
    /// The producer-available subscription ended (completed or closed).
    SubscriptionEnded,
    /// The relay transport fired its shutdown signal.
    Shutdown,
}

/// What the supervisor does in response.
#[derive(Debug, Clone, PartialEq, Eq)]
pub enum SupervisorAction {
    /// Open the producer's frame stream and start one consumption task on it.
    SpawnConsumer(String),
    /// Stop taking notifications; running consumers drain on their own.
    Stop,
    /// Nothing.
    Nothing,
}

/// One step of the supervisor.
pub open spec fn supervisor_step(s: SupervisorState, e: SupervisorEvent) -> (SupervisorState, SupervisorAction) {
    match s {
        SupervisorState::Running => match e {
            SupervisorEvent::ProducerAvailable(id) => (SupervisorState::Running, SupervisorAction::SpawnConsumer(id)),
            _ => (SupervisorState::ShuttingDown, SupervisorAction::Stop),
        },
        SupervisorState::ShuttingDown => (SupervisorState::ShuttingDown, SupervisorAction::Nothing),
    }
}

/// Watches producer notifications and decides which consumption tasks to start.
pub struct Supervisor {
    state: SupervisorState,
}

impl View for Supervisor {
    type V = SupervisorState;

    closed spec fn view(&self) -> SupervisorState {
        self.state
    }
}

impl Supervisor {
    pub fn new() -> (r: Supervisor)
        ensures
            r@ == SupervisorState::Running,
    {
        Supervisor { state: SupervisorState::Running }
    }

    pub fn state(&self) -> (r: SupervisorState)
        ensures
            r == self@,
    {
        self.state
    }

    /// Takes one event and says what to do.
    pub fn on_event(&mut self, e: SupervisorEvent) -> (r: SupervisorAction)
        ensures
            (final(self)@, r) == supervisor_step(old(self)@, e),
    {
        match self.state {
            SupervisorState::Running => match e {
                SupervisorEvent::ProducerAvailable(id) => SupervisorAction::SpawnConsumer(id),
                _ => {
                    self.state = SupervisorState::ShuttingDown;
                    SupervisorAction::Stop
                },
            },
            SupervisorState::ShuttingDown => SupervisorAction::Nothing,
        }
    }
}

/// Once shutting down, the supervisor stays so and starts no consumer.
pub proof fn lemma_shutting_down_is_terminal(e: SupervisorEvent)
    ensures
        supervisor_step(SupervisorState::ShuttingDown, e) == (SupervisorState::ShuttingDown, SupervisorAction::Nothing),
{
}

} // verus!
