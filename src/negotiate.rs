use vstd::prelude::*;

verus! {

/// A relay host and the token that admits this device to it.
#[derive(Debug, Clone, PartialEq, Eq)]
pub struct RelayAssignment {
    pub host: String,
    pub token: String,
}

/// What the backend answered to the authentication request.
#[derive(Debug, Clone, PartialEq, Eq)]
pub enum LoginOutcome {
    /// Authenticated; the bearer token for the next request.
    Authenticated { access_token: String },
    /// The backend refused the credentials.
    AuthenticationError { message: String },
    /// No usable answer: network failure, timeout, or a reply without data.
    Unreachable { reason: String },
}

/// What the backend answered to the relay-assignment request.
#[derive(Debug, Clone, PartialEq, Eq)]
pub enum AssignOutcome {
    Assigned(RelayAssignment),
    AuthenticationError { message: String },
    AlreadyAssigned { message: String },
    Unreachable { reason: String },
}

/// Why live negotiation gave no assignment.
#[derive(Debug, Clone, PartialEq, Eq)]
pub enum BackendFailure {
    Unreachable(String),
    AuthError(String),
    AssignmentConflict(String),
}

/// Why negotiation failed.
#[derive(Debug, Clone, PartialEq, Eq)]
pub enum NegotiationError {
    /// The backend refused the device's credentials.
    AuthError(String),
    /// Live negotiation failed and no stored assignment could be read.
    NoAssignmentAvailable { cause: BackendFailure },
}

/// Where a negotiation stands.
#[derive(Debug, Clone, PartialEq, Eq)]
pub enum NegotiationPhase {
    Start,
    Authenticating,
    Assigning,
    ReadingStore { cause: BackendFailure },
    Done,
}

/// What happened since the last step.
#[derive(Debug, Clone, PartialEq, Eq)]
pub enum NegotiationEvent {
    Started,
    LoggedIn(LoginOutcome),
    AssignmentReply(AssignOutcome),
    StoreRead(Option<RelayAssignment>),
}

/// What the driver of a negotiation does next.
#[derive(Debug, PartialEq, Eq)]
pub enum NegotiationAction {
    /// Send the device's credentials to the backend.
    Authenticate,
    /// Ask the backend for a relay, with this access token.
    RequestAssignment { access_token: String },
    /// Read the last stored assignment.
    ReadStore,
    /// Store this fresh assignment (a failure to store is ignored) and end with it.
    Accept(RelayAssignment),
    /// End with this result.
    Finish(Result<RelayAssignment, NegotiationError>),
}

/// One step of negotiation: the next phase, and the action to take, if the
/// event is one that the phase awaits.
pub open spec fn negotiation_step(p: NegotiationPhase, e: NegotiationEvent) -> (NegotiationPhase, Option<NegotiationAction>) {
    match (p, e) {
        (NegotiationPhase::Start, NegotiationEvent::Started) => (
            NegotiationPhase::Authenticating,
            Some(NegotiationAction::Authenticate),
        ),
        (NegotiationPhase::Authenticating, NegotiationEvent::LoggedIn(o)) => match o {
            LoginOutcome::Authenticated { access_token } => (
                NegotiationPhase::Assigning,
                Some(NegotiationAction::RequestAssignment { access_token }),
            ),
            LoginOutcome::AuthenticationError { message } => (
                NegotiationPhase::Done,
                Some(NegotiationAction::Finish(Err(NegotiationError::AuthError(message)))),
            ),
            LoginOutcome::Unreachable { reason } => (
                NegotiationPhase::ReadingStore { cause: BackendFailure::Unreachable(reason) },
                Some(NegotiationAction::ReadStore),
            ),
        },
        (NegotiationPhase::Assigning, NegotiationEvent::AssignmentReply(o)) => match o {
            AssignOutcome::Assigned(a) => (NegotiationPhase::Done, Some(NegotiationAction::Accept(a))),
            AssignOutcome::AuthenticationError { message } => (
                NegotiationPhase::ReadingStore { cause: BackendFailure::AuthError(message) },
                Some(NegotiationAction::ReadStore),
            ),
            AssignOutcome::AlreadyAssigned { message } => (
                NegotiationPhase::ReadingStore { cause: BackendFailure::AssignmentConflict(message) },
                Some(NegotiationAction::ReadStore),
            ),
            AssignOutcome::Unreachable { reason } => (
                NegotiationPhase::ReadingStore { cause: BackendFailure::Unreachable(reason) },
                Some(NegotiationAction::ReadStore),
            ),
        },
        (NegotiationPhase::ReadingStore { cause }, NegotiationEvent::StoreRead(stored)) => match stored {
            Some(a) => (NegotiationPhase::Done, Some(NegotiationAction::Finish(Ok(a)))),
            None => (
                NegotiationPhase::Done,
                Some(NegotiationAction::Finish(Err(NegotiationError::NoAssignmentAvailable { cause }))),
            ),
        },
        (p, _) => (p, None),
    }
}

/// Whether an action reads the assignment store.
pub open spec fn reads_store(a: Option<NegotiationAction>) -> bool {
    a == Some(NegotiationAction::ReadStore)
}

/// A finished negotiation takes no further event into account.
pub proof fn lemma_done_is_final(e: NegotiationEvent)
    ensures
        negotiation_step(NegotiationPhase::Done, e) == (NegotiationPhase::Done, None::<NegotiationAction>),
{
}

/// When the backend refuses authentication, negotiation ends with that
/// refusal and never reads the assignment store.
pub proof fn lemma_auth_refusal_skips_store(message: String, later: NegotiationEvent)
    ensures
        ({
            let (ph1, a1) = negotiation_step(NegotiationPhase::Start, NegotiationEvent::Started);
            let (ph2, a2) = negotiation_step(
                ph1,
                NegotiationEvent::LoggedIn(LoginOutcome::AuthenticationError { message }),
            );
            let (ph3, a3) = negotiation_step(ph2, later);
            &&& a1 == Some(NegotiationAction::Authenticate)
            &&& a2 == Some(NegotiationAction::Finish(Err(NegotiationError::AuthError(message))))
            &&& ph2 == NegotiationPhase::Done
            &&& !reads_store(a1) && !reads_store(a2) && a3 is None
        }),
{
}

/// When authentication succeeds but the assignment step fails in any way, the
/// stored assignment, if there is one, is the result; with none stored the
/// result is `NoAssignmentAvailable`.
pub proof fn lemma_assignment_failure_falls_back(
    access_token: String,
    reply: AssignOutcome,
    stored: Option<RelayAssignment>,
)
    requires
        !(reply is Assigned),
    ensures
        ({
            let (ph1, _) = negotiation_step(NegotiationPhase::Start, NegotiationEvent::Started);
            let (ph2, a2) = negotiation_step(
                ph1,
                NegotiationEvent::LoggedIn(LoginOutcome::Authenticated { access_token }),
            );
            let (ph3, a3) = negotiation_step(ph2, NegotiationEvent::AssignmentReply(reply));
            let (ph4, a4) = negotiation_step(ph3, NegotiationEvent::StoreRead(stored));
            &&& a2 == Some(NegotiationAction::RequestAssignment { access_token })
            &&& reads_store(a3)
            &&& ph4 == NegotiationPhase::Done
            &&& match stored {
                Some(a) => a4 == Some(NegotiationAction::Finish(Ok(a))),
                None => a4 matches Some(NegotiationAction::Finish(Err(NegotiationError::NoAssignmentAvailable { .. }))),
            }
        }),
{
}

/// When the backend cannot be reached for authentication, the stored
/// assignment, if there is one, is the result; with none stored the result
/// is `NoAssignmentAvailable`.
pub proof fn lemma_unreachable_backend_falls_back(reason: String, stored: Option<RelayAssignment>)
    ensures
        ({
            let (ph1, _) = negotiation_step(NegotiationPhase::Start, NegotiationEvent::Started);
            let (ph2, a2) = negotiation_step(
                ph1,
                NegotiationEvent::LoggedIn(LoginOutcome::Unreachable { reason }),
            );
            let (ph3, a3) = negotiation_step(ph2, NegotiationEvent::StoreRead(stored));
            &&& reads_store(a2)
            &&& ph3 == NegotiationPhase::Done
            &&& match stored {
                Some(a) => a3 == Some(NegotiationAction::Finish(Ok(a))),
                None => a3 matches Some(NegotiationAction::Finish(Err(NegotiationError::NoAssignmentAvailable { .. }))),
            }
        }),
{
}

/// The decisions of session negotiation: live negotiation first, the stored
/// assignment when it fails, and an authentication refusal as final.
pub struct Negotiation {
    phase: NegotiationPhase,
}

impl View for Negotiation {
    type V = NegotiationPhase;

    closed spec fn view(&self) -> NegotiationPhase {
        self.phase
    }
}

impl Negotiation {
    pub fn new() -> (r: Negotiation)
        ensures
            r@ == NegotiationPhase::Start,
    {
        Negotiation { phase: NegotiationPhase::Start }
    }

    pub fn phase(&self) -> (r: &NegotiationPhase)
        ensures
            *r == self@,
    {
        &self.phase
    }

    /// Takes one event; returns the action that follows, or `None` when the
    /// event is not the one the current phase awaits (nothing changes then).
    pub fn step(&mut self, e: NegotiationEvent) -> (r: Option<NegotiationAction>)
        ensures
            (final(self)@, r) == negotiation_step(old(self)@, e),
    {
        let mut current = NegotiationPhase::Done;
        core::mem::swap(&mut current, &mut self.phase);
        let (next, action) = match (current, e) {
            (NegotiationPhase::Start, NegotiationEvent::Started) => (
                NegotiationPhase::Authenticating,
                Some(NegotiationAction::Authenticate),
            ),
            (NegotiationPhase::Authenticating, NegotiationEvent::LoggedIn(o)) => match o {
                LoginOutcome::Authenticated { access_token } => (
                    NegotiationPhase::Assigning,
                    Some(NegotiationAction::RequestAssignment { access_token }),
                ),
                LoginOutcome::AuthenticationError { message } => (
                    NegotiationPhase::Done,
                    Some(NegotiationAction::Finish(Err(NegotiationError::AuthError(message)))),
                ),
                LoginOutcome::Unreachable { reason } => (
                    NegotiationPhase::ReadingStore { cause: BackendFailure::Unreachable(reason) },
                    Some(NegotiationAction::ReadStore),
                ),
            },
            (NegotiationPhase::Assigning, NegotiationEvent::AssignmentReply(o)) => match o {
                AssignOutcome::Assigned(a) => (NegotiationPhase::Done, Some(NegotiationAction::Accept(a))),
                AssignOutcome::AuthenticationError { message } => (
                    NegotiationPhase::ReadingStore { cause: BackendFailure::AuthError(message) },
                    Some(NegotiationAction::ReadStore),
                ),
                AssignOutcome::AlreadyAssigned { message } => (
                    NegotiationPhase::ReadingStore {
                        cause: BackendFailure::AssignmentConflict(message),
                    },
                    Some(NegotiationAction::ReadStore),
                ),
                AssignOutcome::Unreachable { reason } => (
                    NegotiationPhase::ReadingStore { cause: BackendFailure::Unreachable(reason) },
                    Some(NegotiationAction::ReadStore),
                ),
            },
            (NegotiationPhase::ReadingStore { cause }, NegotiationEvent::StoreRead(stored)) => {
                match stored {
                    Some(a) => (NegotiationPhase::Done, Some(NegotiationAction::Finish(Ok(a)))),
                    None => (
                        NegotiationPhase::Done,
                        Some(
                            NegotiationAction::Finish(
                                Err(NegotiationError::NoAssignmentAvailable { cause }),
                            ),
                        ),
                    ),
                }
            },
            (p, _) => {
                self.phase = p;
                return None;
            },
        };
        self.phase = next;
        action
    }
}

} // verus!
