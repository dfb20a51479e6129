use vstd::prelude::*;

verus! {

/// Where a relay session stands.
#[derive(Debug, Clone, Copy, PartialEq, Eq, Structural)]
pub enum SessionPhase {
    /// The initialisation message is sent; the server has not acknowledged it.
    AwaitingAck,
    /// The server acknowledged initialisation: requests and subscriptions may start.
    Open,
    /// The session is shut down; nothing more is delivered.
    Closed,
}

/// Errors of the relay transport.
#[derive(Debug, Clone, Copy, PartialEq, Eq, Structural)]
pub enum TransportError {
    /// The session is closed.
    TransportClosed,
    /// The server has not acknowledged initialisation yet.
    NotOpen,
    /// Every correlation id has been used on this session.
    IdsExhausted,
}

/// A message from the relay, as the session reads it.
#[derive(Debug, Clone, PartialEq, Eq)]
pub enum ServerMessage {
    ConnectionAck,
    ConnectionError { payload: String },
    KeepAlive,
    Data { id: u64, payload: String },
    Error { id: u64, payload: String },
    Complete { id: u64 },
}

/// How a single request was resolved.
#[derive(Debug, Clone, PartialEq, Eq)]
pub enum Reply {
    /// The response payload.
    Data(String),
    /// The server reported an error.
    ServerError(String),
    /// The server completed the exchange without a payload.
    NoData,
}

/// How a subscription ended.
#[derive(Debug, Clone, PartialEq, Eq)]
pub enum Ending {
    /// The server completed it.
    Completed,
    /// The server reported an error.
    ServerError(String),
}

/// What the owner of a session does with one inbound message.
#[derive(Debug, Clone, PartialEq, Eq)]
pub enum Dispatch {
    /// The server acknowledged initialisation; the session is open.
    Opened,
    /// The server refused initialisation; the session should be shut down.
    Rejected(String),
    /// Resolve the pending request `id`; its slot is gone.
    Resolve { id: u64, reply: Reply },
    /// Push a payload into the channel of subscription `id`.
    Deliver { id: u64, payload: String },
    /// Close the channel of subscription `id`; it is gone.
    End { id: u64, ending: Ending },
    /// Nothing to do (keep-alive, or an id that is not in flight).
    Ignored,
}

/// What is left to resolve when a session shuts down.
pub struct Closure {
    /// Every request that was pending, to resolve as closed.
    pub requests: Vec<u64>,
    /// Every subscription that was open, to close as closed.
    pub subscriptions: Vec<u64>,
}

/// The abstract state of a session.
pub struct SessionView {
    pub phase: SessionPhase,
    pub next_id: u64,
    pub pending: Set<u64>,
    pub subscriptions: Set<u64>,
}

/// The state of a session after it registers a fresh request or
/// subscription, and the id it hands out.
pub open spec fn register_step(v: SessionView, subscription: bool) -> (SessionView, Result<u64, TransportError>) {
    if v.phase == SessionPhase::Closed {
        (v, Err(TransportError::TransportClosed))
    } else if v.phase == SessionPhase::AwaitingAck {
        (v, Err(TransportError::NotOpen))
    } else if v.next_id == u64::MAX {
        (v, Err(TransportError::IdsExhausted))
    } else if subscription {
        (
            SessionView {
                next_id: (v.next_id + 1) as u64,
                subscriptions: v.subscriptions.insert(v.next_id),
                ..v
            },
            Ok(v.next_id),
        )
    } else {
        (
            SessionView { next_id: (v.next_id + 1) as u64, pending: v.pending.insert(v.next_id), ..v },
            Ok(v.next_id),
        )
    }
}

/// The state of a session after one inbound message, and what to do with it.
pub open spec fn dispatch_step(v: SessionView, m: ServerMessage) -> (SessionView, Dispatch) {
    match m {
        ServerMessage::ConnectionAck => if v.phase == SessionPhase::AwaitingAck {
            (SessionView { phase: SessionPhase::Open, ..v }, Dispatch::Opened)
        } else {
            (v, Dispatch::Ignored)
        },
        ServerMessage::ConnectionError { payload } => (v, Dispatch::Rejected(payload)),
        ServerMessage::KeepAlive => (v, Dispatch::Ignored),
        ServerMessage::Data { id, payload } => if v.pending.contains(id) {
            (
                SessionView { pending: v.pending.remove(id), ..v },
                Dispatch::Resolve { id, reply: Reply::Data(payload) },
            )
        } else if v.subscriptions.contains(id) {
            (v, Dispatch::Deliver { id, payload })
        } else {
            (v, Dispatch::Ignored)
        },
        ServerMessage::Error { id, payload } => if v.pending.contains(id) {
            (
                SessionView { pending: v.pending.remove(id), ..v },
                Dispatch::Resolve { id, reply: Reply::ServerError(payload) },
            )
        } else if v.subscriptions.contains(id) {
            (
                SessionView { subscriptions: v.subscriptions.remove(id), ..v },
                Dispatch::End { id, ending: Ending::ServerError(payload) },
            )
        } else {
            (v, Dispatch::Ignored)
        },
        ServerMessage::Complete { id } => if v.pending.contains(id) {
            (
                SessionView { pending: v.pending.remove(id), ..v },
                Dispatch::Resolve { id, reply: Reply::NoData },
            )
        } else if v.subscriptions.contains(id) {
            (
                SessionView { subscriptions: v.subscriptions.remove(id), ..v },
                Dispatch::End { id, ending: Ending::Completed },
            )
        } else {
            (v, Dispatch::Ignored)
        },
    }
}

/// The state of a session after its consumer cancels subscription `id`, and
/// whether a stop message for `id` goes upstream.
pub open spec fn cancel_step(v: SessionView, id: u64) -> (SessionView, bool) {
    if v.subscriptions.contains(id) {
        (SessionView { subscriptions: v.subscriptions.remove(id), ..v }, true)
    } else {
        (v, false)
    }
}

/// The state of a session once shut down.
pub open spec fn closed_view(v: SessionView) -> SessionView {
    SessionView {
        phase: SessionPhase::Closed,
        pending: Set::empty(),
        subscriptions: Set::empty(),
        ..v
    }
}

/// The ids in flight are apart, below the next id to hand out, and there
/// are none unless the session is open.
pub open spec fn session_valid(v: SessionView) -> bool {
    &&& v.pending.disjoint(v.subscriptions)
    &&& forall|x: u64| #[trigger] v.pending.contains(x) ==> x < v.next_id
    &&& forall|x: u64| #[trigger] v.subscriptions.contains(x) ==> x < v.next_id
    &&& v.phase != SessionPhase::Open ==> v.pending.is_empty() && v.subscriptions.is_empty()
}

/// The correlation id that a message refers to, if any.
pub open spec fn message_id(m: ServerMessage) -> Option<u64> {
    match m {
        ServerMessage::Data { id, .. } => Some(id),
        ServerMessage::Error { id, .. } => Some(id),
        ServerMessage::Complete { id } => Some(id),
        _ => None,
    }
}

/// Two requests in flight at once get distinct ids, and their responses reach
/// the right request whatever order they arrive in (here the second first);
/// each is resolved once, so a late duplicate is ignored.
pub proof fn lemma_responses_out_of_order(v: SessionView, first: String, second: String, late: String)
    requires
        session_valid(v),
        v.phase == SessionPhase::Open,
        v.next_id + 2 <= u64::MAX,
    ensures
        ({
            let (v1, r1) = register_step(v, false);
            let (v2, r2) = register_step(v1, false);
            let (v3, d2) = dispatch_step(v2, ServerMessage::Data { id: r2->Ok_0, payload: second });
            let (v4, d1) = dispatch_step(v3, ServerMessage::Data { id: r1->Ok_0, payload: first });
            &&& r1 is Ok && r2 is Ok
            &&& r1->Ok_0 != r2->Ok_0
            &&& d2 == Dispatch::Resolve { id: r2->Ok_0, reply: Reply::Data(second) }
            &&& d1 == Dispatch::Resolve { id: r1->Ok_0, reply: Reply::Data(first) }
            &&& v4.pending =~= v.pending
            &&& dispatch_step(v4, ServerMessage::Data { id: r1->Ok_0, payload: late }).1 == Dispatch::Ignored
        }),
{
    let (v1, r1) = register_step(v, false);
    let (v2, r2) = register_step(v1, false);
    assert(!v.subscriptions.contains(v.next_id));
    assert(!v.pending.contains(v.next_id));
    assert(!v.pending.contains((v.next_id + 1) as u64));
    assert(!v.subscriptions.contains((v.next_id + 1) as u64));
}

/// Cancelling one subscription changes nothing for any other: every message
/// addressed to another id is dispatched as it would have been.
pub proof fn lemma_cancel_isolated(v: SessionView, a: u64, m: ServerMessage)
    requires
        session_valid(v),
        v.subscriptions.contains(a),
        message_id(m) is Some,
        message_id(m)->0 != a,
    ensures
        cancel_step(v, a).1,
        dispatch_step(cancel_step(v, a).0, m).1 == dispatch_step(v, m).1,
        cancel_step(v, a).0.subscriptions.contains(message_id(m)->0) == v.subscriptions.contains(message_id(m)->0),
{
}

/// Once shut down, a session registers nothing and delivers nothing more.
pub proof fn lemma_closed_session_inert(v: SessionView, subscription: bool, m: ServerMessage)
    ensures
        register_step(closed_view(v), subscription).1 == Err::<u64, TransportError>(TransportError::TransportClosed),
        message_id(m) is Some ==> dispatch_step(closed_view(v), m) == (closed_view(v), Dispatch::Ignored),
{
}

/// The bookkeeping of one relay session: the correlation-id generator, the
/// requests that await their single response and the open subscriptions.
pub struct RelaySession {
    phase: SessionPhase,
    next_id: u64,
    pending: Vec<u64>,
    subscriptions: Vec<u64>,
}

impl View for RelaySession {
    type V = SessionView;

    closed spec fn view(&self) -> SessionView {
        SessionView {
            phase: self.phase,
            next_id: self.next_id,
            pending: self.pending@.to_set(),
            subscriptions: self.subscriptions@.to_set(),
        }
    }
}

/// Removes `id` from a list without duplicates; says whether it was there.
fn remove_id(ids: &mut Vec<u64>, id: u64) -> (found: bool)
    requires
        old(ids)@.no_duplicates(),
    ensures
        found == old(ids)@.contains(id),
        !found ==> final(ids)@ == old(ids)@,
        final(ids)@.no_duplicates(),
        final(ids)@.to_set() == old(ids)@.to_set().remove(id),
        forall|x: u64| final(ids)@.contains(x) ==> old(ids)@.contains(x),
{
    let mut i: usize = 0;
    while i < ids.len()
        invariant
            i <= ids@.len(),
            ids@ == old(ids)@,
            ids@.no_duplicates(),
            forall|k: int| 0 <= k < i ==> ids@[k] != id,
        decreases ids@.len() - i,
    {
        if ids[i] == id {
            let ghost before = ids@;
            ids.remove(i);
            proof {
                before.remove_ensures(i as int);
                assert(before.no_duplicates());
                assert(before[i as int] == id);
                assert forall|x: u64| before.contains(x) && x != id implies #[trigger] ids@.contains(x) by {
                    let k = choose|k: int| 0 <= k < before.len() && before[k] == x;
                    if k < i {
                        assert(ids@[k] == x);
                    } else {
                        assert(k != i);
                        assert(ids@[k - 1] == x);
                    }
                }
                assert forall|x: u64| #[trigger] ids@.contains(x) implies before.contains(x) && x != id by {
                    let k = choose|k: int| 0 <= k < ids@.len() && ids@[k] == x;
                    if k < i {
                        assert(before[k] == x);
                        assert(k != i);
                    } else {
                        assert(before[k + 1] == x);
                        assert(k + 1 != i);
                    }
                }
                assert forall|p: int, q: int| 0 <= p < ids@.len() && 0 <= q < ids@.len() && p != q
                    implies ids@[p] != ids@[q] by {
                    let pp = if p < i { p } else { p + 1 };
                    let qq = if q < i { q } else { q + 1 };
                    assert(ids@[p] == before[pp] && ids@[q] == before[qq]);
                    assert(pp != qq);
                }
                assert(ids@.to_set() =~= before.to_set().remove(id));
            }
            return true;
        }
        i = i + 1;
    }
    assert(ids@.to_set() =~= old(ids)@.to_set().remove(id));
    false
}

impl RelaySession {
    /// Every id in flight was handed out by this session, and each is either
    /// a pending request or an open subscription, never both.
    pub closed spec fn wf(&self) -> bool {
        &&& self.pending@.no_duplicates()
        &&& self.subscriptions@.no_duplicates()
        &&& forall|x: u64| #[trigger] self.pending@.contains(x) ==> x < self.next_id
        &&& forall|x: u64| #[trigger] self.subscriptions@.contains(x) ==> x < self.next_id
        &&& forall|x: u64| self.pending@.contains(x) ==> !(#[trigger] self.subscriptions@.contains(x))
        &&& self.phase != SessionPhase::Open ==> self.pending@.len() == 0 && self.subscriptions@.len()
            == 0
        &&& self.next_id >= 1
    }

    /// A session whose initialisation message has just been sent.
    pub fn new() -> (r: RelaySession)
        ensures
            r.wf(),
            r@.phase == SessionPhase::AwaitingAck,
            r@.next_id == 1,
            r@.pending == Set::<u64>::empty(),
            r@.subscriptions == Set::<u64>::empty(),
    {
        let r = RelaySession { phase: SessionPhase::AwaitingAck, next_id: 1, pending: Vec::new(), subscriptions: Vec::new() };
        assert(r.pending@.to_set() =~= Set::<u64>::empty());
        assert(r.subscriptions@.to_set() =~= Set::<u64>::empty());
        r
    }

    /// The ids in flight stay apart and below the next id to hand out.
    pub proof fn lemma_ids_apart(&self)
        requires
            self.wf(),
        ensures
            session_valid(self@),
    {
        if self.phase != SessionPhase::Open {
            assert(self@.pending =~= Set::<u64>::empty());
            assert(self@.subscriptions =~= Set::<u64>::empty());
        }
    }

    pub fn phase(&self) -> (r: SessionPhase)
        ensures
            r == self@.phase,
    {
        self.phase
    }

    fn register(&mut self, subscription: bool) -> (r: Result<u64, TransportError>)
        requires
            old(self).wf(),
        ensures
            final(self).wf(),
            (final(self)@, r) == register_step(old(self)@, subscription),
    {
        if self.phase == SessionPhase::Closed {
            return Err(TransportError::TransportClosed);
        }
        if self.phase == SessionPhase::AwaitingAck {
            return Err(TransportError::NotOpen);
        }
        if self.next_id == u64::MAX {
            return Err(TransportError::IdsExhausted);
        }
        let id = self.next_id;
        let ghost before = self.pending@;
        let ghost subs_before = self.subscriptions@;
        if subscription {
            self.subscriptions.push(id);
            proof {
                subs_before.lemma_push_to_set_commute(id);
                assert(self.subscriptions@ == subs_before.push(id));
            }
        } else {
            self.pending.push(id);
            proof {
                before.lemma_push_to_set_commute(id);
                assert(self.pending@ == before.push(id));
            }
        }
        self.next_id = id + 1;
        proof {
            assert forall|x: u64| #[trigger] self.pending@.contains(x) implies x < self.next_id by {
                if x != id {
                    assert(before.contains(x));
                }
            }
            assert forall|x: u64| #[trigger] self.subscriptions@.contains(x) implies x < self.next_id by {
                if x != id {
                    assert(subs_before.contains(x));
                }
            }
            assert forall|x: u64| self.pending@.contains(x) implies !(#[trigger] self.subscriptions@.contains(x)) by {
                assert(self.pending@.to_set().contains(x));
                assert(self.subscriptions@.to_set().contains(x) == self.subscriptions@.contains(x));
                if subscription {
                    assert(before.contains(x));
                    assert(x != id);
                } else if x != id {
                    assert(before.contains(x));
                } else {
                    assert(!subs_before.contains(id));
                }
            }
            assert(self.pending@.no_duplicates()) by {
                if !subscription {
                    assert(!before.contains(id));
                }
            }
            assert(self.subscriptions@.no_duplicates()) by {
                if subscription {
                    assert(!subs_before.contains(id));
                }
            }
        }
        Ok(id)
    }

    /// Registers a request that awaits a single response; the id goes into its
    /// start message.
    pub fn request(&mut self) -> (r: Result<u64, TransportError>)
        requires
            old(self).wf(),
        ensures
            final(self).wf(),
            (final(self)@, r) == register_step(old(self)@, false),
    {
        self.register(false)
    }

    /// Registers a subscription; the id goes into its start message.
    pub fn subscribe(&mut self) -> (r: Result<u64, TransportError>)
        requires
            old(self).wf(),
        ensures
            final(self).wf(),
            (final(self)@, r) == register_step(old(self)@, true),
    {
        self.register(true)
    }

    proof fn lemma_removed_wf(&self, old_s: RelaySession)
        requires
            old_s.wf(),
            self.phase == old_s.phase,
            self.next_id == old_s.next_id,
            self.pending@.no_duplicates(),
            self.subscriptions@.no_duplicates(),
            forall|x: u64| self.pending@.contains(x) ==> old_s.pending@.contains(x),
            forall|x: u64| self.subscriptions@.contains(x) ==> old_s.subscriptions@.contains(x),
        ensures
            self.wf(),
    {
        assert forall|x: u64| #[trigger] self.pending@.contains(x) implies x < self.next_id by {
            assert(old_s.pending@.contains(x));
        }
        assert forall|x: u64| #[trigger] self.subscriptions@.contains(x) implies x < self.next_id by {
            assert(old_s.subscriptions@.contains(x));
        }
        assert forall|x: u64| self.pending@.contains(x) implies !(#[trigger] self.subscriptions@.contains(x)) by {
            assert(old_s.pending@.contains(x));
        }
        if self.phase != SessionPhase::Open {
            if self.pending@.len() > 0 {
                assert(old_s.pending@.contains(self.pending@[0]));
            }
            if self.subscriptions@.len() > 0 {
                assert(old_s.subscriptions@.contains(self.subscriptions@[0]));
            }
        }
    }

    /// Dispatches one inbound message by its type and correlation id.
    pub fn on_message(&mut self, m: ServerMessage) -> (r: Dispatch)
        requires
            old(self).wf(),
        ensures
            final(self).wf(),
            (final(self)@, r) == dispatch_step(old(self)@, m),
    {
        let ghost old_s = *self;
        match m {
            ServerMessage::ConnectionAck => {
                if self.phase == SessionPhase::AwaitingAck {
                    self.phase = SessionPhase::Open;
                    assert(self@ == (SessionView { phase: SessionPhase::Open, ..old_s@ }));
                    Dispatch::Opened
                } else {
                    Dispatch::Ignored
                }
            },
            ServerMessage::ConnectionError { payload } => Dispatch::Rejected(payload),
            ServerMessage::KeepAlive => Dispatch::Ignored,
            ServerMessage::Data { id, payload } => {
                if remove_id(&mut self.pending, id) {
                    proof {
                        self.lemma_removed_wf(old_s);
                    }
                    Dispatch::Resolve { id, reply: Reply::Data(payload) }
                } else if contains_id(&self.subscriptions, id) {
                    Dispatch::Deliver { id, payload }
                } else {
                    Dispatch::Ignored
                }
            },
            ServerMessage::Error { id, payload } => {
                if remove_id(&mut self.pending, id) {
                    proof {
                        self.lemma_removed_wf(old_s);
                    }
                    Dispatch::Resolve { id, reply: Reply::ServerError(payload) }
                } else if remove_id(&mut self.subscriptions, id) {
                    proof {
                        self.lemma_removed_wf(old_s);
                    }
                    Dispatch::End { id, ending: Ending::ServerError(payload) }
                } else {
                    Dispatch::Ignored
                }
            },
            ServerMessage::Complete { id } => {
                if remove_id(&mut self.pending, id) {
                    proof {
                        self.lemma_removed_wf(old_s);
                    }
                    Dispatch::Resolve { id, reply: Reply::NoData }
                } else if remove_id(&mut self.subscriptions, id) {
                    proof {
                        self.lemma_removed_wf(old_s);
                    }
                    Dispatch::End { id, ending: Ending::Completed }
                } else {
                    Dispatch::Ignored
                }
            },
        }
    }

    /// Cancels subscription `id` on behalf of its consumer; says whether a stop
    /// message for `id` must go upstream.
    pub fn cancel(&mut self, id: u64) -> (r: bool)
        requires
            old(self).wf(),
        ensures
            final(self).wf(),
            (final(self)@, r) == cancel_step(old(self)@, id),
    {
        let ghost old_s = *self;
        let found = remove_id(&mut self.subscriptions, id);
        proof {
            self.lemma_removed_wf(old_s);
            assert(old_s@.subscriptions.contains(id) == old_s.subscriptions@.contains(id));
        }
        found
    }

    /// Shuts the session down, on request or because the socket closed or a
    /// send failed; hands back every request and subscription still in
    /// flight, to resolve with a transport-closed outcome.
    pub fn shutdown(&mut self) -> (r: Closure)
        requires
            old(self).wf(),
        ensures
            final(self).wf(),
            final(self)@ == closed_view(old(self)@),
            r.requests@.no_duplicates(),
            r.subscriptions@.no_duplicates(),
            r.requests@.to_set() == old(self)@.pending,
            r.subscriptions@.to_set() == old(self)@.subscriptions,
    {
        let mut requests: Vec<u64> = Vec::new();
        let mut subscriptions: Vec<u64> = Vec::new();
        core::mem::swap(&mut requests, &mut self.pending);
        core::mem::swap(&mut subscriptions, &mut self.subscriptions);
        self.phase = SessionPhase::Closed;
        assert(self.pending@.to_set() =~= Set::<u64>::empty());
        assert(self.subscriptions@.to_set() =~= Set::<u64>::empty());
        Closure { requests, subscriptions }
    }
}

/// Whether `id` is in the list.
fn contains_id(ids: &Vec<u64>, id: u64) -> (r: bool)
    ensures
        r == ids@.contains(id),
{
    let mut i: usize = 0;
    while i < ids.len()
        invariant
            i <= ids@.len(),
            forall|k: int| 0 <= k < i ==> ids@[k] != id,
        decreases ids@.len() - i,
    {
        if ids[i] == id {
            return true;
        }
        i = i + 1;
    }
    false
}

} // verus!
