use vstd::prelude::*;
use vstd::hash_map::StringHashMap;

verus! {

/// Error reported when a session can no longer be written to.
#[derive(Debug, Clone, Copy, PartialEq, Eq)]
pub struct SendError;

/// How an attempt to forward a message to a computer ended.
#[derive(Debug, Clone, Copy, PartialEq, Eq)]
pub enum RouteOutcome {
    Delivered,
    NotConnected,
    SendFailed,
}

/// What routing a text to a computer asks for: nothing (no session is
/// registered), or sending `text` over `session`.
pub enum RouteStep<S> {
    NotConnected,
    Deliver { session: S, text: String },
}

/// What `begin_route` returns for a registry whose sessions are `sessions`.
pub open spec fn route_step_for<S: Clone>(
    sessions: Map<Seq<char>, S>,
    computer_id: Seq<char>,
    text: Seq<char>,
    step: RouteStep<S>,
) -> bool {
    match step {
        RouteStep::NotConnected => !sessions.contains_key(computer_id),
        RouteStep::Deliver { session, text: sent } => {
            &&& sessions.contains_key(computer_id)
            &&& cloned(sessions[computer_id], session)
            &&& sent@ == text
        },
    }
}

/// The sessions after a send over the session of `computer_id` ended with
/// `sent`: a failed session is dropped, a working one is kept.
pub open spec fn sessions_after_send<S>(
    sessions: Map<Seq<char>, S>,
    computer_id: Seq<char>,
    sent: Result<(), SendError>,
) -> Map<Seq<char>, S> {
    match sent {
        Ok(()) => sessions,
        Err(_) => sessions.remove(computer_id),
    }
}

/// The outcome reported for a send that ended with `sent`.
pub open spec fn outcome_of_send(sent: Result<(), SendError>) -> RouteOutcome {
    match sent {
        Ok(()) => RouteOutcome::Delivered,
        Err(_) => RouteOutcome::SendFailed,
    }
}

/// Once a computer's session is registered, a text routed to that computer
/// goes verbatim to (a clone of) that session.
pub proof fn lemma_route_reaches_registered<S: Clone>(
    sessions: Map<Seq<char>, S>,
    computer_id: Seq<char>,
    session: S,
    text: Seq<char>,
    step: RouteStep<S>,
)
    requires
        route_step_for(sessions.insert(computer_id, session), computer_id, text, step),
    ensures
        step matches RouteStep::Deliver { session: s, text: t } && cloned(session, s) && t@
            == text,
{
}

/// After a send to a computer fails, that computer is no longer connected:
/// the next text routed to it is not delivered.
pub proof fn lemma_failed_send_disconnects<S: Clone>(
    sessions: Map<Seq<char>, S>,
    computer_id: Seq<char>,
    error: SendError,
    text: Seq<char>,
    step: RouteStep<S>,
)
    requires
        route_step_for(
            sessions_after_send(sessions, computer_id, Err(error)),
            computer_id,
            text,
            step,
        ),
    ensures
        step is NotConnected,
{
}

/// A successful send leaves every registration as it was.
pub proof fn lemma_delivery_keeps_sessions<S>(sessions: Map<Seq<char>, S>, computer_id: Seq<char>)
    ensures
        sessions_after_send(sessions, computer_id, Ok(())) == sessions,
{
}

/// After a computer unregisters (it disconnected), nothing routed to it is
/// delivered: no stale session is used.
pub proof fn lemma_unregistered_gets_nothing<S: Clone>(
    sessions: Map<Seq<char>, S>,
    computer_id: Seq<char>,
    text: Seq<char>,
    step: RouteStep<S>,
)
    requires
        route_step_for(sessions.remove(computer_id), computer_id, text, step),
    ensures
        step is NotConnected,
{
}

/// Registering or unregistering one computer does not change where texts
/// for any other computer go.
pub proof fn lemma_registrations_are_separate<S: Clone>(
    sessions: Map<Seq<char>, S>,
    computer_id: Seq<char>,
    session: S,
    other: Seq<char>,
    text: Seq<char>,
    step: RouteStep<S>,
)
    requires
        other != computer_id,
    ensures
        route_step_for(sessions.insert(computer_id, session), other, text, step)
            == route_step_for(sessions, other, text, step),
        route_step_for(sessions.remove(computer_id), other, text, step) == route_step_for(
            sessions,
            other,
            text,
            step,
        ),
{
    assert(sessions.insert(computer_id, session).contains_key(other) == sessions.contains_key(other));
    assert(sessions.remove(computer_id).contains_key(other) == sessions.contains_key(other));
}

/// Table of connected consumer sessions, keyed by computer id.
#[verifier::reject_recursive_types(S)]
pub struct Registry<S> {
    sessions: StringHashMap<S>,
}

impl<S> View for Registry<S> {
    type V = Map<Seq<char>, S>;

    closed spec fn view(&self) -> Map<Seq<char>, S> {
        self.sessions@
    }
}

impl<S> Default for Registry<S> {
    fn default() -> (registry: Self)
        ensures
            registry@ == Map::<Seq<char>, S>::empty(),
    {
        Registry { sessions: StringHashMap::new() }
    }
}

impl<S: Clone> Registry<S> {
    /// An empty registry.
    pub fn new() -> (registry: Self)
        ensures
            registry@ == Map::<Seq<char>, S>::empty(),
    {
        Registry { sessions: StringHashMap::new() }
    }

    /// Records `session` as the session of `computer_id`, replacing any
    /// earlier one.
    pub fn register(&mut self, computer_id: String, session: S)
        ensures
            final(self)@ == old(self)@.insert(computer_id@, session),
    {
        self.sessions.insert(computer_id, session);
    }

    /// Forgets the session of `computer_id`, if there is one.
    pub fn unregister(&mut self, computer_id: &str)
        ensures
            final(self)@ == old(self)@.remove(computer_id@),
    {
        self.sessions.remove(computer_id);
    }

    /// A clone of the session registered for `computer_id`.
    fn get(&self, computer_id: &str) -> (session: Option<S>)
        ensures
            match session {
                Some(s) => self@.contains_key(computer_id@) && cloned(self@[computer_id@], s),
                None => !self@.contains_key(computer_id@),
            },
    {
        match self.sessions.get(computer_id) {
            Some(s) => Some(s.clone()),
            None => None,
        }
    }

    /// First half of forwarding `text` verbatim to `computer_id`: finds the
    /// session to send it over.
    pub fn begin_route(&self, computer_id: &str, text: &str) -> (step: RouteStep<S>)
        ensures
            route_step_for(self@, computer_id@, text@, step),
    {
        match self.get(computer_id) {
            None => RouteStep::NotConnected,
            Some(session) => RouteStep::Deliver { session, text: text.to_owned() },
        }
    }

    /// Second half of forwarding to `computer_id`: the send ended with
    /// `sent`. After a failed send, whatever session is registered under
    /// `computer_id` at that moment is removed: sessions carry no identity,
    /// so one registered anew since `begin_route` goes as well.
    pub fn finish_route(&mut self, computer_id: &str, sent: Result<(), SendError>) -> (outcome:
        RouteOutcome)
        ensures
            final(self)@ == sessions_after_send(old(self)@, computer_id@, sent),
            outcome == outcome_of_send(sent),
    {
        match sent {
            Ok(()) => RouteOutcome::Delivered,
            Err(_) => {
                self.unregister(computer_id);
                RouteOutcome::SendFailed
            },
        }
    }
}

} // verus!
