use vstd::prelude::*;
use std::collections::VecDeque;

verus! {

/// What the message-0 exchange reports to the swap: a message 0 received from Bob.
#[derive(Clone, Debug, PartialEq, Eq)]
pub enum OutEvent<M> {
    Msg(M),
}

/// What happened on the request-response channel of message 0, as the exchange
/// reads it: Bob's request carries his message 0 (`M`).
#[derive(Clone, Debug, PartialEq, Eq)]
pub enum InboundEvent<M> {
    /// Bob sent a request holding his message 0.
    Message0Request(M),
    /// Bob sent a request of another kind.
    OtherRequest,
    /// A response arrived; Alice only answers on this channel.
    Response,
    /// Receiving a request or sending a response failed.
    InboundFailure,
    /// Sending a request or receiving a response failed.
    OutboundFailure,
}

/// What the network layer does after an inbound event.
#[derive(Clone, Copy, Debug, PartialEq, Eq)]
pub enum Reaction {
    /// Answer the request with Alice's message 0, computed from the stored state.
    SendResponse,
    /// Nothing to do.
    Ignore,
    /// Report the inbound failure.
    ReportInboundFailure,
    /// Report the outbound failure.
    ReportOutboundFailure,
}

/// The state was already set.
#[derive(Clone, Copy, Debug, PartialEq, Eq)]
pub enum SetStateError {
    AlreadySet,
}

impl SetStateError {
    /// The message that describes the error.
    pub fn message(&self) -> (s: String)
        ensures
            s@ == "Trying to set state a second time"@,
    {
        String::from_str("Trying to set state a second time")
    }
}

/// The state after `set_state(s)` on a stored state `st`: the first state set is kept.
pub open spec fn state_after_set<S>(st: Option<S>, s: S) -> Option<S> {
    if st is Some {
        st
    } else {
        Some(s)
    }
}

/// The pending events after an inbound event: a message-0 request is queued last.
pub open spec fn events_after_inject<M>(q: Seq<OutEvent<M>>, event: InboundEvent<M>) -> Seq<
    OutEvent<M>,
> {
    match event {
        InboundEvent::Message0Request(m) => q.push(OutEvent::Msg(m)),
        _ => q,
    }
}

/// The reaction to an inbound event.
pub open spec fn reaction_to<M>(event: InboundEvent<M>) -> Reaction {
    match event {
        InboundEvent::Message0Request(_) => Reaction::SendResponse,
        InboundEvent::InboundFailure => Reaction::ReportInboundFailure,
        InboundEvent::OutboundFailure => Reaction::ReportOutboundFailure,
        _ => Reaction::Ignore,
    }
}

/// The event a poll hands out: the oldest pending one.
pub open spec fn polled<M>(q: Seq<OutEvent<M>>) -> Option<OutEvent<M>> {
    if q.len() == 0 {
        None
    } else {
        Some(q[0])
    }
}

/// The pending events after a poll.
pub open spec fn events_after_poll<M>(q: Seq<OutEvent<M>>) -> Seq<OutEvent<M>> {
    if q.len() == 0 {
        q
    } else {
        q.drop_first()
    }
}

/// The message-0 exchange on Alice's side: it answers Bob's message 0 with her own,
/// computed from her state `S`, and hands Bob's message 0 to the swap.
pub struct Message0<S, M> {
    events: VecDeque<OutEvent<M>>,
    state: Option<S>,
}

impl<S, M> Message0<S, M> {
    /// The events not yet handed out, oldest first.
    pub closed spec fn events_of(&self) -> Seq<OutEvent<M>> {
        self.events@
    }

    /// The stored state.
    pub closed spec fn state_of(&self) -> Option<S> {
        self.state
    }

    /// Stores Alice's state; it can be set once only.
    pub fn set_state(&mut self, state: S) -> (r: Result<(), SetStateError>)
        ensures
            r is Ok <==> old(self).state_of() is None,
            r matches Err(e) ==> e == SetStateError::AlreadySet,
            final(self).state_of() == state_after_set(old(self).state_of(), state),
            final(self).events_of() == old(self).events_of(),
            old(self).state_of() is Some ==> final(self).state_of() == old(self).state_of(),
            old(self).state_of() is None ==> final(self).state_of() == Some(state),
    {
        if self.state.is_some() {
            return Err(SetStateError::AlreadySet);
        }
        self.state = Some(state);
        Ok(())
    }

    /// The stored state.
    pub fn state(&self) -> (r: Option<&S>)
        ensures
            r is Some <==> self.state_of() is Some,
            r matches Some(s) ==> *s == self.state_of()->0,
    {
        match &self.state {
            Some(s) => Some(s),
            None => None,
        }
    }

    /// Hands out the oldest pending event, if any.
    pub fn poll(&mut self) -> (r: Option<OutEvent<M>>)
        ensures
            r == polled(old(self).events_of()),
            final(self).events_of() == events_after_poll(old(self).events_of()),
            final(self).state_of() == old(self).state_of(),
            old(self).events_of().len() == 0 ==> r is None && final(self).events_of() == old(self).events_of(),
            old(self).events_of().len() > 0 ==> r == Some(old(self).events_of()[0]) && final(self).events_of()
                =~= old(self).events_of().subrange(1, old(self).events_of().len() as int),
    {
        let r = self.events.pop_front();
        proof {
            if old(self).events_of().len() > 0 {
                assert(self.events@ =~= old(self).events_of().drop_first());
            }
        }
        r
    }

    /// Takes an event of the request-response channel: a message-0 request is to be
    /// answered and its message queued for the swap; a request of another kind is
    /// ignored; failures are to be reported. It is an error to receive a message-0
    /// request before the state is set, and to receive a response at all.
    pub fn inject_event(&mut self, event: InboundEvent<M>) -> (r: Reaction)
        requires
            event is Message0Request ==> old(self).state_of() is Some,
            !(event is Response),
        ensures
            r == reaction_to(event),
            final(self).events_of() == events_after_inject(old(self).events_of(), event),
            final(self).state_of() == old(self).state_of(),
            event matches InboundEvent::Message0Request(m) ==> r == Reaction::SendResponse && final(self).events_of() == old(self).events_of().push(OutEvent::Msg(m)),
            event == InboundEvent::<M>::OtherRequest ==> r == Reaction::Ignore && final(self).events_of()
                == old(self).events_of(),
            event == InboundEvent::<M>::InboundFailure ==> r == Reaction::ReportInboundFailure && final(self).events_of() == old(self).events_of(),
            event == InboundEvent::<M>::OutboundFailure ==> r == Reaction::ReportOutboundFailure && final(self).events_of() == old(self).events_of(),
    {
        match event {
            InboundEvent::Message0Request(msg) => {
                self.events.push_back(OutEvent::Msg(msg));
                Reaction::SendResponse
            },
            InboundEvent::OtherRequest => Reaction::Ignore,
            InboundEvent::Response => {
                proof {
                    assert(false);
                }
                Reaction::Ignore
            },
            InboundEvent::InboundFailure => Reaction::ReportInboundFailure,
            InboundEvent::OutboundFailure => Reaction::ReportOutboundFailure,
        }
    }
}

impl<S, M> Default for Message0<S, M> {
    /// No pending event and no state.
    fn default() -> (r: Self)
        ensures
            r.events_of() == Seq::<OutEvent<M>>::empty(),
            r.state_of() is None,
    {
        Message0 { events: VecDeque::new(), state: None }
    }
}

/// The state can be set once only: setting it on a fresh exchange succeeds and keeps it,
/// and any later attempt fails and changes nothing.
pub proof fn lemma_state_set_once<S>(first: S, later: S)
    ensures
        state_after_set(None, first) == Some(first),
        state_after_set(state_after_set(None, first), later) == Some(first),
{
}

/// Bob's messages reach the swap in the order they arrived, each once: a poll after a
/// request hands out the oldest pending message (the new one if none was pending), and
/// polling commutes with queueing a later request.
pub proof fn lemma_messages_delivered_in_order<M>(q: Seq<OutEvent<M>>, m: M)
    ensures
        polled(events_after_inject(q, InboundEvent::Message0Request(m))) == if q.len() == 0 {
            Some(OutEvent::Msg(m))
        } else {
            Some(q[0])
        },
        q.len() > 0 ==> events_after_poll(events_after_inject(q, InboundEvent::Message0Request(m)))
            == events_after_inject(events_after_poll(q), InboundEvent::Message0Request(m)),
        q.len() == 0 ==> events_after_poll(events_after_inject(q, InboundEvent::Message0Request(m)))
            == q,
        polled(Seq::<OutEvent<M>>::empty()) is None,
{
    let q2 = q.push(OutEvent::Msg(m));
    if q.len() > 0 {
        assert(q2.drop_first() =~= q.drop_first().push(OutEvent::Msg(m)));
    } else {
        assert(q2.drop_first() =~= q);
    }
}

/// Events other than a message-0 request queue nothing for the swap.
pub proof fn lemma_only_requests_are_delivered<M>(q: Seq<OutEvent<M>>, event: InboundEvent<M>)
    ensures
        !(event is Message0Request) ==> events_after_inject(q, event) == q,
        event is Message0Request ==> events_after_inject(q, event).len() == q.len() + 1,
{
}

/// A call on the message-0 exchange, as far as it bears on the stored state.
#[derive(Clone, Debug, PartialEq, Eq)]
pub enum Message0Call<S, M> {
    SetState(S),
    InjectEvent(InboundEvent<M>),
    Poll,
}

/// The stored state after one call, as the calls' contracts fix it.
pub open spec fn state_after_call<S, M>(st: Option<S>, call: Message0Call<S, M>) -> Option<S> {
    match call {
        Message0Call::SetState(s) => state_after_set(st, s),
        _ => st,
    }
}

/// The stored state after a sequence of calls, made in order.
pub open spec fn state_after_calls<S, M>(st: Option<S>, calls: Seq<Message0Call<S, M>>) -> Option<S>
    decreases calls.len(),
{
    if calls.len() == 0 {
        st
    } else {
        state_after_calls(state_after_call(st, calls[0]), calls.drop_first())
    }
}

proof fn lemma_set_state_stays<S, M>(s1: S, calls: Seq<Message0Call<S, M>>)
    ensures
        state_after_calls(Some(s1), calls) == Some(s1),
    decreases calls.len(),
{
    if calls.len() > 0 {
        lemma_set_state_stays(s1, calls.drop_first());
    }
}

/// Once Alice's state is set, it never changes again: after a successful
/// `set_state(s1)`, whatever calls of `set_state`, `inject_event` and `poll` follow, the
/// stored state is `s1` after each of them, and every later `set_state` fails.
pub proof fn lemma_state_never_changes_once_set<S, M>(s1: S, calls: Seq<Message0Call<S, M>>)
    ensures
        state_after_call(None::<S>, Message0Call::<S, M>::SetState(s1)) == Some(s1),
        forall|i: int|
            0 <= i <= calls.len() ==> #[trigger] state_after_calls(Some(s1), calls.take(i)) == Some(
                s1,
            ),
        forall|i: int|
            0 <= i < calls.len() && #[trigger] calls[i] is SetState ==> state_after_calls(
                Some(s1),
                calls.take(i),
            ) is Some,
{
    assert forall|i: int| 0 <= i <= calls.len() implies #[trigger] state_after_calls(
        Some(s1),
        calls.take(i),
    ) == Some(s1) by {
        lemma_set_state_stays(s1, calls.take(i));
    }
    assert forall|i: int| 0 <= i < calls.len() && #[trigger] calls[i] is SetState implies state_after_calls(
        Some(s1),
        calls.take(i),
    ) is Some by {
        lemma_set_state_stays(s1, calls.take(i));
    }
}

} // verus!
