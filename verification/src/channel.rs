//! Ingestion: from a raw provider event to the domain event and to what is
//! done with it, and the broadcast channel that every event flows through.

use crate::event::BotOnlineEvent;
use crate::event::Event;
use crate::event::EventInner;
use crate::event::GroupMessageEvent;
use crate::event::RawEvent;
use crate::registry::Bot;
use crate::registry::registry_wf;
use crate::registry::BotRegistry;
use std::sync::Arc;
use tokio::sync::broadcast::Sender;
use vstd::prelude::*;

verus! {

/// How many events the broadcast channel keeps for subscribers that are behind.
pub const HUB_CAPACITY: usize = 128;

/// The sending half of tokio's broadcast channel. Its state is shared with
/// every receiver and with other tasks, so nothing is modelled of it.
#[verifier::external_type_specification]
#[verifier::external_body]
#[verifier::reject_recursive_types(T)]
pub struct ExSender<T>(Sender<T>);

/// The broadcast hub: the sending half of the channel, with the number of
/// events that the channel was opened for.
#[verifier::reject_recursive_types(T)]
pub struct Hub<T> {
    sender: Sender<T>,
    capacity: Ghost<nat>,
}

impl<T> Hub<T> {
    /// How many events the channel was opened for. The channel keeps at
    /// least that many for a subscriber that is behind.
    pub closed spec fn capacity(&self) -> nat {
        self.capacity@
    }

    /// The sending half that the hub holds.
    pub closed spec fn channel(&self) -> Sender<T> {
        self.sender
    }

    /// The sending half, to publish on and to subscribe from.
    pub fn sender(&self) -> (sender: &Sender<T>)
        ensures
            *sender == self.channel(),
    {
        &self.sender
    }
}

/// Trusted: `tokio::sync::broadcast::channel`, of which the sending half is
/// kept. tokio panics on a capacity of zero or above `usize::MAX / 2`, which
/// the precondition leaves out. The hub records the capacity that was asked
/// for; tokio rounds it up to a power of two and keeps that many events.
#[verifier::external_body]
fn open_channel<T: Clone>(capacity: usize) -> (hub: Hub<T>)
    requires
        0 < capacity <= usize::MAX / 2,
    ensures
        hub.capacity() == capacity,
{
    Hub { sender: tokio::sync::broadcast::channel(capacity).0, capacity: Ghost(capacity as nat) }
}

/// Trusted: `tokio::sync::broadcast::Sender::send`. It fails only when no
/// receiver is subscribed, and then hands the value back; on success it
/// reports the number of subscribed receivers, which is at least one.
#[verifier::external_body]
fn send<T>(sender: &Sender<T>, value: T) -> (outcome: Result<usize, T>)
    ensures
        match outcome {
            Ok(receivers) => receivers >= 1,
            Err(back) => back == value,
        },
{
    match sender.send(value) {
        Ok(receivers) => Ok(receivers),
        Err(refused) => Err(refused.0),
    }
}

/// Opens the hub that all normalized events flow through, for
/// `HUB_CAPACITY` events. The application calls this once and shares the
/// sender.
pub fn global_sender<M, P>() -> (hub: Hub<Event<M, P>>)
    ensures
        hub.capacity() == HUB_CAPACITY,
{
    open_channel(HUB_CAPACITY)
}

/// What a send on the channel came to: the event, when nobody was subscribed
/// to take it.
pub fn undelivered<M, P>(outcome: Result<usize, Event<M, P>>) -> (dropped: Option<Event<M, P>>)
    ensures
        dropped == match outcome {
            Ok(_) => None::<Event<M, P>>,
            Err(event) => Some(event),
        },
{
    match outcome {
        Ok(_) => None,
        Err(event) => Some(event),
    }
}

/// Publishes `event` to every current subscriber. With no subscriber the
/// event is dropped and handed back; that is not an error.
pub fn publish<M, P>(sender: &Sender<Event<M, P>>, event: Event<M, P>) -> (dropped: Option<
    Event<M, P>,
>)
    ensures
        dropped matches Some(back) ==> back == event,
{
    undelivered(send(sender, event))
}

/// One side effect of a produced event, for the caller to start.
pub enum Action<M, P> {
    /// Hand the event to the worker, on a task of its own.
    Dispatch(Event<M, P>),
    /// Publish the event on the broadcast channel.
    Publish(Event<M, P>),
}

/// The account of the connection that a raw event came in on, where the
/// event names one.
pub open spec fn originating_bot<M, P>(raw: RawEvent<M, P>) -> Option<i64> {
    match raw {
        RawEvent::Login(id) => Some(id),
        RawEvent::GroupMessage(message) => Some(message.bot_id),
        RawEvent::Other(_) => None,
    }
}

/// Whether the connection that `raw` came in on is registered; an event
/// that names no connection needs none.
pub open spec fn bot_resolved<M, P>(raw: RawEvent<M, P>, bots: Map<i64, Arc<Bot>>) -> bool {
    originating_bot(raw) matches Some(id) ==> bots.contains_key(id)
}

/// The account that `raw` came in on, where no connection is registered
/// for it.
pub open spec fn missing_bot<M, P>(raw: RawEvent<M, P>, bots: Map<i64, Arc<Bot>>) -> Option<i64> {
    match originating_bot(raw) {
        Some(id) => if bots.contains_key(id) {
            None
        } else {
            Some(id)
        },
        None => None,
    }
}

/// The domain event that `raw` gives rise to, if any.
pub open spec fn normalized<M, P>(raw: RawEvent<M, P>, bots: Map<i64, Arc<Bot>>) -> Option<
    Event<M, P>,
> {
    match raw {
        RawEvent::Login(id) => if bots.contains_key(id) {
            Some(Event::BotOnlineEvent(BotOnlineEvent { bot: bots[id] }))
        } else {
            None
        },
        RawEvent::GroupMessage(message) => {
            let code = message.inner.group_code;
            if !bots.contains_key(message.bot_id) {
                None
            } else if message.bot_id == message.inner.from_uin {
                None
            } else if !bots[message.bot_id].groups().contains_key(code) {
                None
            } else {
                Some(
                    Event::GroupMessageEvent(
                        GroupMessageEvent {
                            group: bots[message.bot_id].groups()[code],
                            message: message.inner,
                        },
                    ),
                )
            }
        },
        RawEvent::Other(payload) => Some(Event::Unknown(EventInner { inner: Arc::new(payload) })),
    }
}

/// What is started for a produced event, in this order: the worker first,
/// then the broadcast. Nothing is started where no event was produced.
pub open spec fn fan_out<M, P>(produced: Option<Event<M, P>>) -> Seq<Action<M, P>> {
    match produced {
        Some(event) => seq![Action::Dispatch(event), Action::Publish(event)],
        None => Seq::empty(),
    }
}

/// Tests what `normalize` and `handle` ask of their caller: gives the
/// account that `raw` came in on where no connection is registered for it,
/// and `None` where the event can be handled.
pub fn unresolved_bot<M, P>(raw: &RawEvent<M, P>, bots: &BotRegistry) -> (missing: Option<i64>)
    ensures
        missing == missing_bot(*raw, bots@),
        missing is None <==> bot_resolved(*raw, bots@),
{
    let id = match raw {
        RawEvent::Login(id) => *id,
        RawEvent::GroupMessage(message) => message.bot_id,
        RawEvent::Other(_) => {
            return None;
        },
    };
    match bots.get(id) {
        Some(_) => None,
        None => Some(id),
    }
}

/// Turns a raw event into its domain event. The connection that the event
/// came in on is resolved first; that it is registered is an invariant of
/// the application, which the caller answers for. A bot's own message and a
/// message in a group that the bot does not track are discarded.
pub fn normalize<M, P>(raw: RawEvent<M, P>, bots: &BotRegistry) -> (produced: Option<Event<M, P>>)
    requires
        bot_resolved(raw, bots@),
    ensures
        produced == normalized(raw, bots@),
{
    match raw {
        RawEvent::Login(id) => {
            let bot = bots.get(id).unwrap();
            Some(Event::BotOnlineEvent(BotOnlineEvent::from(bot)))
        },
        RawEvent::GroupMessage(message) => {
            let bot = bots.get(message.bot_id).unwrap();
            if message.bot_id == message.inner.from_uin {
                return None;
            }
            match bot.find_group(message.inner.group_code) {
                None => None,
                Some(group) => Some(
                    Event::GroupMessageEvent(GroupMessageEvent::from(group, message.inner)),
                ),
            }
        },
        RawEvent::Other(payload) => Some(Event::Unknown(EventInner::from(payload))),
    }
}

/// The adapter between the provider's raw events and the rest of the system.
pub struct GlobalEventBroadcastHandler;

impl GlobalEventBroadcastHandler {
    /// Handles one raw event: normalizes it and says what the caller has to
    /// start for it. For a produced event that is a dispatch to the worker
    /// with a duplicate of the event, then the broadcast of the event; for a
    /// discarded one it is nothing. An event from an unregistered connection
    /// is not handled at all: the precondition leaves it out.
    pub fn handle<M, P>(&self, event: RawEvent<M, P>, bots: &BotRegistry) -> (actions: Vec<
        Action<M, P>,
    >)
        requires
            bot_resolved(event, bots@),
        ensures
            actions@ == fan_out(normalized(event, bots@)),
    {
        let mut actions: Vec<Action<M, P>> = Vec::new();
        match normalize(event, bots) {
            None => {},
            Some(produced) => {
                let duplicate = produced.clone();
                actions.push(Action::Dispatch(duplicate));
                actions.push(Action::Publish(produced));
            },
        }
        actions
    }
}

/// With a well-formed registry a produced event names what the raw event
/// named: an online event the account that logged in, a group message event
/// the group that the message was sent in.
pub proof fn lemma_event_keeps_identifiers<M, P>(raw: RawEvent<M, P>, bots: Map<i64, Arc<Bot>>)
    requires
        registry_wf(bots),
    ensures
        match normalized(raw, bots) {
            Some(Event::BotOnlineEvent(online)) => raw == RawEvent::<M, P>::Login(
                online.bot.spec_id(),
            ),
            Some(Event::GroupMessageEvent(event)) => raw matches RawEvent::GroupMessage(message)
                && event.message == message.inner && event.group.code == message.inner.group_code,
            Some(Event::Unknown(wrapped)) => raw == RawEvent::<M, P>::Other(*wrapped.inner),
            None => raw !is Other,
        },
{
}

/// A bot's own message never produces an event.
pub proof fn lemma_self_echo_is_suppressed<M, P>(raw: RawEvent<M, P>, bots: Map<i64, Arc<Bot>>)
    requires
        raw matches RawEvent::GroupMessage(message) && message.inner.from_uin == message.bot_id,
    ensures
        normalized(raw, bots) is None,
        fan_out(normalized(raw, bots)).len() == 0,
{
}

/// A message in a group that the receiving bot does not track never
/// produces an event.
pub proof fn lemma_untracked_group_is_discarded<M, P>(
    raw: RawEvent<M, P>,
    bots: Map<i64, Arc<Bot>>,
)
    requires
        raw matches RawEvent::GroupMessage(message) && (bots.contains_key(message.bot_id)
            ==> !bots[message.bot_id].groups().contains_key(message.inner.group_code)),
    ensures
        normalized(raw, bots) is None,
        fan_out(normalized(raw, bots)).len() == 0,
{
}

} // verus!
