//! The domain event model: what a normalized event carries.

use crate::registry::share;
use crate::registry::Bot;
use crate::registry::Group;
use std::sync::Arc;
use vstd::prelude::*;

pub mod listener;

verus! {

/// One message as it arrived in a group: who sent it, where, and its content,
/// with whatever else the provider delivers along with it. The content is
/// shared, never inspected here.
pub struct GroupMessage<M> {
    pub from_uin: i64,
    pub group_code: i64,
    pub elements: Arc<M>,
}

impl<M> GroupMessage<M> {
    /// A message from `from_uin` in group `group_code` with this content.
    pub fn new(from_uin: i64, group_code: i64, elements: M) -> (message: GroupMessage<M>)
        ensures
            message.from_uin == from_uin,
            message.group_code == group_code,
            *message.elements == elements,
    {
        GroupMessage { from_uin, group_code, elements: Arc::new(elements) }
    }
}

impl<M> Clone for GroupMessage<M> {
    fn clone(&self) -> (copy: Self)
        ensures
            copy == *self,
    {
        GroupMessage {
            from_uin: self.from_uin,
            group_code: self.group_code,
            elements: share(&self.elements),
        }
    }
}

/// A connection came up.
pub struct BotOnlineEvent {
    pub bot: Arc<Bot>,
}

impl BotOnlineEvent {
    /// The event that `bot` came up.
    pub fn from(bot: Arc<Bot>) -> (event: BotOnlineEvent)
        ensures
            event.bot == bot,
    {
        BotOnlineEvent { bot }
    }
}

impl Clone for BotOnlineEvent {
    fn clone(&self) -> (copy: Self)
        ensures
            copy == *self,
    {
        BotOnlineEvent { bot: share(&self.bot) }
    }
}

/// A message arrived in a group that the receiving bot tracks.
pub struct GroupMessageEvent<M> {
    pub group: Arc<Group>,
    pub message: GroupMessage<M>,
}

impl<M> GroupMessageEvent<M> {
    /// The event that `message` arrived in `group`.
    pub fn from(group: Arc<Group>, message: GroupMessage<M>) -> (event: GroupMessageEvent<M>)
        ensures
            event.group == group,
            event.message == message,
    {
        GroupMessageEvent { group, message }
    }

    /// The group that the message arrived in.
    pub fn group(&self) -> (group: &Group)
        ensures
            *group == *self.group,
    {
        &self.group
    }

    /// The message as it arrived.
    pub fn message(&self) -> (message: &GroupMessage<M>)
        ensures
            *message == self.message,
    {
        &self.message
    }

    /// The pair that a waiter correlates on: the group and the sender.
    pub open spec fn key(&self) -> (int, int) {
        (self.group.code as int, self.message.from_uin as int)
    }
}

impl<M> Clone for GroupMessageEvent<M> {
    fn clone(&self) -> (copy: Self)
        ensures
            copy == *self,
    {
        GroupMessageEvent { group: share(&self.group), message: self.message.clone() }
    }
}

/// A raw payload that is handed on as it came.
pub struct EventInner<P> {
    pub inner: Arc<P>,
}

impl<P> EventInner<P> {
    /// Wraps `payload` for sharing among the readers of the event.
    pub fn from(payload: P) -> (wrapped: EventInner<P>)
        ensures
            *wrapped.inner == payload,
    {
        EventInner { inner: Arc::new(payload) }
    }
}

impl<P> Clone for EventInner<P> {
    fn clone(&self) -> (copy: Self)
        ensures
            copy == *self,
    {
        EventInner { inner: share(&self.inner) }
    }
}

/// A normalized event. `M` is what a message carries, its content and
/// anything the provider sends along, and `P` the raw payload of an event
/// that is passed through.
pub enum Event<M, P> {
    /// A connection was established.
    BotOnlineEvent(BotOnlineEvent),
    /// A group message was received.
    GroupMessageEvent(GroupMessageEvent<M>),
    /// An event of another kind, passed through with its payload.
    Unknown(EventInner<P>),
}

impl<M, P> Clone for Event<M, P> {
    fn clone(&self) -> (copy: Self)
        ensures
            copy == *self,
    {
        match self {
            Event::BotOnlineEvent(e) => Event::BotOnlineEvent(e.clone()),
            Event::GroupMessageEvent(e) => Event::GroupMessageEvent(e.clone()),
            Event::Unknown(e) => Event::Unknown(e.clone()),
        }
    }
}

/// A group message as the provider delivers it, with the account of the
/// connection it came in on.
pub struct RawGroupMessage<M> {
    pub bot_id: i64,
    pub inner: GroupMessage<M>,
}

/// What the provider's connection reports.
pub enum RawEvent<M, P> {
    /// The account with this identifier logged in.
    Login(i64),
    /// A message arrived in a group.
    GroupMessage(RawGroupMessage<M>),
    /// Anything else, kept as it came.
    Other(P),
}

} // verus!
