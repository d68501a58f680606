//! Waiting for the next event that answers one already held: same group,
//! same sender, and accepted by the caller's filter.

use crate::event::Event;
use crate::event::GroupMessageEvent;
use std::sync::Arc;
use vstd::prelude::*;

verus! {

/// What a subscription yields: an event, or the notice that it fell behind
/// and this many events were skipped.
pub enum Received<M, P> {
    /// The next event, in publish order.
    Event(Event<M, P>),
    /// The subscription was too slow and missed this many events; it goes on
    /// with the oldest one that is still kept.
    Lagged(u64),
}

impl<M, P> Clone for Received<M, P> {
    fn clone(&self) -> (copy: Self)
        ensures
            copy == *self,
    {
        match self {
            Received::Event(event) => Received::Event(event.clone()),
            Received::Lagged(skipped) => Received::Lagged(*skipped),
        }
    }
}

/// No qualifying event arrived before the deadline.
#[derive(Debug)]
pub struct Timeout;

/// Whether `candidate` comes from the group and the sender of `reference`.
pub open spec fn correlates<M>(
    reference: GroupMessageEvent<M>,
    candidate: GroupMessageEvent<M>,
) -> bool {
    reference.key() == candidate.key()
}

/// The group message that came from the group and sender of `reference`,
/// where `item` is one.
pub open spec fn candidate<M, P>(reference: GroupMessageEvent<M>, item: Received<M, P>) -> Option<
    GroupMessageEvent<M>,
> {
    match item {
        Received::Event(Event::GroupMessageEvent(event)) => if correlates(reference, event) {
            Some(event)
        } else {
            None
        },
        _ => None,
    }
}

/// What a filter over events may answer: `verdict(e, b)` holds where the
/// filter can return `b` for `e`.
pub open spec fn event_verdict<M, F: Fn(&GroupMessageEvent<M>) -> bool>(filter: F) -> spec_fn(
    GroupMessageEvent<M>,
    bool,
) -> bool {
    |event: GroupMessageEvent<M>, answer: bool| call_ensures(filter, (&event,), answer)
}

/// What a filter over message contents may answer for an event.
pub open spec fn message_verdict<M, F: Fn(&M) -> bool>(filter: F) -> spec_fn(
    GroupMessageEvent<M>,
    bool,
) -> bool {
    |event: GroupMessageEvent<M>, answer: bool|
        call_ensures(filter, (&*event.message.elements,), answer)
}

/// `item` ends the wait: it is a candidate that the filter accepted.
pub open spec fn taken<M, P>(
    reference: GroupMessageEvent<M>,
    item: Received<M, P>,
    verdict: spec_fn(GroupMessageEvent<M>, bool) -> bool,
) -> bool {
    candidate(reference, item) matches Some(event) && verdict(event, true)
}

/// `item` does not end the wait: it is a lag notice, another kind of event,
/// a message of another group or sender, or a candidate that the filter
/// refused.
pub open spec fn passed_over<M, P>(
    reference: GroupMessageEvent<M>,
    item: Received<M, P>,
    verdict: spec_fn(GroupMessageEvent<M>, bool) -> bool,
) -> bool {
    candidate(reference, item) matches Some(event) ==> verdict(event, false)
}

/// The wait over `arrivals` ends at position `at`, and not before.
pub open spec fn resolves_at<M, P>(
    reference: GroupMessageEvent<M>,
    arrivals: Seq<Received<M, P>>,
    verdict: spec_fn(GroupMessageEvent<M>, bool) -> bool,
    at: int,
) -> bool {
    &&& 0 <= at < arrivals.len()
    &&& taken(reference, arrivals[at], verdict)
    &&& forall|j: int| 0 <= j < at ==> passed_over(reference, #[trigger] arrivals[j], verdict)
}

/// Nothing in `arrivals` ends the wait.
pub open spec fn unresolved<M, P>(
    reference: GroupMessageEvent<M>,
    arrivals: Seq<Received<M, P>>,
    verdict: spec_fn(GroupMessageEvent<M>, bool) -> bool,
) -> bool {
    forall|j: int|
        0 <= j < arrivals.len() ==> passed_over(reference, #[trigger] arrivals[j], verdict)
}

/// Whether `candidate` comes from the group and the sender of `reference`.
pub fn correlated<M>(reference: &GroupMessageEvent<M>, candidate: &GroupMessageEvent<M>) -> (same:
    bool)
    ensures
        same == correlates(*reference, *candidate),
{
    reference.group().id() == candidate.group().id() && reference.message().from_uin
        == candidate.message().from_uin
}

/// One step of a wait for an event: `Some` where `received` ends the wait,
/// `None` where the wait goes on.
pub fn offer_event<M, P, F>(
    reference: &GroupMessageEvent<M>,
    received: Received<M, P>,
    filter: &F,
) -> (resolved: Option<GroupMessageEvent<M>>) where F: Fn(&GroupMessageEvent<M>) -> bool
    requires
        candidate(*reference, received) matches Some(event) ==> call_requires(*filter, (&event,)),
    ensures
        match resolved {
            Some(event) => received == Received::<M, P>::Event(Event::GroupMessageEvent(event))
                && taken(*reference, received, event_verdict(*filter)),
            None => passed_over(*reference, received, event_verdict(*filter)),
        },
{
    match received {
        Received::Event(Event::GroupMessageEvent(event)) => {
            if correlated(reference, &event) && filter(&event) {
                Some(event)
            } else {
                None
            }
        },
        _ => None,
    }
}

/// One step of a wait for a message: `Some` with the content where
/// `received` ends the wait, `None` where the wait goes on.
pub fn offer_message<M, P, F>(
    reference: &GroupMessageEvent<M>,
    received: Received<M, P>,
    filter: &F,
) -> (resolved: Option<Arc<M>>) where F: Fn(&M) -> bool
    requires
        candidate(*reference, received) matches Some(event) ==> call_requires(
            *filter,
            (&*event.message.elements,),
        ),
    ensures
        match resolved {
            Some(elements) => taken(*reference, received, message_verdict(*filter)) && candidate(
                *reference,
                received,
            )->0.message.elements == elements,
            None => passed_over(*reference, received, message_verdict(*filter)),
        },
{
    match received {
        Received::Event(Event::GroupMessageEvent(event)) => {
            if correlated(reference, &event) && filter(&event.message.elements) {
                Some(event.message.elements)
            } else {
                None
            }
        },
        _ => None,
    }
}

/// `accept` says what the filter behind `verdict` answers: the filter is a
/// function of the event alone.
pub open spec fn decides<M>(
    verdict: spec_fn(GroupMessageEvent<M>, bool) -> bool,
    accept: spec_fn(GroupMessageEvent<M>) -> bool,
) -> bool {
    forall|event: GroupMessageEvent<M>, answer: bool| #[trigger]
        verdict(event, answer) ==> answer == accept(event)
}

/// `item` is a message from the group and sender of `reference` that
/// `accept` holds of.
pub open spec fn qualifies<M, P>(
    reference: GroupMessageEvent<M>,
    item: Received<M, P>,
    accept: spec_fn(GroupMessageEvent<M>) -> bool,
) -> bool {
    candidate(reference, item) matches Some(event) && accept(event)
}

/// The first event in `arrivals` that qualifies, if one does.
pub open spec fn first_qualifying<M, P>(
    reference: GroupMessageEvent<M>,
    arrivals: Seq<Received<M, P>>,
    accept: spec_fn(GroupMessageEvent<M>) -> bool,
) -> Option<GroupMessageEvent<M>>
    decreases arrivals.len(),
{
    if arrivals.len() == 0 {
        None
    } else if qualifies(reference, arrivals[0], accept) {
        candidate(reference, arrivals[0])
    } else {
        first_qualifying(reference, arrivals.drop_first(), accept)
    }
}

/// How a wait for an event ends, given the first qualifying event.
pub open spec fn event_outcome<M>(first: Option<GroupMessageEvent<M>>) -> Result<
    GroupMessageEvent<M>,
    Timeout,
> {
    match first {
        Some(event) => Ok(event),
        None => Err(Timeout),
    }
}

/// How a wait for a message ends, given the first qualifying event.
pub open spec fn message_outcome<M>(first: Option<GroupMessageEvent<M>>) -> Result<
    Arc<M>,
    Timeout,
> {
    match first {
        Some(event) => Ok(event.message.elements),
        None => Err(Timeout),
    }
}

/// Where a wait ends at `at`, the event there is the first that qualifies,
/// for every predicate that says what the filter answers.
pub proof fn lemma_resolution_is_first_qualifying<M, P>(
    reference: GroupMessageEvent<M>,
    arrivals: Seq<Received<M, P>>,
    verdict: spec_fn(GroupMessageEvent<M>, bool) -> bool,
    at: int,
)
    requires
        resolves_at(reference, arrivals, verdict, at),
    ensures
        candidate(reference, arrivals[at]) is Some,
        forall|accept: spec_fn(GroupMessageEvent<M>) -> bool| #[trigger]
            decides(verdict, accept) ==> first_qualifying(reference, arrivals, accept)
                == candidate(reference, arrivals[at]),
    decreases arrivals.len(),
{
    if at > 0 {
        let rest = arrivals.drop_first();
        assert forall|j: int| 0 <= j < at - 1 implies passed_over(
            reference,
            #[trigger] rest[j],
            verdict,
        ) by {}
        lemma_resolution_is_first_qualifying(reference, rest, verdict, at - 1);
    }
}

/// Where nothing ends a wait, no event qualifies, for every predicate that
/// says what the filter answers.
pub proof fn lemma_unresolved_has_no_qualifying<M, P>(
    reference: GroupMessageEvent<M>,
    arrivals: Seq<Received<M, P>>,
    verdict: spec_fn(GroupMessageEvent<M>, bool) -> bool,
)
    requires
        unresolved(reference, arrivals, verdict),
    ensures
        forall|accept: spec_fn(GroupMessageEvent<M>) -> bool| #[trigger]
            decides(verdict, accept) ==> first_qualifying(reference, arrivals, accept) is None,
    decreases arrivals.len(),
{
    if arrivals.len() > 0 {
        let rest = arrivals.drop_first();
        assert forall|j: int| 0 <= j < rest.len() implies passed_over(
            reference,
            #[trigger] rest[j],
            verdict,
        ) by {}
        lemma_unresolved_has_no_qualifying(reference, rest, verdict);
    }
}

/// A wait resolves with the first arrival that is a group message from the
/// awaited group and sender and that the predicate holds of: some position
/// carries the result, and nothing before it qualifies. It resolves with
/// nothing exactly where no arrival qualifies.
pub proof fn lemma_first_qualifying_is_first<M, P>(
    reference: GroupMessageEvent<M>,
    arrivals: Seq<Received<M, P>>,
    accept: spec_fn(GroupMessageEvent<M>) -> bool,
)
    ensures
        match first_qualifying(reference, arrivals, accept) {
            Some(found) => exists|at: int|
                {
                    &&& 0 <= at < arrivals.len()
                    &&& #[trigger] qualifies(reference, arrivals[at], accept)
                    &&& arrivals[at] == Received::<M, P>::Event(Event::GroupMessageEvent(found))
                    &&& forall|j: int|
                        0 <= j < at ==> !qualifies(reference, #[trigger] arrivals[j], accept)
                },
            None => forall|j: int|
                0 <= j < arrivals.len() ==> !qualifies(reference, #[trigger] arrivals[j], accept),
        },
    decreases arrivals.len(),
{
    if arrivals.len() > 0 && !qualifies(reference, arrivals[0], accept) {
        let rest = arrivals.drop_first();
        lemma_first_qualifying_is_first(reference, rest, accept);
        match first_qualifying(reference, rest, accept) {
            Some(found) => {
                let at = choose|at: int|
                    {
                        &&& 0 <= at < rest.len()
                        &&& #[trigger] qualifies(reference, rest[at], accept)
                        &&& rest[at] == Received::<M, P>::Event(Event::GroupMessageEvent(found))
                        &&& forall|j: int|
                            0 <= j < at ==> !qualifies(reference, #[trigger] rest[j], accept)
                    };
                assert forall|j: int| 0 <= j < at + 1 implies !qualifies(
                    reference,
                    #[trigger] arrivals[j],
                    accept,
                ) by {
                    if j > 0 {
                        assert(rest[j - 1] == arrivals[j]);
                    }
                }
            },
            None => {
                assert forall|j: int| 0 <= j < arrivals.len() implies !qualifies(
                    reference,
                    #[trigger] arrivals[j],
                    accept,
                ) by {
                    if j > 0 {
                        assert(rest[j - 1] == arrivals[j]);
                    }
                }
            },
        }
    }
}

/// An arrival that does not qualify is ignored: wherever it is put among
/// the others, the wait resolves as it does without it.
pub proof fn lemma_unqualified_is_ignored<M, P>(
    reference: GroupMessageEvent<M>,
    arrivals: Seq<Received<M, P>>,
    accept: spec_fn(GroupMessageEvent<M>) -> bool,
    at: int,
    item: Received<M, P>,
)
    requires
        0 <= at <= arrivals.len(),
        !qualifies(reference, item, accept),
    ensures
        first_qualifying(reference, arrivals.insert(at, item), accept) == first_qualifying(
            reference,
            arrivals,
            accept,
        ),
    decreases arrivals.len(),
{
    let longer = arrivals.insert(at, item);
    if at == 0 {
        assert(longer.drop_first() =~= arrivals);
    } else if !qualifies(reference, arrivals[0], accept) {
        assert(longer.drop_first() =~= arrivals.drop_first().insert(at - 1, item));
        lemma_unqualified_is_ignored(reference, arrivals.drop_first(), accept, at - 1, item);
    }
}

/// A wait ends in a timeout exactly where none of the arrivals before the
/// deadline qualifies.
pub proof fn lemma_timeout_iff_none_qualifies<M, P>(
    reference: GroupMessageEvent<M>,
    arrivals: Seq<Received<M, P>>,
    accept: spec_fn(GroupMessageEvent<M>) -> bool,
)
    ensures
        event_outcome(first_qualifying(reference, arrivals, accept)) is Err <==> forall|j: int|
            0 <= j < arrivals.len() ==> !qualifies(reference, #[trigger] arrivals[j], accept),
        message_outcome(first_qualifying(reference, arrivals, accept)) is Err <==> forall|j: int|
            0 <= j < arrivals.len() ==> !qualifies(reference, #[trigger] arrivals[j], accept),
{
    lemma_first_qualifying_is_first(reference, arrivals, accept);
}

/// Waits for the next event from the group and sender of `event` that
/// `filter` accepts. `arrivals` is what the subscription yields, in order,
/// until the deadline; lag notices and everything that does not qualify are
/// passed over.
pub fn next_event<M, P, F>(
    event: &GroupMessageEvent<M>,
    arrivals: &Vec<Received<M, P>>,
    filter: F,
) -> (out: Result<GroupMessageEvent<M>, Timeout>) where F: Fn(&GroupMessageEvent<M>) -> bool
    requires
        forall|i: int|
            0 <= i < arrivals@.len() ==> (candidate(*event, #[trigger] arrivals@[i]) matches Some(
                message,
            ) ==> call_requires(filter, (&message,))),
    ensures
        match out {
            Ok(found) => exists|at: int|
                resolves_at(*event, arrivals@, event_verdict(filter), at) && candidate(
                    *event,
                    arrivals@[at],
                ) == Some(found),
            Err(_) => unresolved(*event, arrivals@, event_verdict(filter)),
        },
        forall|accept: spec_fn(GroupMessageEvent<M>) -> bool| #[trigger]
            decides(event_verdict(filter), accept) ==> out == event_outcome(
                first_qualifying(*event, arrivals@, accept),
            ),
{
    let ghost verdict = event_verdict(filter);
    let mut i: usize = 0;
    while i < arrivals.len()
        invariant
            i <= arrivals@.len(),
            verdict == event_verdict(filter),
            forall|j: int| 0 <= j < i ==> passed_over(*event, #[trigger] arrivals@[j], verdict),
            forall|k: int|
                0 <= k < arrivals@.len() ==> (candidate(*event, #[trigger] arrivals@[k]) matches Some(
                    message,
                ) ==> call_requires(filter, (&message,))),
        decreases arrivals@.len() - i,
    {
        match offer_event(event, arrivals[i].clone(), &filter) {
            Some(found) => {
                proof {
                    assert(resolves_at(*event, arrivals@, verdict, i as int));
                    lemma_resolution_is_first_qualifying(*event, arrivals@, verdict, i as int);
                }
                return Ok(found);
            },
            None => {},
        }
        i += 1;
    }
    proof {
        lemma_unresolved_has_no_qualifying(*event, arrivals@, verdict);
    }
    Err(Timeout)
}

/// Waits for the next message from the group and sender of `event` whose
/// content `filter` accepts, and returns that content. `arrivals` is what
/// the subscription yields, in order, until the deadline.
pub fn next_message<M, P, F>(
    event: &GroupMessageEvent<M>,
    arrivals: &Vec<Received<M, P>>,
    filter: F,
) -> (out: Result<Arc<M>, Timeout>) where F: Fn(&M) -> bool
    requires
        forall|i: int|
            0 <= i < arrivals@.len() ==> (candidate(*event, #[trigger] arrivals@[i]) matches Some(
                message,
            ) ==> call_requires(filter, (&*message.message.elements,))),
    ensures
        match out {
            Ok(elements) => exists|at: int|
                resolves_at(*event, arrivals@, message_verdict(filter), at) && candidate(
                    *event,
                    arrivals@[at],
                )->0.message.elements == elements,
            Err(_) => unresolved(*event, arrivals@, message_verdict(filter)),
        },
        forall|accept: spec_fn(GroupMessageEvent<M>) -> bool| #[trigger]
            decides(message_verdict(filter), accept) ==> out == message_outcome(
                first_qualifying(*event, arrivals@, accept),
            ),
{
    let ghost verdict = message_verdict(filter);
    let mut i: usize = 0;
    while i < arrivals.len()
        invariant
            i <= arrivals@.len(),
            verdict == message_verdict(filter),
            forall|j: int| 0 <= j < i ==> passed_over(*event, #[trigger] arrivals@[j], verdict),
            forall|k: int|
                0 <= k < arrivals@.len() ==> (candidate(*event, #[trigger] arrivals@[k]) matches Some(
                    message,
                ) ==> call_requires(filter, (&*message.message.elements,))),
        decreases arrivals@.len() - i,
    {
        match offer_message(event, arrivals[i].clone(), &filter) {
            Some(elements) => {
                proof {
                    assert(resolves_at(*event, arrivals@, verdict, i as int));
                    lemma_resolution_is_first_qualifying(*event, arrivals@, verdict, i as int);
                }
                return Ok(elements);
            },
            None => {},
        }
        i += 1;
    }
    proof {
        lemma_unresolved_has_no_qualifying(*event, arrivals@, verdict);
    }
    Err(Timeout)
}

} // verus!
