use event_bus::event::BotOnlineEvent;
use event_bus::event::Event;
use event_bus::event::EventInner;
use event_bus::event::GroupMessage;
use event_bus::event::GroupMessageEvent;
use event_bus::event::listener::correlated;
use event_bus::event::listener::next_event;
use event_bus::event::listener::next_message;
use event_bus::event::listener::offer_event;
use event_bus::event::listener::offer_message;
use event_bus::event::listener::Received;
use event_bus::registry::Bot;
use event_bus::registry::Group;
use std::sync::Arc;

type Ev = Event<String, u32>;
type Item = Received<String, u32>;

fn message(group: i64, sender: i64, text: &str) -> GroupMessageEvent<String> {
    GroupMessageEvent::from(
        Arc::new(Group::new(group, String::from("group"))),
        GroupMessage::new(sender, group, String::from(text)),
    )
}

fn arrival(group: i64, sender: i64, text: &str) -> Item {
    Received::Event(Event::GroupMessageEvent(message(group, sender, text)))
}

fn online(id: i64) -> Item {
    Received::Event(Ev::BotOnlineEvent(BotOnlineEvent::from(Arc::new(Bot::new(id)))))
}

fn unknown(payload: u32) -> Item {
    Received::Event(Ev::Unknown(EventInner::from(payload)))
}

fn text_of(out: &Result<GroupMessageEvent<String>, event_bus::event::listener::Timeout>) -> String {
    match out {
        Ok(event) => event.message().elements.as_str().to_string(),
        Err(_) => panic!("expected an event"),
    }
}

#[test]
fn correlation_needs_same_group_and_sender() {
    let reference = message(1, 2, "q");
    assert!(correlated(&reference, &message(1, 2, "a")));
    assert!(!correlated(&reference, &message(1, 3, "a")));
    assert!(!correlated(&reference, &message(4, 2, "a")));
    assert!(!correlated(&reference, &message(2, 1, "a")));
}

#[test]
fn wait_resolves_with_first_qualifying_event() {
    let reference = message(1, 2, "question");
    let arrivals = vec![
        arrival(1, 2, "no"),
        arrival(1, 2, "yes one"),
        arrival(1, 2, "yes two"),
    ];
    let out = next_event(&reference, &arrivals, |e: &GroupMessageEvent<String>| {
        e.message().elements.starts_with("yes")
    });
    assert_eq!(text_of(&out), "yes one");
}

#[test]
fn wait_ignores_other_groups_senders_and_kinds() {
    let reference = message(1, 2, "question");
    let arrivals = vec![
        online(2),
        arrival(9, 2, "other group"),
        arrival(1, 9, "other sender"),
        unknown(1),
        Received::Lagged(4),
        arrival(1, 2, "refused"),
        arrival(1, 2, "accepted"),
        arrival(1, 2, "accepted later"),
    ];
    let out = next_event(&reference, &arrivals, |e: &GroupMessageEvent<String>| {
        e.message().elements.starts_with("accepted")
    });
    let found = match out {
        Ok(found) => found,
        Err(_) => panic!("expected an event"),
    };
    assert_eq!(found.message().elements.as_str(), "accepted");
    assert_eq!(found.group().id(), 1);
    assert_eq!(found.message().from_uin, 2);
}

#[test]
fn wait_times_out_when_nothing_qualifies() {
    let reference = message(1, 2, "question");
    let arrivals = vec![
        arrival(9, 2, "yes"),
        arrival(1, 9, "yes"),
        Received::Lagged(1),
        arrival(1, 2, "no"),
        online(1),
    ];
    let out = next_event(&reference, &arrivals, |e: &GroupMessageEvent<String>| {
        e.message().elements.as_str() == "yes"
    });
    assert!(out.is_err());
}

#[test]
fn wait_times_out_on_no_arrivals() {
    let reference = message(1, 2, "question");
    let arrivals: Vec<Item> = Vec::new();
    assert!(next_event(&reference, &arrivals, |_: &GroupMessageEvent<String>| true).is_err());
    assert!(next_message(&reference, &arrivals, |_: &String| true).is_err());
}

#[test]
fn filter_is_asked_only_about_correlated_messages() {
    let reference = message(1, 2, "question");
    let arrivals = vec![arrival(9, 2, "x"), arrival(1, 9, "x"), unknown(3), arrival(1, 2, "y")];
    let asked = std::cell::Cell::new(0);
    let out = next_event(&reference, &arrivals, |e: &GroupMessageEvent<String>| {
        asked.set(asked.get() + 1);
        assert_eq!(e.message().elements.as_str(), "y");
        true
    });
    assert!(out.is_ok());
    assert_eq!(asked.get(), 1);
}

#[test]
fn message_wait_returns_the_content() {
    let reference = message(1, 2, "question");
    let arrivals = vec![
        arrival(1, 2, "short"),
        arrival(3, 2, "long enough elsewhere"),
        arrival(1, 2, "long enough"),
    ];
    let out = next_message(&reference, &arrivals, |content: &String| content.len() > 5);
    match out {
        Ok(content) => assert_eq!(content.as_str(), "long enough"),
        Err(_) => panic!("expected a message"),
    }
}

#[test]
fn message_wait_times_out_when_nothing_qualifies() {
    let reference = message(1, 2, "question");
    let arrivals = vec![arrival(1, 2, "a"), Received::Lagged(2), arrival(1, 3, "abcdef")];
    let out = next_message(&reference, &arrivals, |content: &String| content.len() > 5);
    assert!(out.is_err());
}

#[test]
fn removing_unqualified_arrivals_does_not_change_the_result() {
    let reference = message(1, 2, "question");
    let noisy = vec![
        Received::Lagged(7),
        arrival(5, 2, "go"),
        arrival(1, 2, "stay"),
        arrival(1, 2, "go"),
    ];
    let quiet = vec![arrival(1, 2, "go")];
    let accept = |e: &GroupMessageEvent<String>| e.message().elements.as_str() == "go";
    assert_eq!(text_of(&next_event(&reference, &noisy, accept)), "go");
    assert_eq!(text_of(&next_event(&reference, &quiet, accept)), "go");
}

#[test]
fn step_resolves_on_a_qualifying_event() {
    let reference = message(1, 2, "question");
    let accept = |e: &GroupMessageEvent<String>| e.message().elements.as_str() == "ok";
    let resolved = offer_event(&reference, arrival(1, 2, "ok"), &accept);
    match resolved {
        Some(event) => assert_eq!(event.message().elements.as_str(), "ok"),
        None => panic!("expected the wait to end"),
    }
}

#[test]
fn step_goes_on_after_lag() {
    let reference = message(1, 2, "question");
    let accept = |_: &GroupMessageEvent<String>| true;
    assert!(offer_event(&reference, Item::Lagged(200), &accept).is_none());
    assert!(offer_message(&reference, Item::Lagged(200), &|_: &String| true).is_none());
}

#[test]
fn step_goes_on_after_anything_that_does_not_qualify() {
    let reference = message(1, 2, "question");
    let accept = |e: &GroupMessageEvent<String>| e.message().elements.as_str() == "ok";
    assert!(offer_event(&reference, online(1), &accept).is_none());
    assert!(offer_event(&reference, unknown(1), &accept).is_none());
    assert!(offer_event(&reference, arrival(1, 3, "ok"), &accept).is_none());
    assert!(offer_event(&reference, arrival(2, 2, "ok"), &accept).is_none());
    assert!(offer_event(&reference, arrival(1, 2, "not ok"), &accept).is_none());
}

#[test]
fn message_step_returns_the_content() {
    let reference = message(1, 2, "question");
    let accept = |content: &String| content.as_str() == "ok";
    match offer_message(&reference, arrival(1, 2, "ok"), &accept) {
        Some(content) => assert_eq!(content.as_str(), "ok"),
        None => panic!("expected the wait to end"),
    }
    assert!(offer_message(&reference, arrival(1, 2, "no"), &accept).is_none());
    assert!(offer_message(&reference, arrival(1, 4, "ok"), &accept).is_none());
    assert!(offer_message(&reference, online(2), &accept).is_none());
}

#[test]
fn duplicate_of_an_event_carries_the_same_content() {
    let first = message(1, 2, "text");
    let copy = first.clone();
    assert_eq!(copy.group().id(), 1);
    assert_eq!(copy.message().from_uin, 2);
    assert_eq!(copy.message().group_code, 1);
    assert!(Arc::ptr_eq(&copy.message().elements, &first.message().elements));
    assert!(Arc::ptr_eq(&copy.group, &first.group));
}

#[test]
fn copy_of_an_arrival_is_the_same_arrival() {
    let first = arrival(1, 2, "text");
    match (first.clone(), &first) {
        (Received::Event(Event::GroupMessageEvent(copy)), Received::Event(Event::GroupMessageEvent(kept))) => {
            assert_eq!(copy.group().id(), 1);
            assert_eq!(copy.message().from_uin, 2);
            assert!(Arc::ptr_eq(&copy.message().elements, &kept.message().elements));
        }
        _ => panic!("expected a group message"),
    }
    assert!(matches!(Item::Lagged(9).clone(), Received::Lagged(9)));
}
