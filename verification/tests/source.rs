//! Single steps of the driver.
use kubeless::source::{
    next_or_reconnect, report, step, Call, ErrorClass, Fault, ListPage, Listing, Opening, Polling, Severity, State,
    Turn, Waited, WatchSource, WatchStep,
};
use kubeless::watcher::{Error, Event};
use std::collections::VecDeque;

/// A source that leaves everything at its default.
struct Plain;

impl WatchSource for Plain {
    type Value = char;
    type Cursor = u64;
    type PageToken = u8;
    type Error = &'static str;
    type WatchStream = i32;
}

fn fault(class: ErrorClass) -> Fault<&'static str> {
    Fault { error: "down", class }
}

/// The state is that of a list with nothing queued, and these are the rest of it.
fn is_listing(state: &State<Plain>, page: Option<u8>, known: Option<u64>, arrived: bool) -> bool {
    match state {
        State::InitPage { next_page, queue, cursor, started } => {
            *next_page == page && queue.is_empty() && *cursor == known && *started == arrived
        }
        _ => false,
    }
}

#[test]
fn defaults_are_transient_and_trusting() {
    assert_eq!(Plain.classify(&"down"), ErrorClass::Transient);
    assert_eq!(Plain.idle_timeout(), None);
}

#[test]
fn empty_begins_a_list() {
    match step(&Plain, State::Empty) {
        Turn::Emit {
            item: Ok(Event::Init),
            state: State::InitPage { next_page, queue, cursor, started },
        } => {
            assert_eq!(next_page, None);
            assert!(queue.is_empty());
            assert_eq!(cursor, None);
            assert!(!started);
        }
        _ => panic!("not the beginning of a list"),
    }
}

#[test]
fn queued_objects_come_before_the_next_page() {
    let state = State::InitPage {
        next_page: Some(4),
        queue: VecDeque::from([('a'), ('b')]),
        cursor: Some(1),
        started: true,
    };
    let Turn::Emit { item: Ok(Event::InitApply('a')), state } = step(&Plain, state) else {
        panic!("not the first object");
    };
    let Turn::Emit { item: Ok(Event::InitApply('b')), state } = step(&Plain, state) else {
        panic!("not the second object");
    };
    let Turn::List { page, listing } = step(&Plain, state) else {
        panic!("not the next page");
    };
    assert_eq!(page, Some(4));
    assert_eq!(listing.kept, Some(4));
    assert_eq!(listing.cursor, Some(1));
    assert!(listing.started);
}

#[test]
fn page_is_queued_in_order() {
    let listing = Listing::<Plain> {
        kept: Some(4),
        cursor: Some(1),
        started: true,
    };
    let outcome = listing.conclude(Ok(ListPage {
        items: vec!['x', 'y', 'z'],
        cursor: None,
        next_page: Some(9),
    }));
    assert!(outcome.item.is_none());
    assert_eq!(outcome.report, None);
    match outcome.state {
        State::InitPage { next_page, queue, cursor, started } => {
            assert_eq!(next_page, Some(9));
            assert_eq!(queue, VecDeque::from(['x', 'y', 'z']));
            assert_eq!(cursor, Some(1));
            assert!(started);
        }
        _ => panic!("not listing"),
    }
}

#[test]
fn complete_list_opens_a_watch_from_its_cursor() {
    let state = State::InitPage {
        next_page: None,
        queue: VecDeque::new(),
        cursor: Some(6),
        started: true,
    };
    let Turn::Emit { item: Ok(Event::InitDone), state } = step(&Plain, state) else {
        panic!("not the end of the list");
    };
    let Turn::Watch { from, opening } = step(&Plain, state) else {
        panic!("not a watch");
    };
    assert_eq!(from, 6);
    match opening.conclude(Ok(-3)).state {
        State::Watching { cursor, stream } => {
            assert_eq!(cursor, 6);
            assert_eq!(stream, -3);
        }
        _ => panic!("not watching"),
    }
}

#[test]
fn watching_awaits_the_stream_for_the_idle_timeout() {
    let Turn::Next { timeout, polling } = step(&Plain, State::Watching { cursor: 3, stream: 8 }) else {
        panic!("not awaiting the stream");
    };
    assert_eq!(timeout, None);
    assert_eq!(polling.cursor, 3);
    assert_eq!(polling.stream, 8);
}

#[test]
fn list_error_is_steered_by_its_class() {
    for (kept, cursor, started) in [(None, None, false), (Some(4), Some(2), true)] {
        for class in [ErrorClass::Denied, ErrorClass::Transient] {
            let outcome = Listing::<Plain> { kept, cursor, started }.conclude(Err(fault(class)));
            assert!(matches!(outcome.item, Some(Err(Error::Source("down")))));
            assert!(is_listing(&outcome.state, kept, cursor, started));
        }
        let outcome = Listing::<Plain> { kept, cursor, started }.conclude(Err(fault(ErrorClass::Desync)));
        assert!(matches!(outcome.item, Some(Err(Error::Source("down")))));
        assert!(matches!(outcome.state, State::Empty));
    }
}

#[test]
fn open_error_is_steered_by_its_class() {
    for class in [ErrorClass::Denied, ErrorClass::Transient] {
        let outcome = Opening::<Plain> { cursor: 2 }.conclude(Err(fault(class)));
        assert!(matches!(outcome.item, Some(Err(Error::Source("down")))));
        assert!(matches!(outcome.state, State::Starting { cursor: 2 }));
    }
    let outcome = Opening::<Plain> { cursor: 2 }.conclude(Err(fault(ErrorClass::Desync)));
    assert!(matches!(outcome.item, Some(Err(Error::Source("down")))));
    assert!(matches!(outcome.state, State::Empty));
}

#[test]
fn stream_error_is_steered_by_its_class() {
    for class in [ErrorClass::Denied, ErrorClass::Transient] {
        let outcome = Polling::<Plain> { cursor: 2, stream: 7 }.conclude(Some(Err(fault(class))));
        assert!(matches!(outcome.item, Some(Err(Error::Source("down")))));
        assert!(matches!(outcome.state, State::Watching { cursor: 2, stream: 7 }));
    }
    let outcome = Polling::<Plain> { cursor: 2, stream: 7 }.conclude(Some(Err(fault(ErrorClass::Desync))));
    assert!(matches!(outcome.item, Some(Err(Error::Source("down")))));
    assert!(matches!(outcome.state, State::Empty));
}

#[test]
fn stream_steps_become_events_and_cursors() {
    let outcome = Polling::<Plain> { cursor: 2, stream: 7 }.conclude(Some(Ok(WatchStep::Apply('k'))));
    assert!(matches!(outcome.item, Some(Ok(Event::Apply('k')))));
    assert!(matches!(outcome.state, State::Watching { cursor: 2, stream: 7 }));
    let outcome = Polling::<Plain> { cursor: 2, stream: 7 }.conclude(Some(Ok(WatchStep::Delete('k'))));
    assert!(matches!(outcome.item, Some(Ok(Event::Delete('k')))));
    assert!(matches!(outcome.state, State::Watching { cursor: 2, stream: 7 }));
    let outcome = Polling::<Plain> { cursor: 2, stream: 7 }.conclude(Some(Ok(WatchStep::Cursor(5))));
    assert!(outcome.item.is_none());
    assert!(matches!(outcome.state, State::Watching { cursor: 5, stream: 7 }));
}

#[test]
fn ended_and_idle_streams_reconnect_alike() {
    for waited in [Waited::Ended, Waited::IdledOut] {
        let outcome = Polling::<Plain> { cursor: 2, stream: 7 }.resume(&Plain, waited);
        assert!(outcome.item.is_none());
        assert_eq!(outcome.report, None);
        assert!(matches!(outcome.state, State::Starting { cursor: 2 }));
    }
}

#[test]
fn idle_timeout_is_the_end_of_the_stream() {
    assert_eq!(next_or_reconnect(Waited::Produced(5)), Some(5));
    assert_eq!(next_or_reconnect::<i32>(Waited::Ended), None);
    assert_eq!(next_or_reconnect::<i32>(Waited::IdledOut), None);
}

#[test]
fn denials_are_loud_and_failed_lists_are_noted() {
    for call in [Call::List, Call::Watch, Call::Next] {
        assert_eq!(report(call, ErrorClass::Denied), Some(Severity::Warn));
    }
    for class in [ErrorClass::Desync, ErrorClass::Transient] {
        assert_eq!(report(Call::List, class), Some(Severity::Debug));
        assert_eq!(report(Call::Watch, class), None);
        assert_eq!(report(Call::Next, class), None);
    }
}

#[test]
fn unclassified_errors_hold_the_position() {
    let outcome = Opening::<Plain> { cursor: 2 }.resume(&Plain, Err("down"));
    assert!(matches!(outcome.state, State::Starting { cursor: 2 }));
    let outcome = Polling::<Plain> { cursor: 2, stream: 7 }.resume(&Plain, Waited::Produced(Err("down")));
    assert!(matches!(outcome.state, State::Watching { cursor: 2, stream: 7 }));
    let listing = Listing::<Plain> {
        kept: Some(4),
        cursor: Some(2),
        started: true,
    };
    let outcome = listing.resume(&Plain, Err("down"));
    assert!(is_listing(&outcome.state, Some(4), Some(2), true));
    assert_eq!(outcome.report, Some(Severity::Debug));
}

/// A page token that counts how often it was cloned.
#[derive(Debug, PartialEq)]
struct Counted(u32);

impl Clone for Counted {
    fn clone(&self) -> Self {
        Counted(self.0 + 1)
    }
}

/// A source with such tokens.
struct Counting;

impl WatchSource for Counting {
    type Value = char;
    type Cursor = u64;
    type PageToken = Counted;
    type Error = &'static str;
    type WatchStream = i32;
}

#[test]
fn list_gets_the_token_itself_and_a_retry_its_clone() {
    let state = State::<Counting>::InitPage {
        next_page: Some(Counted(0)),
        queue: VecDeque::new(),
        cursor: None,
        started: true,
    };
    let Turn::List { page, listing } = step(&Counting, state) else {
        panic!("not a page");
    };
    assert_eq!(page, Some(Counted(0)));
    let outcome = listing.resume(&Counting, Err("down"));
    let Turn::List { page, .. } = step(&Counting, outcome.state) else {
        panic!("not the same page again");
    };
    assert_eq!(page, Some(Counted(1)));
}
