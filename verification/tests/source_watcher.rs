//! Whole runs of the driver over a scripted source.
use kubeless::source::{step, ErrorClass, ListPage, Severity, State, Turn, Waited, WatchSource, WatchStep};
use kubeless::watcher::{Error, Event};
use std::collections::VecDeque;
use std::time::Duration;

#[derive(Debug)]
struct TestError(ErrorClass);

type Page = ListPage<u32, u64, u32>;
type Steps = Vec<Result<WatchStep<u32, u64>, TestError>>;
type Stream = VecDeque<Result<WatchStep<u32, u64>, TestError>>;

/// The source's side that the driver itself consults.
struct Classes {
    idle: Option<Duration>,
}

impl WatchSource for Classes {
    type Value = u32;
    type Cursor = u64;
    type PageToken = u32;
    type Error = TestError;
    type WatchStream = Stream;

    fn classify(&self, err: &TestError) -> ErrorClass {
        err.0
    }

    fn idle_timeout(&self) -> Option<Duration> {
        self.idle
    }
}

/// Scripted source: pops one list result per list call and one script per watch call, and
/// keeps a record of what it was asked.
struct Scripted {
    source: Classes,
    state: Option<State<Classes>>,
    lists: VecDeque<Result<Page, TestError>>,
    watches: VecDeque<Result<Steps, TestError>>,
    pages_asked: Vec<Option<u32>>,
    cursors_asked: Vec<u64>,
    reports: Vec<Option<Severity>>,
}

fn scripted(lists: Vec<Result<Page, TestError>>, watches: Vec<Result<Steps, TestError>>) -> Scripted {
    Scripted {
        source: Classes { idle: None },
        state: Some(State::Empty),
        lists: VecDeque::from(lists),
        watches: VecDeque::from(watches),
        pages_asked: Vec::new(),
        cursors_asked: Vec::new(),
        reports: Vec::new(),
    }
}

impl Scripted {
    /// Step until there is an item to hand out. A stream whose script has run out ends, or,
    /// where there is an idle timeout, idles out.
    fn next(&mut self) -> Option<Result<Event<u32>, Error<TestError>>> {
        loop {
            let state = self.state.take().expect("a state");
            let outcome = match step(&self.source, state) {
                Turn::Emit { item, state } => {
                    self.state = Some(state);
                    return Some(item);
                }
                Turn::List { page, listing } => {
                    self.pages_asked.push(page);
                    let reply = self.lists.pop_front().expect("unscripted list call");
                    listing.resume(&self.source, reply)
                }
                Turn::Watch { from, opening } => {
                    self.cursors_asked.push(from);
                    let reply = self.watches.pop_front().expect("unscripted watch call");
                    opening.resume(&self.source, reply.map(VecDeque::from))
                }
                Turn::Next { timeout, mut polling } => {
                    let waited = match (polling.stream.pop_front(), timeout) {
                        (Some(produced), _) => Waited::Produced(produced),
                        (None, None) => Waited::Ended,
                        (None, Some(_)) => Waited::IdledOut,
                    };
                    polling.resume(&self.source, waited)
                }
            };
            self.state = Some(outcome.state);
            self.reports.push(outcome.report);
            if outcome.item.is_some() {
                return outcome.item;
            }
        }
    }
}

fn page(items: Vec<u32>, cursor: Option<u64>, next_page: Option<u32>) -> Result<Page, TestError> {
    Ok(ListPage {
        items,
        cursor,
        next_page,
    })
}

#[test]
fn emits_init_protocol_across_pages_then_watches() {
    let mut events = scripted(
        vec![
            page(vec![1, 2], None, Some(7)),
            page(vec![3], Some(10), None),
        ],
        vec![Ok(vec![
            Ok(WatchStep::Apply(4)),
            Ok(WatchStep::Cursor(11)),
            Ok(WatchStep::Delete(1)),
        ])],
    );
    assert!(matches!(events.next(), Some(Ok(Event::Init))));
    assert!(matches!(events.next(), Some(Ok(Event::InitApply(1)))));
    assert!(matches!(events.next(), Some(Ok(Event::InitApply(2)))));
    assert!(matches!(events.next(), Some(Ok(Event::InitApply(3)))));
    assert!(matches!(events.next(), Some(Ok(Event::InitDone))));
    assert!(matches!(events.next(), Some(Ok(Event::Apply(4)))));
    assert!(matches!(events.next(), Some(Ok(Event::Delete(1)))));
    assert_eq!(events.pages_asked, vec![None, Some(7)]);
    assert_eq!(events.cursors_asked, vec![10]);
}

#[test]
fn desync_on_watch_relists_from_scratch() {
    let mut events = scripted(
        vec![
            page(vec![1], Some(10), None),
            page(vec![1, 2], Some(20), None),
        ],
        vec![
            Err(TestError(ErrorClass::Desync)),
            Ok(vec![Ok(WatchStep::Apply(3))]),
        ],
    );
    assert!(matches!(events.next(), Some(Ok(Event::Init))));
    assert!(matches!(events.next(), Some(Ok(Event::InitApply(1)))));
    assert!(matches!(events.next(), Some(Ok(Event::InitDone))));
    // desync surfaces the error, then the machine relists
    assert!(matches!(events.next(), Some(Err(Error::Source(_)))));
    assert!(matches!(events.next(), Some(Ok(Event::Init))));
    assert!(matches!(events.next(), Some(Ok(Event::InitApply(1)))));
    assert!(matches!(events.next(), Some(Ok(Event::InitApply(2)))));
    assert!(matches!(events.next(), Some(Ok(Event::InitDone))));
    assert!(matches!(events.next(), Some(Ok(Event::Apply(3)))));
    assert_eq!(events.pages_asked, vec![None, None]);
    assert_eq!(events.cursors_asked, vec![10, 20]);
}

#[test]
fn stream_end_reconnects_from_cursor() {
    let mut events = scripted(
        vec![page(vec![1], Some(10), None)],
        vec![
            Ok(vec![Ok(WatchStep::Apply(2)), Ok(WatchStep::Cursor(11))]),
            Ok(vec![Ok(WatchStep::Apply(5))]),
        ],
    );
    assert!(matches!(events.next(), Some(Ok(Event::Init))));
    assert!(matches!(events.next(), Some(Ok(Event::InitApply(1)))));
    assert!(matches!(events.next(), Some(Ok(Event::InitDone))));
    assert!(matches!(events.next(), Some(Ok(Event::Apply(2)))));
    // first watch stream ends; the driver silently reopens from cursor 11
    assert!(matches!(events.next(), Some(Ok(Event::Apply(5)))));
    assert_eq!(events.cursors_asked, vec![10, 11]);
}

#[test]
fn list_without_cursor_is_an_error_then_restarts() {
    let mut events = scripted(
        vec![
            page(vec![1], None, None), // no cursor anywhere: cannot watch
            page(vec![1], Some(10), None),
        ],
        vec![Ok(vec![])],
    );
    assert!(matches!(events.next(), Some(Ok(Event::Init))));
    assert!(matches!(events.next(), Some(Ok(Event::InitApply(1)))));
    assert!(matches!(
        events.next(),
        Some(Err(Error::NoResourceVersion))
    ));
    assert!(matches!(events.next(), Some(Ok(Event::Init))));
}

#[test]
fn transient_watch_error_holds_position() {
    let mut events = scripted(
        vec![page(vec![1], Some(10), None)],
        vec![Ok(vec![
            Ok(WatchStep::Apply(2)),
            Err(TestError(ErrorClass::Transient)),
            Ok(WatchStep::Apply(3)),
        ])],
    );
    assert!(matches!(events.next(), Some(Ok(Event::Init))));
    assert!(matches!(events.next(), Some(Ok(Event::InitApply(1)))));
    assert!(matches!(events.next(), Some(Ok(Event::InitDone))));
    assert!(matches!(events.next(), Some(Ok(Event::Apply(2)))));
    // transient error surfaces but the same stream continues (no re-list)
    assert!(matches!(events.next(), Some(Err(Error::Source(_)))));
    assert!(matches!(events.next(), Some(Ok(Event::Apply(3)))));
    assert_eq!(events.cursors_asked, vec![10]);
}

#[test]
fn transient_list_error_holds_position() {
    let mut events = scripted(
        vec![
            page(vec![1], None, Some(7)),
            Err(TestError(ErrorClass::Transient)),
            page(vec![2], Some(10), None),
        ],
        vec![Ok(vec![])],
    );
    assert!(matches!(events.next(), Some(Ok(Event::Init))));
    assert!(matches!(events.next(), Some(Ok(Event::InitApply(1)))));
    assert!(matches!(events.next(), Some(Err(Error::Source(_)))));
    // the same page is asked for again (no second Init)
    assert!(matches!(events.next(), Some(Ok(Event::InitApply(2)))));
    assert!(matches!(events.next(), Some(Ok(Event::InitDone))));
    assert_eq!(events.pages_asked, vec![None, Some(7), Some(7)]);
    assert_eq!(events.reports, vec![None, Some(Severity::Debug), None]);
}

#[test]
fn denied_first_page_is_asked_for_again_and_is_loud() {
    let mut events = scripted(
        vec![
            Err(TestError(ErrorClass::Denied)),
            Err(TestError(ErrorClass::Transient)),
            page(vec![2], Some(10), None),
        ],
        vec![Ok(vec![])],
    );
    assert!(matches!(events.next(), Some(Ok(Event::Init))));
    assert!(matches!(
        events.next(),
        Some(Err(Error::Source(TestError(ErrorClass::Denied))))
    ));
    assert!(matches!(
        events.next(),
        Some(Err(Error::Source(TestError(ErrorClass::Transient))))
    ));
    assert!(matches!(events.next(), Some(Ok(Event::InitApply(2)))));
    assert!(matches!(events.next(), Some(Ok(Event::InitDone))));
    assert_eq!(events.pages_asked, vec![None, None, None]);
    assert_eq!(
        events.reports,
        vec![Some(Severity::Warn), Some(Severity::Debug), None]
    );
}

#[test]
fn failed_list_keeps_the_cursor_of_earlier_pages() {
    let mut events = scripted(
        vec![
            page(vec![], Some(5), Some(7)),
            Err(TestError(ErrorClass::Transient)),
            page(vec![], None, None),
        ],
        vec![Ok(vec![Ok(WatchStep::Apply(3))])],
    );
    assert!(matches!(events.next(), Some(Ok(Event::Init))));
    assert!(matches!(events.next(), Some(Err(Error::Source(_)))));
    assert!(matches!(events.next(), Some(Ok(Event::InitDone))));
    assert!(matches!(events.next(), Some(Ok(Event::Apply(3)))));
    assert_eq!(events.cursors_asked, vec![5]);
}

#[test]
fn desync_on_list_starts_over_and_forgets_the_cursor() {
    let mut events = scripted(
        vec![
            page(vec![1], Some(5), Some(7)),
            Err(TestError(ErrorClass::Desync)),
            page(vec![2], None, None),
        ],
        vec![],
    );
    assert!(matches!(events.next(), Some(Ok(Event::Init))));
    assert!(matches!(events.next(), Some(Ok(Event::InitApply(1)))));
    assert!(matches!(
        events.next(),
        Some(Err(Error::Source(TestError(ErrorClass::Desync))))
    ));
    assert!(matches!(events.next(), Some(Ok(Event::Init))));
    assert!(matches!(events.next(), Some(Ok(Event::InitApply(2)))));
    assert!(matches!(events.next(), Some(Err(Error::NoResourceVersion))));
    assert_eq!(events.pages_asked, vec![None, Some(7), None]);
    assert_eq!(events.reports, vec![None, Some(Severity::Debug), None]);
}

#[test]
fn denied_and_transient_opens_are_tried_again_from_the_same_cursor() {
    let mut events = scripted(
        vec![page(vec![], Some(10), None)],
        vec![
            Err(TestError(ErrorClass::Denied)),
            Err(TestError(ErrorClass::Transient)),
            Ok(vec![Ok(WatchStep::Delete(9))]),
        ],
    );
    assert!(matches!(events.next(), Some(Ok(Event::Init))));
    assert!(matches!(events.next(), Some(Ok(Event::InitDone))));
    assert!(matches!(
        events.next(),
        Some(Err(Error::Source(TestError(ErrorClass::Denied))))
    ));
    assert!(matches!(
        events.next(),
        Some(Err(Error::Source(TestError(ErrorClass::Transient))))
    ));
    assert!(matches!(events.next(), Some(Ok(Event::Delete(9)))));
    assert_eq!(events.cursors_asked, vec![10, 10, 10]);
    assert_eq!(events.reports, vec![None, Some(Severity::Warn), None, None, None]);
}

#[test]
fn denied_stream_error_holds_position_and_is_loud() {
    let mut events = scripted(
        vec![page(vec![], Some(10), None)],
        vec![Ok(vec![
            Err(TestError(ErrorClass::Denied)),
            Ok(WatchStep::Apply(3)),
        ])],
    );
    assert!(matches!(events.next(), Some(Ok(Event::Init))));
    assert!(matches!(events.next(), Some(Ok(Event::InitDone))));
    assert!(matches!(events.next(), Some(Err(Error::Source(_)))));
    assert!(matches!(events.next(), Some(Ok(Event::Apply(3)))));
    assert_eq!(events.cursors_asked, vec![10]);
    assert_eq!(events.reports, vec![None, None, Some(Severity::Warn), None]);
}

#[test]
fn desync_on_stream_discards_stream_and_cursor() {
    let mut events = scripted(
        vec![
            page(vec![1], Some(10), None),
            page(vec![], Some(30), None),
        ],
        vec![
            Ok(vec![
                Ok(WatchStep::Cursor(20)),
                Err(TestError(ErrorClass::Desync)),
                Ok(WatchStep::Apply(99)),
            ]),
            Ok(vec![Ok(WatchStep::Apply(4))]),
        ],
    );
    assert!(matches!(events.next(), Some(Ok(Event::Init))));
    assert!(matches!(events.next(), Some(Ok(Event::InitApply(1)))));
    assert!(matches!(events.next(), Some(Ok(Event::InitDone))));
    assert!(matches!(events.next(), Some(Err(Error::Source(_)))));
    assert!(matches!(events.next(), Some(Ok(Event::Init))));
    assert!(matches!(events.next(), Some(Ok(Event::InitDone))));
    assert!(matches!(events.next(), Some(Ok(Event::Apply(4)))));
    assert_eq!(events.cursors_asked, vec![10, 30]);
}

#[test]
fn idle_stream_reconnects_from_cursor() {
    let mut events = scripted(
        vec![page(vec![], Some(10), None)],
        vec![
            Ok(vec![Ok(WatchStep::Cursor(12))]),
            Ok(vec![Ok(WatchStep::Apply(5))]),
        ],
    );
    events.source.idle = Some(Duration::from_secs(30));
    assert!(matches!(events.next(), Some(Ok(Event::Init))));
    assert!(matches!(events.next(), Some(Ok(Event::InitDone))));
    assert!(matches!(events.next(), Some(Ok(Event::Apply(5)))));
    assert_eq!(events.cursors_asked, vec![10, 12]);
}

#[test]
fn most_recent_page_cursor_wins_and_empty_pages_are_silent() {
    let mut events = scripted(
        vec![
            page(vec![], Some(1), Some(100)),
            page(vec![], Some(2), Some(200)),
            page(vec![8], None, None),
        ],
        vec![Ok(vec![Ok(WatchStep::Apply(9))])],
    );
    assert!(matches!(events.next(), Some(Ok(Event::Init))));
    assert!(matches!(events.next(), Some(Ok(Event::InitApply(8)))));
    assert!(matches!(events.next(), Some(Ok(Event::InitDone))));
    assert!(matches!(events.next(), Some(Ok(Event::Apply(9)))));
    assert_eq!(events.pages_asked, vec![None, Some(100), Some(200)]);
    assert_eq!(events.cursors_asked, vec![2]);
}
