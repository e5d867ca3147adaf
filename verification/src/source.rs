//! The list-then-watch driver, for any source.
//!
//! The driver is a finite state machine over two operations, an initial list that may come in
//! pages and a watch stream that can be resumed, and a few signals: a resume cursor, a page
//! token, an advance of the cursor, a desync ("the cursor is too old, list again") and a
//! liveness timeout. [`WatchSource`] names them without any encoding.
//!
//! The machine makes no call to the transport. [`step`] takes a [`State`] to a [`Turn`]: an item
//! to emit, or what is to be asked of the source. Once the source has replied, the `resume` of
//! that turn gives the item, if there is one, and the next state.
use crate::protocol::{
    after_list, after_next, after_quiet, after_watch, copies, quiet, reported, Move, Position,
};
use crate::watcher::{Error, Event};
use std::collections::VecDeque;
use std::time::Duration;
use vstd::prelude::*;

verus! {

/// How an error of a [`WatchSource`] steers the driver.
#[derive(Clone, Copy, Debug, Eq, PartialEq, Structural)]
pub enum ErrorClass {
    /// The resume cursor is no longer valid: it is discarded and the source listed again.
    Desync,
    /// Access was denied. Steers like [`ErrorClass::Transient`], but is logged loudly, since
    /// trying again rarely helps.
    Denied,
    /// Anything else: network failures, timeouts, decode errors. The error is surfaced and the
    /// driver tries again from where it is.
    Transient,
}

/// One page of the initial list.
pub struct ListPage<K, Cursor, Page> {
    /// The objects on this page.
    pub items: Vec<K>,
    /// The resume cursor as of this page, where the source knows it.
    pub cursor: Option<Cursor>,
    /// The token of the next page; `None` on the final one.
    pub next_page: Option<Page>,
}

/// One event on the watch stream of a [`WatchSource`].
#[derive(Clone, Debug)]
pub enum WatchStep<K, Cursor> {
    /// An object was created or updated.
    Apply(K),
    /// An object was removed.
    Delete(K),
    /// The resume cursor advanced; no object changed.
    Cursor(Cursor),
}

/// An error of a source, with the class that the source gave it.
pub struct Fault<E> {
    pub error: E,
    pub class: ErrorClass,
}

/// What a [`WatchSource`] can be asked for.
#[derive(Clone, Copy, Debug, Eq, PartialEq, Structural)]
pub enum Call {
    /// A page of the list.
    List,
    /// A watch stream.
    Watch,
    /// The next event on the watch stream.
    Next,
}

/// How loudly something is logged.
#[derive(Clone, Copy, Debug, Eq, PartialEq, Structural)]
pub enum Severity {
    Warn,
    Debug,
}

/// How the wait for the next event on a watch stream ended.
pub enum Waited<T> {
    /// The stream produced this.
    Produced(T),
    /// The stream ended.
    Ended,
    /// The stream produced nothing within the idle timeout.
    IdledOut,
}

/// A list-then-watch capable source of objects, in transport-neutral vocabulary.
///
/// The driver never sees the transport; it sees pages, cursors and steps. The two calls that
/// do reach the transport, listing a page and opening a watch stream, are not made from here:
/// a [`Turn`] says which of them is due and with which argument, and its `resume` takes the
/// reply.
pub trait WatchSource {
    /// The objects that the source holds.
    type Value: Clone + Send + 'static;

    /// A position from which a watch can be resumed.
    type Cursor: Clone + Send;

    /// What names a page of the list.
    type PageToken: Clone + Send;

    /// The errors of the source.
    type Error: Send + Sync + 'static;

    /// An open stream of changes.
    type WatchStream: Send;

    /// Classify an error, so that the driver knows whether to list again, complain, or just
    /// go on.
    fn classify(&self, _err: &Self::Error) -> (class: ErrorClass)
        default_ensures
            class == ErrorClass::Transient,
    {
        ErrorClass::Transient
    }

    /// For how long a watch stream may produce nothing before it counts as dead. `None` trusts
    /// the stream.
    fn idle_timeout(&self) -> (timeout: Option<Duration>)
        default_ensures
            timeout is None,
    {
        None
    }
}

/// The states of the driver.
#[allow(inconsistent_fields)]
pub enum State<S: WatchSource> {
    /// Nothing is known; the next step begins a fresh list.
    Empty,
    /// The list is being paged through and handed out.
    InitPage {
        next_page: Option<S::PageToken>,
        queue: VecDeque<S::Value>,
        cursor: Option<S::Cursor>,
        started: bool,
    },
    /// The list is complete; the next step opens the watch stream.
    Starting { cursor: S::Cursor },
    /// Changes are streaming.
    Watching { cursor: S::Cursor, stream: S::WatchStream },
}

impl<S: WatchSource> View for State<S> {
    type V = Position<S::Value, S::Cursor, S::PageToken, S::WatchStream>;

    open spec fn view(&self) -> Self::V {
        match *self {
            State::Empty => Position::Empty,
            State::InitPage { next_page, queue, cursor, started } => Position::InitPage {
                next_page,
                queue: queue@,
                cursor,
                started,
            },
            State::Starting { cursor } => Position::Starting { cursor },
            State::Watching { cursor, stream } => Position::Watching { cursor, stream },
        }
    }
}

/// What a step came to once the source has replied.
pub struct Outcome<S: WatchSource> {
    /// What to hand to the consumer; `None` means to step again at once.
    pub item: Option<Result<Event<S::Value>, Error<S::Error>>>,
    /// The state to step from next.
    pub state: State<S>,
    /// How loudly the error in `item` is to be logged, if at all.
    pub report: Option<Severity>,
}

impl<S: WatchSource> View for Outcome<S> {
    type V = Move<S::Value, S::Cursor, S::PageToken, S::Error, S::WatchStream>;

    open spec fn view(&self) -> Self::V {
        Move { item: self.item, position: self.state@ }
    }
}

/// A step that waits for a page of the list.
pub struct Listing<S: WatchSource> {
    /// A clone of the token of the page that is waited for, to ask for it again.
    pub kept: Option<S::PageToken>,
    /// The most recent cursor that an earlier page brought.
    pub cursor: Option<S::Cursor>,
    /// Whether an earlier page has arrived.
    pub started: bool,
}

/// A step that waits for a watch stream to open.
pub struct Opening<S: WatchSource> {
    /// Where the stream is to begin.
    pub cursor: S::Cursor,
}

/// A step that waits for the next event on the open watch stream.
pub struct Polling<S: WatchSource> {
    /// The most recent cursor.
    pub cursor: S::Cursor,
    /// The stream to await.
    pub stream: S::WatchStream,
}

/// What the driver does next.
pub enum Turn<S: WatchSource> {
    /// Hand `item` to the consumer and go on from `state`.
    Emit { item: Result<Event<S::Value>, Error<S::Error>>, state: State<S> },
    /// Ask the source for `page`, the first page being `None`.
    List { page: Option<S::PageToken>, listing: Listing<S> },
    /// Ask the source for a stream of the changes since `from`.
    Watch { from: S::Cursor, opening: Opening<S> },
    /// Await the stream, for no longer than `timeout` where there is one.
    Next { timeout: Option<Duration>, polling: Polling<S> },
}

/// The objects of a page, in order.
fn queue_of<V>(items: Vec<V>) -> (queue: VecDeque<V>)
    ensures
        queue@ == items@,
{
    let mut queue: VecDeque<V> = VecDeque::new();
    for item in iter: items
        invariant
            queue@ == iter.seq().take(iter.index() as int),
    {
        queue.push_back(item);
    }
    queue
}

/// Progress the machine as far as it goes without the source: to an item, or to what is to be
/// asked of the source.
pub fn step<S: WatchSource>(source: &S, state: State<S>) -> (turn: Turn<S>)
    ensures
        match turn {
            Turn::Emit { item, state: next } => {
                &&& quiet(state@)
                &&& after_quiet::<_, _, _, S::Error, _>(state@) == (Move {
                    item: Some(item),
                    position: next@,
                })
            },
            Turn::List { page, listing } => {
                &&& !quiet(state@)
                &&& state@ matches Position::InitPage { next_page, cursor, started, .. }
                &&& page == next_page
                &&& copies(page, listing.kept)
                &&& listing.cursor == cursor
                &&& listing.started == started
            },
            Turn::Watch { from, opening } => {
                &&& state@ matches Position::Starting { cursor }
                &&& opening.cursor == cursor
                &&& cloned(cursor, from)
            },
            Turn::Next { timeout, polling } => {
                &&& state@ matches Position::Watching { cursor, stream }
                &&& polling.cursor == cursor
                &&& polling.stream == stream
                &&& call_ensures(S::idle_timeout, (source,), timeout)
            },
        },
{
    match state {
        State::Empty => Turn::Emit {
            item: Ok(Event::Init),
            state: State::InitPage {
                next_page: None,
                queue: VecDeque::new(),
                cursor: None,
                started: false,
            },
        },
        State::InitPage { next_page, mut queue, cursor, started } => {
            if let Some(object) = queue.pop_front() {
                return Turn::Emit {
                    item: Ok(Event::InitApply(object)),
                    state: State::InitPage { next_page, queue, cursor, started },
                };
            }
            // pages drained and no further page named: the list is complete
            if started && next_page.is_none() {
                return match cursor {
                    Some(cursor) => Turn::Emit {
                        item: Ok(Event::InitDone),
                        state: State::Starting { cursor },
                    },
                    None => Turn::Emit {
                        item: Err(Error::NoResourceVersion),
                        state: State::Empty,
                    },
                };
            }
            let kept = next_page.clone();
            Turn::List { page: next_page, listing: Listing { kept, cursor, started } }
        },
        State::Starting { cursor } => Turn::Watch {
            from: cursor.clone(),
            opening: Opening { cursor },
        },
        State::Watching { cursor, stream } => Turn::Next {
            timeout: source.idle_timeout(),
            polling: Polling { cursor, stream },
        },
    }
}

/// `judged` is `reply` with its error, if it is one, classified by the source.
pub open spec fn judges<S: WatchSource, T>(
    source: &S,
    reply: Result<T, S::Error>,
    judged: Result<T, Fault<S::Error>>,
) -> bool {
    match reply {
        Ok(value) => judged == Ok::<T, Fault<S::Error>>(value),
        Err(error) => judged matches Err(fault) && fault.error == error && call_ensures(
            S::classify,
            (source, &error),
            fault.class,
        ),
    }
}

/// Have the source classify the error of a reply.
fn judge<S: WatchSource, T>(source: &S, reply: Result<T, S::Error>) -> (judged: Result<
    T,
    Fault<S::Error>,
>)
    ensures
        judges(source, reply, judged),
{
    match reply {
        Ok(value) => Ok(value),
        Err(error) => {
            let class = source.classify(&error);
            Err(Fault { error, class })
        },
    }
}

/// How loudly the failure of `call` is logged, if at all.
pub fn report(call: Call, class: ErrorClass) -> (severity: Option<Severity>)
    ensures
        severity == crate::protocol::severity(call, class),
{
    match class {
        ErrorClass::Denied => Some(Severity::Warn),
        _ => match call {
            Call::List => Some(Severity::Debug),
            _ => None,
        },
    }
}

impl<S: WatchSource> Listing<S> {
    /// Go on with the page that the source gave, or with its error.
    ///
    /// A page is queued. An error is surfaced; unless it is a desync, the next step asks for the
    /// same page again.
    pub fn conclude(
        self,
        reply: Result<ListPage<S::Value, S::Cursor, S::PageToken>, Fault<S::Error>>,
    ) -> (outcome: Outcome<S>)
        ensures
            outcome@ == after_list::<_, _, _, _, S::WatchStream>(
                self.kept,
                self.cursor,
                self.started,
                reply,
            ),
            outcome.report == reported(Call::List, reply),
    {
        match reply {
            Ok(page) => Outcome {
                item: None,
                state: State::InitPage {
                    next_page: page.next_page,
                    queue: queue_of(page.items),
                    cursor: match page.cursor {
                        Some(cursor) => Some(cursor),
                        None => self.cursor,
                    },
                    started: true,
                },
                report: None,
            },
            Err(fault) => Outcome {
                item: Some(Err(Error::Source(fault.error))),
                state: match fault.class {
                    ErrorClass::Desync => State::Empty,
                    ErrorClass::Denied | ErrorClass::Transient => State::InitPage {
                        next_page: self.kept,
                        queue: VecDeque::new(),
                        cursor: self.cursor,
                        started: self.started,
                    },
                },
                report: report(Call::List, fault.class),
            },
        }
    }

    /// [`Listing::conclude`], with the error classified by the source.
    pub fn resume(
        self,
        source: &S,
        reply: Result<ListPage<S::Value, S::Cursor, S::PageToken>, S::Error>,
    ) -> (outcome: Outcome<S>)
        ensures
            exists|judged|
                {
                    &&& #[trigger] judges(source, reply, judged)
                    &&& outcome@ == after_list::<_, _, _, _, S::WatchStream>(
                        self.kept,
                        self.cursor,
                        self.started,
                        judged,
                    )
                    &&& outcome.report == reported(Call::List, judged)
                },
    {
        let judged = judge(source, reply);
        self.conclude(judged)
    }
}

impl<S: WatchSource> Opening<S> {
    /// Go on with the stream that the source opened, or with its error.
    ///
    /// An error is surfaced; unless it is a desync, the next step tries again from the same
    /// cursor.
    pub fn conclude(self, reply: Result<S::WatchStream, Fault<S::Error>>) -> (outcome: Outcome<S>)
        ensures
            outcome@ == after_watch::<S::Value, _, S::PageToken, _, _>(self.cursor, reply),
            outcome.report == reported(Call::Watch, reply),
    {
        let cursor = self.cursor;
        match reply {
            Ok(stream) => Outcome {
                item: None,
                state: State::Watching { cursor, stream },
                report: None,
            },
            Err(fault) => Outcome {
                item: Some(Err(Error::Source(fault.error))),
                state: match fault.class {
                    ErrorClass::Desync => State::Empty,
                    ErrorClass::Denied | ErrorClass::Transient => State::Starting { cursor },
                },
                report: report(Call::Watch, fault.class),
            },
        }
    }

    /// [`Opening::conclude`], with the error classified by the source.
    pub fn resume(self, source: &S, reply: Result<S::WatchStream, S::Error>) -> (outcome: Outcome<
        S,
    >)
        ensures
            exists|judged|
                {
                    &&& #[trigger] judges(source, reply, judged)
                    &&& outcome@ == after_watch::<S::Value, _, S::PageToken, _, _>(
                        self.cursor,
                        judged,
                    )
                    &&& outcome.report == reported(Call::Watch, judged)
                },
    {
        let judged = judge(source, reply);
        self.conclude(judged)
    }
}

/// The next item of the stream, an idle timeout being the end of the stream.
pub fn next_or_reconnect<T>(waited: Waited<T>) -> (item: Option<T>)
    ensures
        item == match waited {
            Waited::Produced(produced) => Some(produced),
            Waited::Ended | Waited::IdledOut => None,
        },
{
    match waited {
        Waited::Produced(produced) => Some(produced),
        Waited::Ended | Waited::IdledOut => None,
    }
}

/// `judged` is what `waited` comes to, with its error, if it is one, classified by the source.
pub open spec fn judges_waited<S: WatchSource, T>(
    source: &S,
    waited: Waited<Result<T, S::Error>>,
    judged: Option<Result<T, Fault<S::Error>>>,
) -> bool {
    match waited {
        Waited::Produced(produced) => judged matches Some(reply) && judges(
            source,
            produced,
            reply,
        ),
        Waited::Ended | Waited::IdledOut => judged is None,
    }
}

impl<S: WatchSource> Polling<S> {
    /// Go on with what the stream produced, `None` being its end.
    ///
    /// Changes are handed on and cursors kept. An error is surfaced; unless it is a desync, the
    /// same stream is awaited again. When the stream has ended, the next step opens another
    /// from the last cursor.
    pub fn conclude(
        self,
        reply: Option<Result<WatchStep<S::Value, S::Cursor>, Fault<S::Error>>>,
    ) -> (outcome: Outcome<S>)
        ensures
            outcome@ == after_next::<_, _, S::PageToken, _, _>(self.cursor, self.stream, reply),
            outcome.report == match reply {
                Some(reply) => reported(Call::Next, reply),
                None => None,
            },
    {
        let cursor = self.cursor;
        let stream = self.stream;
        match reply {
            Some(Ok(WatchStep::Apply(object))) => Outcome {
                item: Some(Ok(Event::Apply(object))),
                state: State::Watching { cursor, stream },
                report: None,
            },
            Some(Ok(WatchStep::Delete(object))) => Outcome {
                item: Some(Ok(Event::Delete(object))),
                state: State::Watching { cursor, stream },
                report: None,
            },
            Some(Ok(WatchStep::Cursor(advanced))) => Outcome {
                item: None,
                state: State::Watching { cursor: advanced, stream },
                report: None,
            },
            Some(Err(fault)) => Outcome {
                item: Some(Err(Error::Source(fault.error))),
                state: match fault.class {
                    ErrorClass::Desync => State::Empty,
                    ErrorClass::Denied | ErrorClass::Transient => State::Watching {
                        cursor,
                        stream,
                    },
                },
                report: report(Call::Next, fault.class),
            },
            None => Outcome { item: None, state: State::Starting { cursor }, report: None },
        }
    }

    /// [`Polling::conclude`], with an idle timeout taken for the end of the stream and the
    /// error classified by the source.
    pub fn resume(
        self,
        source: &S,
        waited: Waited<Result<WatchStep<S::Value, S::Cursor>, S::Error>>,
    ) -> (outcome: Outcome<S>)
        ensures
            exists|judged|
                {
                    &&& #[trigger] judges_waited(source, waited, judged)
                    &&& outcome@ == after_next::<_, _, S::PageToken, _, _>(
                        self.cursor,
                        self.stream,
                        judged,
                    )
                    &&& outcome.report == match judged {
                        Some(reply) => reported(Call::Next, reply),
                        None => None,
                    }
                },
    {
        let judged = match next_or_reconnect(waited) {
            Some(produced) => Some(judge(source, produced)),
            None => None,
        };
        assert(judges_waited(source, waited, judged));
        self.conclude(judged)
    }
}

} // verus!
