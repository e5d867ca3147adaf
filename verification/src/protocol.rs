//! The driver as a mathematical machine: its positions, what the source can answer, and
//! where each answer leads.
//!
//! The type parameters are, throughout: `V` the objects, `C` the resume cursors, `P` the page
//! tokens, `E` the source's errors and `W` the watch streams.
use crate::source::{Call, ErrorClass, Fault, ListPage, Severity, WatchStep};
use crate::watcher::{Error, Event};
use vstd::prelude::*;

verus! {

/// What the driver hands to its consumer.
pub type Item<V, E> = Result<Event<V>, Error<E>>;

/// Where the driver stands: a [`State`](crate::source::State) with its queue as a sequence.
#[allow(inconsistent_fields)]
#[verifier::ext_equal]
pub enum Position<V, C, P, W> {
    /// Nothing is known.
    Empty,
    /// The list is in progress: `queue` is still to be handed out, `cursor` is the most
    /// recent that a page brought, and `started` says that a page has arrived.
    InitPage { next_page: Option<P>, queue: Seq<V>, cursor: Option<C>, started: bool },
    /// The list is complete and no watch stream is open.
    Starting { cursor: C },
    /// A watch stream is open.
    Watching { cursor: C, stream: W },
}

/// What one step brings about: an item for the consumer, if any, and the next position.
#[verifier::ext_equal]
pub struct Move<V, C, P, E, W> {
    pub item: Option<Item<V, E>>,
    pub position: Position<V, C, P, W>,
}

/// What passes between driver and source in one step.
#[allow(inconsistent_fields)]
pub enum Exchange<V, C, P, E, W> {
    /// Nothing: the driver can go on by itself.
    Quiet,
    /// A page was asked for. Its token went with the call; `kept` is the clone that stayed, to
    /// ask for the page again.
    List { page: Option<P>, kept: Option<P>, reply: Result<ListPage<V, C, P>, Fault<E>> },
    /// A watch stream was asked for.
    Watch { from: C, reply: Result<W, Fault<E>> },
    /// The open stream was awaited; it comes back as `stream`. `None` is the end of it.
    Next { stream: W, reply: Option<Result<WatchStep<V, C>, Fault<E>>> },
}

/// The list at this position is complete: nothing is queued and no further page is named.
pub open spec fn drained<V, C, P, W>(position: Position<V, C, P, W>) -> bool {
    position matches Position::InitPage { next_page, queue, started, .. } && queue.len() == 0
        && started && next_page is None
}

/// At this position the driver needs nothing from the source.
pub open spec fn quiet<V, C, P, W>(position: Position<V, C, P, W>) -> bool {
    match position {
        Position::Empty => true,
        Position::InitPage { queue, .. } => queue.len() > 0 || drained(position),
        _ => false,
    }
}

/// A step that needs nothing from the source: begin a list, hand out the next queued object,
/// or conclude a complete list.
pub open spec fn after_quiet<V, C, P, E, W>(position: Position<V, C, P, W>) -> Move<
    V,
    C,
    P,
    E,
    W,
>
    recommends
        quiet(position),
{
    match position {
        Position::InitPage { next_page, queue, cursor, started } => if queue.len() > 0 {
            Move {
                item: Some(Ok(Event::InitApply(queue.first()))),
                position: Position::InitPage {
                    next_page,
                    queue: queue.drop_first(),
                    cursor,
                    started,
                },
            }
        } else {
            match cursor {
                Some(cursor) => Move {
                    item: Some(Ok(Event::InitDone)),
                    position: Position::Starting { cursor },
                },
                None => Move {
                    item: Some(Err(Error::NoResourceVersion)),
                    position: Position::Empty,
                },
            }
        },
        _ => Move {
            item: Some(Ok(Event::Init)),
            position: Position::InitPage {
                next_page: None,
                queue: Seq::empty(),
                cursor: None,
                started: false,
            },
        },
    }
}

/// `first`, or `second` where there is no `first`.
pub open spec fn or_else<T>(first: Option<T>, second: Option<T>) -> Option<T> {
    if first is Some {
        first
    } else {
        second
    }
}

/// An error while `held` was the position: it is surfaced, and the position is given up only
/// on a desync.
pub open spec fn after_fault<V, C, P, E, W>(
    fault: Fault<E>,
    held: Position<V, C, P, W>,
) -> Move<V, C, P, E, W> {
    Move {
        item: Some(Err(Error::Source(fault.error))),
        position: if fault.class == ErrorClass::Desync {
            Position::Empty
        } else {
            held
        },
    }
}

/// A page was asked for when `cursor` was the most recent known, `started` telling whether a page
/// had arrived before and `kept` being what stayed of the token. A page is queued and its cursor,
/// where it has one, replaces the known one; after an error that is no desync the same page is to
/// be asked for again.
pub open spec fn after_list<V, C, P, E, W>(
    kept: Option<P>,
    cursor: Option<C>,
    started: bool,
    reply: Result<ListPage<V, C, P>, Fault<E>>,
) -> Move<V, C, P, E, W> {
    match reply {
        Ok(page) => Move {
            item: None,
            position: Position::InitPage {
                next_page: page.next_page,
                queue: page.items@,
                cursor: or_else(page.cursor, cursor),
                started: true,
            },
        },
        Err(fault) => after_fault(
            fault,
            Position::InitPage { next_page: kept, queue: Seq::empty(), cursor, started },
        ),
    }
}

/// A watch from `cursor` was asked for.
pub open spec fn after_watch<V, C, P, E, W>(cursor: C, reply: Result<W, Fault<E>>) -> Move<
    V,
    C,
    P,
    E,
    W,
> {
    match reply {
        Ok(stream) => Move { item: None, position: Position::Watching { cursor, stream } },
        Err(fault) => after_fault(fault, Position::Starting { cursor }),
    }
}

/// `stream` was awaited when `cursor` was the most recent known.
pub open spec fn after_next<V, C, P, E, W>(
    cursor: C,
    stream: W,
    reply: Option<Result<WatchStep<V, C>, Fault<E>>>,
) -> Move<V, C, P, E, W> {
    match reply {
        Some(Ok(WatchStep::Apply(object))) => Move {
            item: Some(Ok(Event::Apply(object))),
            position: Position::Watching { cursor, stream },
        },
        Some(Ok(WatchStep::Delete(object))) => Move {
            item: Some(Ok(Event::Delete(object))),
            position: Position::Watching { cursor, stream },
        },
        Some(Ok(WatchStep::Cursor(advanced))) => Move {
            item: None,
            position: Position::Watching { cursor: advanced, stream },
        },
        Some(Err(fault)) => after_fault(fault, Position::Watching { cursor, stream }),
        None => Move { item: None, position: Position::Starting { cursor } },
    }
}

/// How loudly the failure of a call is logged, if at all: a denial always loudly, any other
/// failed list in a low voice.
pub open spec fn severity(call: Call, class: ErrorClass) -> Option<Severity> {
    if class == ErrorClass::Denied {
        Some(Severity::Warn)
    } else if call == Call::List {
        Some(Severity::Debug)
    } else {
        None
    }
}

/// What is logged of a reply.
pub open spec fn reported<T, E>(call: Call, reply: Result<T, Fault<E>>) -> Option<Severity> {
    match reply {
        Ok(_) => None,
        Err(fault) => severity(call, fault.class),
    }
}

/// `copy` is a clone of `token`.
pub open spec fn copies<P: Clone>(token: Option<P>, copy: Option<P>) -> bool {
    match token {
        Some(token) => copy matches Some(copy) && cloned(token, copy),
        None => copy is None,
    }
}

/// The exchange is the one that the driver enters into at this position.
pub open spec fn admits<V, C: Clone, P: Clone, E, W>(
    position: Position<V, C, P, W>,
    exchange: Exchange<V, C, P, E, W>,
) -> bool {
    match exchange {
        Exchange::Quiet => quiet(position),
        Exchange::List { page, kept, .. } => !quiet(position) && (position matches Position::InitPage {
            next_page,
            ..
        } && page == next_page && copies(page, kept)),
        Exchange::Watch { from, .. } => position matches Position::Starting { cursor } && cloned(
            cursor,
            from,
        ),
        Exchange::Next { .. } => position is Watching,
    }
}

/// Where the exchange leads from this position.
pub open spec fn after<V, C: Clone, P: Clone, E, W>(
    position: Position<V, C, P, W>,
    exchange: Exchange<V, C, P, E, W>,
) -> Move<V, C, P, E, W>
    recommends
        admits(position, exchange),
{
    match exchange {
        Exchange::Quiet => after_quiet(position),
        Exchange::List { kept, reply, .. } => after_list(
            kept,
            position->InitPage_cursor,
            position->InitPage_started,
            reply,
        ),
        Exchange::Watch { reply, .. } => after_watch(position->Starting_cursor, reply),
        Exchange::Next { stream, reply } => after_next(
            position->Watching_cursor,
            stream,
            reply,
        ),
    }
}

} // verus!
