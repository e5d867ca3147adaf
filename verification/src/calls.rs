//! What each call of the driver owes, stated of its arguments and its result alone.
//!
//! A call is written `call_ensures(f, arguments, result)`: the result is one that `f` can give on
//! these arguments. Nothing stands between a call and the statement about it.
use crate::k8s::{FieldsV1, Time};
use crate::source::{
    next_or_reconnect, report, step, Call, ErrorClass, Fault, ListPage, Listing, Opening, Outcome,
    Polling, Severity, State, Turn, Waited, WatchSource, WatchStep,
};
use crate::watcher::{Error, Event};
use std::collections::VecDeque;
use std::marker::PhantomData;
use std::time::Duration;
use vstd::prelude::*;

verus! {

/// A driver that knows nothing tells the consumer that a list begins, and begins it: no page has
/// arrived, none is queued, no cursor is known. A list begins at no other time.
pub proof fn only_an_empty_driver_begins_a_list<S: WatchSource>(
    source: &S,
    state: State<S>,
    turn: Turn<S>,
)
    requires
        call_ensures(step::<S>, (source, state), turn),
    ensures
        state is Empty <==> (turn matches Turn::Emit { item: Ok(Event::Init), .. }),
        state is Empty ==> (turn matches Turn::Emit {
            state: State::InitPage { next_page: None, queue, cursor: None, started: false },
            ..
        } && queue@.len() == 0),
{
}

/// What is queued is handed out before anything else happens, first in, first out, one object at a
/// time, and nothing but the queue changes by it. Nothing is handed out that was not queued.
pub proof fn the_queue_is_handed_out_first<S: WatchSource>(
    source: &S,
    next_page: Option<S::PageToken>,
    queue: VecDeque<S::Value>,
    cursor: Option<S::Cursor>,
    started: bool,
    turn: Turn<S>,
)
    requires
        call_ensures(
            step::<S>,
            (source, State::InitPage { next_page, queue, cursor, started }),
            turn,
        ),
    ensures
        (turn matches Turn::Emit { item: Ok(Event::InitApply(_)), .. }) <==> queue@.len() > 0,
        queue@.len() > 0 ==> (turn matches Turn::Emit {
            item: Ok(Event::InitApply(object)),
            state: State::InitPage {
                next_page: still_next,
                queue: rest,
                cursor: still_known,
                started: still_started,
            },
        } && seq![object] + rest@ == queue@ && still_next == next_page && still_known == cursor
            && still_started == started),
{
    if queue@.len() > 0 {
        assert(seq![queue@.first()] + queue@.drop_first() =~= queue@);
    }
}

/// A list ends when a page has arrived, everything is handed out and no further page is named, and
/// not before. Then it ends well if and only if a cursor is known, and the watch is to begin there;
/// without one the driver has to begin again.
pub proof fn a_list_ends_only_when_nothing_is_left<S: WatchSource>(
    source: &S,
    state: State<S>,
    turn: Turn<S>,
)
    requires
        call_ensures(step::<S>, (source, state), turn),
    ensures
        (turn matches Turn::Emit { item: Ok(Event::InitDone), .. }) <==> (state matches State::InitPage {
            next_page: None,
            queue,
            cursor: Some(_),
            started: true,
        } && queue@.len() == 0),
        (turn matches Turn::Emit { item: Err(_), .. }) <==> (state matches State::InitPage {
            next_page: None,
            queue,
            cursor: None,
            started: true,
        } && queue@.len() == 0),
        turn matches Turn::Emit { item: Ok(Event::InitDone), state: next } ==> (
        next matches State::Starting { cursor } && state matches State::InitPage {
            cursor: Some(known),
            ..
        } && cursor == known),
        turn matches Turn::Emit { item: Err(error), state: next } ==> error is NoResourceVersion
            && next is Empty,
{
}

/// By itself the driver never tells of a change, nor of an error of the source.
pub proof fn changes_and_source_errors_come_from_the_source<S: WatchSource>(
    source: &S,
    state: State<S>,
    turn: Turn<S>,
)
    requires
        call_ensures(step::<S>, (source, state), turn),
    ensures
        turn matches Turn::Emit { item, .. } ==> !(item matches Ok(Event::Apply(_))) && !(
        item matches Ok(Event::Delete(_))) && !(item matches Err(Error::Source(_))),
{
}

/// A page is asked for when everything is handed out and the list is not at its end: before the
/// first page has arrived, and where a further page is named. It is asked for by that very token,
/// of which a clone stays behind with all else that is known.
pub proof fn the_next_page_is_asked_for<S: WatchSource>(source: &S, state: State<S>, turn: Turn<S>)
    requires
        call_ensures(step::<S>, (source, state), turn),
    ensures
        turn is List <==> (state matches State::InitPage { next_page, queue, started, .. }
            && queue@.len() == 0 && (next_page is Some || !started)),
        turn matches Turn::List { page, listing } ==> (state matches State::InitPage {
            next_page,
            cursor,
            started,
            ..
        } && page == next_page && listing.cursor == cursor && listing.started == started && (
        page is None <==> listing.kept is None) && (page matches Some(token) ==> cloned(
            token,
            listing.kept->0,
        ))),
{
}

/// Once the list is complete, and whenever no stream is open, a stream is asked for from a clone of
/// the known cursor, which stays known.
pub proof fn a_stream_is_asked_for_from_the_known_cursor<S: WatchSource>(
    source: &S,
    state: State<S>,
    turn: Turn<S>,
)
    requires
        call_ensures(step::<S>, (source, state), turn),
    ensures
        turn is Watch <==> state is Starting,
        turn matches Turn::Watch { from, opening } ==> (state matches State::Starting { cursor }
            && opening.cursor == cursor && cloned(cursor, from)),
{
}

/// While a stream is open it is awaited, with the cursor and the stream as they were, and for as
/// long as the source said.
pub proof fn an_open_stream_is_awaited<S: WatchSource>(source: &S, state: State<S>, turn: Turn<S>)
    requires
        call_ensures(step::<S>, (source, state), turn),
    ensures
        turn is Next <==> state is Watching,
        turn matches Turn::Next { timeout, polling } ==> (state matches State::Watching {
            cursor,
            stream,
        } && polling.cursor == cursor && polling.stream == stream && call_ensures(
            S::idle_timeout,
            (source,),
            timeout,
        )),
{
}

/// A page that arrived is queued whole and in order, its next page is the one to ask for, and the
/// known cursor is the page's own or, where it brings none, the one known before. Nothing is told to
/// the consumer or the log yet.
pub proof fn a_page_is_taken_in_whole<S: WatchSource>(
    listing: Listing<S>,
    page: ListPage<S::Value, S::Cursor, S::PageToken>,
    outcome: Outcome<S>,
)
    requires
        call_ensures(Listing::<S>::conclude, (listing, Ok(page)), outcome),
    ensures
        outcome.item is None,
        outcome.report is None,
        outcome.state matches State::InitPage { next_page, queue, cursor, started }
            && next_page == page.next_page && queue@ == page.items@ && started && (
        page.cursor is Some ==> cursor == page.cursor) && (page.cursor is None ==> cursor
            == listing.cursor),
{
}

/// The same, where the source itself is asked about errors: it is not asked about a page.
pub proof fn a_resumed_page_is_taken_in_whole<S: WatchSource>(
    source: &S,
    listing: Listing<S>,
    page: ListPage<S::Value, S::Cursor, S::PageToken>,
    outcome: Outcome<S>,
)
    requires
        call_ensures(Listing::<S>::resume, (listing, source, Ok(page)), outcome),
    ensures
        outcome.item is None,
        outcome.report is None,
        outcome.state matches State::InitPage { next_page, queue, cursor, started }
            && next_page == page.next_page && queue@ == page.items@ && started && (
        page.cursor is Some ==> cursor == page.cursor) && (page.cursor is None ==> cursor
            == listing.cursor),
{
}

/// A failed list is told to the consumer. A desync makes the driver begin again; any other error
/// leaves it where it was, with the page to be asked for again. A denial is logged loudly, any other
/// failure in a low voice.
pub proof fn a_failed_list_is_steered_by_its_class<S: WatchSource>(
    listing: Listing<S>,
    fault: Fault<S::Error>,
    outcome: Outcome<S>,
)
    requires
        call_ensures(Listing::<S>::conclude, (listing, Err(fault)), outcome),
    ensures
        outcome.item matches Some(Err(Error::Source(error))) && error == fault.error,
        outcome.state is Empty <==> fault.class == ErrorClass::Desync,
        fault.class != ErrorClass::Desync ==> (outcome.state matches State::InitPage {
            next_page,
            queue,
            cursor,
            started,
        } && next_page == listing.kept && queue@.len() == 0 && cursor == listing.cursor && started
            == listing.started),
        outcome.report matches Some(severity) && (severity == Severity::Warn <==> fault.class
            == ErrorClass::Denied),
{
}

/// The same, where the class is one that the source gives this error.
pub proof fn a_failed_list_is_classified_by_the_source<S: WatchSource>(
    source: &S,
    listing: Listing<S>,
    error: S::Error,
    outcome: Outcome<S>,
)
    requires
        call_ensures(Listing::<S>::resume, (listing, source, Err(error)), outcome),
    ensures
        outcome.item matches Some(Err(Error::Source(surfaced))) && surfaced == error,
        exists|class: ErrorClass|
            {
                &&& #[trigger] call_ensures(S::classify, (source, &error), class)
                &&& outcome.state is Empty <==> class == ErrorClass::Desync
                &&& outcome.report matches Some(severity) && (severity == Severity::Warn <==> class
                    == ErrorClass::Denied)
            },
        outcome.state !is Empty ==> (outcome.state matches State::InitPage {
            next_page,
            queue,
            cursor,
            started,
        } && next_page == listing.kept && queue@.len() == 0 && cursor == listing.cursor && started
            == listing.started),
{
}

/// A stream that was opened is the one to await next, from the cursor that it was opened with.
/// Nothing is told to the consumer or the log.
pub proof fn an_opened_stream_is_kept<S: WatchSource>(
    opening: Opening<S>,
    stream: S::WatchStream,
    outcome: Outcome<S>,
)
    requires
        call_ensures(Opening::<S>::conclude, (opening, Ok(stream)), outcome),
    ensures
        outcome.item is None,
        outcome.report is None,
        outcome.state matches State::Watching { cursor, stream: kept } && cursor == opening.cursor
            && kept == stream,
{
}

/// The same, where the source itself is asked about errors: it is not asked about a stream.
pub proof fn a_resumed_stream_is_kept<S: WatchSource>(
    source: &S,
    opening: Opening<S>,
    stream: S::WatchStream,
    outcome: Outcome<S>,
)
    requires
        call_ensures(Opening::<S>::resume, (opening, source, Ok(stream)), outcome),
    ensures
        outcome.item is None,
        outcome.report is None,
        outcome.state matches State::Watching { cursor, stream: kept } && cursor == opening.cursor
            && kept == stream,
{
}

/// A stream that did not open is told to the consumer. A desync makes the driver begin again; any
/// other error leaves it at the same cursor, with no stream. Only a denial is logged, and loudly.
pub proof fn a_failed_watch_is_steered_by_its_class<S: WatchSource>(
    opening: Opening<S>,
    fault: Fault<S::Error>,
    outcome: Outcome<S>,
)
    requires
        call_ensures(Opening::<S>::conclude, (opening, Err(fault)), outcome),
    ensures
        outcome.item matches Some(Err(Error::Source(error))) && error == fault.error,
        outcome.state is Empty <==> fault.class == ErrorClass::Desync,
        fault.class != ErrorClass::Desync ==> (outcome.state matches State::Starting { cursor }
            && cursor == opening.cursor),
        outcome.report is Some <==> fault.class == ErrorClass::Denied,
        outcome.report matches Some(severity) ==> severity == Severity::Warn,
{
}

/// The same, where the class is one that the source gives this error.
pub proof fn a_failed_watch_is_classified_by_the_source<S: WatchSource>(
    source: &S,
    opening: Opening<S>,
    error: S::Error,
    outcome: Outcome<S>,
)
    requires
        call_ensures(Opening::<S>::resume, (opening, source, Err(error)), outcome),
    ensures
        outcome.item matches Some(Err(Error::Source(surfaced))) && surfaced == error,
        exists|class: ErrorClass|
            {
                &&& #[trigger] call_ensures(S::classify, (source, &error), class)
                &&& outcome.state is Empty <==> class == ErrorClass::Desync
                &&& outcome.report is Some <==> class == ErrorClass::Denied
            },
        outcome.state !is Empty ==> (outcome.state matches State::Starting { cursor } && cursor
            == opening.cursor),
        outcome.report matches Some(severity) ==> severity == Severity::Warn,
{
}

/// What a stream gave in time is passed on as it is, and the stream goes on: a change is told to the
/// consumer and leaves the cursor alone, an advance of the cursor is remembered and not told.
pub proof fn a_step_of_the_stream_is_passed_on<S: WatchSource>(
    polling: Polling<S>,
    given: WatchStep<S::Value, S::Cursor>,
    outcome: Outcome<S>,
)
    requires
        call_ensures(Polling::<S>::conclude, (polling, Some(Ok(given))), outcome),
    ensures
        given matches WatchStep::Apply(object) ==> (outcome.item matches Some(
            Ok(Event::Apply(told)),
        ) && told == object),
        given matches WatchStep::Delete(object) ==> (outcome.item matches Some(
            Ok(Event::Delete(told)),
        ) && told == object),
        given is Cursor <==> outcome.item is None,
        outcome.report is None,
        outcome.state matches State::Watching { cursor, stream } && stream == polling.stream && (
        given matches WatchStep::Cursor(advanced) ==> cursor == advanced) && (given !is Cursor
            ==> cursor == polling.cursor),
{
}

/// The same of what the wait gave, where the source itself is asked about errors: it is not asked
/// about a step.
pub proof fn a_produced_step_is_passed_on<S: WatchSource>(
    source: &S,
    polling: Polling<S>,
    given: WatchStep<S::Value, S::Cursor>,
    outcome: Outcome<S>,
)
    requires
        call_ensures(
            Polling::<S>::resume,
            (polling, source, Waited::Produced(Ok(given))),
            outcome,
        ),
    ensures
        given matches WatchStep::Apply(object) ==> (outcome.item matches Some(
            Ok(Event::Apply(told)),
        ) && told == object),
        given matches WatchStep::Delete(object) ==> (outcome.item matches Some(
            Ok(Event::Delete(told)),
        ) && told == object),
        given is Cursor <==> outcome.item is None,
        outcome.report is None,
        outcome.state matches State::Watching { cursor, stream } && stream == polling.stream && (
        given matches WatchStep::Cursor(advanced) ==> cursor == advanced) && (given !is Cursor
            ==> cursor == polling.cursor),
{
}

/// An error on the stream is told to the consumer. A desync makes the driver begin again; after any
/// other error it awaits the same stream, at the same cursor. Only a denial is logged, and loudly.
pub proof fn an_error_of_the_stream_is_steered_by_its_class<S: WatchSource>(
    polling: Polling<S>,
    fault: Fault<S::Error>,
    outcome: Outcome<S>,
)
    requires
        call_ensures(Polling::<S>::conclude, (polling, Some(Err(fault))), outcome),
    ensures
        outcome.item matches Some(Err(Error::Source(error))) && error == fault.error,
        outcome.state is Empty <==> fault.class == ErrorClass::Desync,
        fault.class != ErrorClass::Desync ==> (outcome.state matches State::Watching {
            cursor,
            stream,
        } && cursor == polling.cursor && stream == polling.stream),
        outcome.report is Some <==> fault.class == ErrorClass::Denied,
        outcome.report matches Some(severity) ==> severity == Severity::Warn,
{
}

/// The same of what the wait gave, where the class is one that the source gives this error.
pub proof fn a_produced_error_is_classified_by_the_source<S: WatchSource>(
    source: &S,
    polling: Polling<S>,
    error: S::Error,
    outcome: Outcome<S>,
)
    requires
        call_ensures(
            Polling::<S>::resume,
            (polling, source, Waited::Produced(Err(error))),
            outcome,
        ),
    ensures
        outcome.item matches Some(Err(Error::Source(surfaced))) && surfaced == error,
        exists|class: ErrorClass|
            {
                &&& #[trigger] call_ensures(S::classify, (source, &error), class)
                &&& outcome.state is Empty <==> class == ErrorClass::Desync
                &&& outcome.report is Some <==> class == ErrorClass::Denied
            },
        outcome.state !is Empty ==> (outcome.state matches State::Watching { cursor, stream }
            && cursor == polling.cursor && stream == polling.stream),
        outcome.report matches Some(severity) ==> severity == Severity::Warn,
{
}

/// A stream that ended is given up in silence, and the driver is left at the same cursor, with no
/// stream.
pub proof fn an_ended_stream_is_given_up<S: WatchSource>(polling: Polling<S>, outcome: Outcome<S>)
    requires
        call_ensures(Polling::<S>::conclude, (polling, None), outcome),
    ensures
        outcome.item is None,
        outcome.report is None,
        outcome.state matches State::Starting { cursor } && cursor == polling.cursor,
{
}

/// Of all that a wait can give, the end of the stream and an idle timeout, and nothing else, make the
/// driver open another stream; it does so in silence and from the same cursor.
pub proof fn only_a_stream_that_ended_or_idled_out_is_replaced<S: WatchSource>(
    source: &S,
    polling: Polling<S>,
    waited: Waited<Result<WatchStep<S::Value, S::Cursor>, S::Error>>,
    outcome: Outcome<S>,
)
    requires
        call_ensures(Polling::<S>::resume, (polling, source, waited), outcome),
    ensures
        outcome.state is Starting <==> waited is Ended || waited is IdledOut,
        outcome.state matches State::Starting { cursor } ==> cursor == polling.cursor
            && outcome.item is None && outcome.report is None,
{
    if let Waited::Produced(Ok(given)) = waited {
        a_produced_step_is_passed_on(source, polling, given, outcome);
    }
    if let Waited::Produced(Err(error)) = waited {
        a_produced_error_is_classified_by_the_source(source, polling, error, outcome);
    }
}

/// Where a source gives an error no class but a desync, each of the three calls that can fail with it
/// makes the driver begin again.
pub proof fn what_the_source_calls_a_desync_is_one<S: WatchSource>(
    source: &S,
    error: S::Error,
    listing: Listing<S>,
    opening: Opening<S>,
    polling: Polling<S>,
    listed: Outcome<S>,
    opened: Outcome<S>,
    polled: Outcome<S>,
)
    requires
        forall|class: ErrorClass| #[trigger]
            call_ensures(S::classify, (source, &error), class) ==> class == ErrorClass::Desync,
        call_ensures(Listing::<S>::resume, (listing, source, Err(error)), listed),
        call_ensures(Opening::<S>::resume, (opening, source, Err(error)), opened),
        call_ensures(
            Polling::<S>::resume,
            (polling, source, Waited::Produced(Err(error))),
            polled,
        ),
    ensures
        listed.state is Empty,
        opened.state is Empty,
        polled.state is Empty,
{
    a_failed_list_is_classified_by_the_source(source, listing, error, listed);
    a_failed_watch_is_classified_by_the_source(source, opening, error, opened);
    a_produced_error_is_classified_by_the_source(source, polling, error, polled);
}

/// Where a source never calls an error a desync, none of the three calls that can fail with it makes
/// the driver begin again: the list stays a list, no stream is opened or dropped, and the cursors
/// stay.
pub proof fn what_the_source_calls_no_desync_is_none<S: WatchSource>(
    source: &S,
    error: S::Error,
    listing: Listing<S>,
    opening: Opening<S>,
    polling: Polling<S>,
    listed: Outcome<S>,
    opened: Outcome<S>,
    polled: Outcome<S>,
)
    requires
        forall|class: ErrorClass| #[trigger]
            call_ensures(S::classify, (source, &error), class) ==> class != ErrorClass::Desync,
        call_ensures(Listing::<S>::resume, (listing, source, Err(error)), listed),
        call_ensures(Opening::<S>::resume, (opening, source, Err(error)), opened),
        call_ensures(
            Polling::<S>::resume,
            (polling, source, Waited::Produced(Err(error))),
            polled,
        ),
    ensures
        listed.state matches State::InitPage { next_page, queue, cursor, started } && next_page
            == listing.kept && queue@.len() == 0 && cursor == listing.cursor && started
            == listing.started,
        opened.state matches State::Starting { cursor } && cursor == opening.cursor,
        polled.state matches State::Watching { cursor, stream } && cursor == polling.cursor
            && stream == polling.stream,
{
    a_failed_list_is_classified_by_the_source(source, listing, error, listed);
    a_failed_watch_is_classified_by_the_source(source, opening, error, opened);
    a_produced_error_is_classified_by_the_source(source, polling, error, polled);
}

/// A wait comes to what the stream produced, and to nothing where it ended or idled out.
pub proof fn a_wait_comes_to_what_was_produced<T>(waited: Waited<T>, item: Option<T>)
    requires
        call_ensures(next_or_reconnect::<T>, (waited,), item),
    ensures
        item is None <==> waited is Ended || waited is IdledOut,
        item matches Some(object) ==> waited == Waited::Produced(object),
{
}

/// A denial is logged loudly whatever failed; of the rest, a failed list alone is logged, in a low
/// voice.
pub proof fn a_failure_is_logged_by_its_kind(
    call: Call,
    class: ErrorClass,
    severity: Option<Severity>,
)
    requires
        call_ensures(report, (call, class), severity),
    ensures
        severity == Some(Severity::Warn) <==> class == ErrorClass::Denied,
        severity == Some(Severity::Debug) <==> class != ErrorClass::Denied && call == Call::List,
{
}

/// A source that leaves every answer to the driver.
pub struct Reticent<V, C, P, E, W> {
    pub types: PhantomData<(V, C, P, E, W)>,
}

impl<
    V: Clone + Send + 'static,
    C: Clone + Send,
    P: Clone + Send,
    E: Send + Sync + 'static,
    W: Send,
> WatchSource for Reticent<V, C, P, E, W> {
    type Value = V;

    type Cursor = C;

    type PageToken = P;

    type Error = E;

    type WatchStream = W;
}

/// A source that says nothing about its errors has transient ones.
pub proof fn the_unsaid_is_transient<
    V: Clone + Send + 'static,
    C: Clone + Send,
    P: Clone + Send,
    E: Send + Sync + 'static,
    W: Send,
>(
    source: &Reticent<V, C, P, E, W>,
    opening: Opening<Reticent<V, C, P, E, W>>,
    error: E,
    outcome: Outcome<Reticent<V, C, P, E, W>>,
)
    requires
        call_ensures(
            Opening::<Reticent<V, C, P, E, W>>::resume,
            (opening, source, Err(error)),
            outcome,
        ),
    ensures
        outcome.state !is Empty,
        outcome.report is None,
{
    a_failed_watch_is_classified_by_the_source(source, opening, error, outcome);
}

/// A source that says nothing about idling trusts its streams.
pub proof fn the_unsaid_is_trusting<
    V: Clone + Send + 'static,
    C: Clone + Send,
    P: Clone + Send,
    E: Send + Sync + 'static,
    W: Send,
>(source: &Reticent<V, C, P, E, W>, timeout: Option<Duration>)
    requires
        call_ensures(Reticent::<V, C, P, E, W>::idle_timeout, (source,), timeout),
    ensures
        timeout is None,
{
}

/// A clone of a time, or of a payload, is the same time or payload.
pub proof fn clones_are_the_same(
    time: Time,
    same_time: Time,
    fields: FieldsV1,
    same_fields: FieldsV1,
)
    requires
        call_ensures(Time::clone, (&time,), same_time),
        call_ensures(FieldsV1::clone, (&fields,), same_fields),
    ensures
        same_time == time,
        same_fields == fields,
{
}

} // verus!
