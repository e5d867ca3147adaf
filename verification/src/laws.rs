//! What holds of every run of the driver, whatever the source answers.
//!
//! A run is the sequence of exchanges since the driver was set going. The functions up to the
//! first proof read things off a run; the proof functions state the laws.
use crate::protocol::{admits, after, copies, drained, quiet, severity, Exchange, Item, Move, Position};
use crate::source::{
    judges, judges_waited, step, Call, ErrorClass, Fault, ListPage, Listing, Opening, Outcome, Polling,
    Severity, State, Turn, Waited, WatchSource, WatchStep,
};
use crate::watcher::{Error, Event};
use std::time::Duration;
use vstd::prelude::*;

verus! {

/// Where a run leads.
pub open spec fn reached<V, C: Clone, P: Clone, E, W>(run: Seq<Exchange<V, C, P, E, W>>) -> Position<
    V,
    C,
    P,
    W,
>
    decreases run.len(),
{
    if run.len() == 0 {
        Position::Empty
    } else {
        after(reached(run.drop_last()), run.last()).position
    }
}

/// Each exchange of the run is the one that was due.
pub open spec fn valid<V, C: Clone, P: Clone, E, W>(run: Seq<Exchange<V, C, P, E, W>>) -> bool
    decreases run.len(),
{
    run.len() > 0 ==> valid(run.drop_last()) && admits(reached(run.drop_last()), run.last())
}

/// What the last exchange of a run gave the consumer, if anything.
pub open spec fn last_item<V, C: Clone, P: Clone, E, W>(run: Seq<Exchange<V, C, P, E, W>>) -> Option<
    Item<V, E>,
>
    recommends
        run.len() > 0,
{
    after(reached(run.drop_last()), run.last()).item
}

/// Everything that a run gave the consumer, in order.
pub open spec fn emitted<V, C: Clone, P: Clone, E, W>(run: Seq<Exchange<V, C, P, E, W>>) -> Seq<
    Item<V, E>,
>
    decreases run.len(),
{
    if run.len() == 0 {
        Seq::empty()
    } else {
        match last_item(run) {
            Some(item) => emitted(run.drop_last()).push(item),
            None => emitted(run.drop_last()),
        }
    }
}

/// How far a consumer is in the protocol.
pub enum Stage {
    /// No list is in progress and none is complete.
    Outside,
    /// A list is in progress.
    Listing,
    /// A list is in progress, and the last item was an error of the source.
    Interrupted,
    /// The list is complete and changes follow.
    Live,
    /// The list is complete, and the last item was an error of the source.
    Disturbed,
}

/// The protocol: the stage after an item, or `None` where the item may not come.
pub open spec fn advance<V, E>(stage: Stage, item: Item<V, E>) -> Option<Stage> {
    match (stage, item) {
        (Stage::Outside, Ok(Event::Init)) => Some(Stage::Listing),
        (Stage::Listing | Stage::Interrupted, Ok(Event::InitApply(_))) => Some(Stage::Listing),
        (Stage::Listing | Stage::Interrupted, Ok(Event::InitDone)) => Some(Stage::Live),
        (Stage::Listing | Stage::Interrupted, Err(Error::NoResourceVersion)) => Some(
            Stage::Outside,
        ),
        (Stage::Listing | Stage::Interrupted, Err(Error::Source(_))) => Some(Stage::Interrupted),
        (Stage::Interrupted, Ok(Event::Init)) => Some(Stage::Listing),
        (Stage::Live, Ok(Event::Apply(_) | Event::Delete(_))) => Some(Stage::Live),
        (Stage::Live, Err(Error::Source(_))) => Some(Stage::Disturbed),
        (Stage::Disturbed, Ok(Event::Apply(_) | Event::Delete(_))) => Some(Stage::Live),
        (Stage::Disturbed, Err(Error::Source(_))) => Some(Stage::Disturbed),
        (Stage::Disturbed, Ok(Event::Init)) => Some(Stage::Listing),
        _ => None,
    }
}

/// The stage after a whole sequence of items, or `None` where one of them broke the protocol.
pub open spec fn followed<V, E>(items: Seq<Item<V, E>>) -> Option<Stage>
    decreases items.len(),
{
    if items.len() == 0 {
        Some(Stage::Outside)
    } else {
        match followed(items.drop_last()) {
            Some(stage) => advance(stage, items.last()),
            None => None,
        }
    }
}

/// The objects announced by `InitApply` since the last `Init`, in order.
pub open spec fn announced<V, E>(items: Seq<Item<V, E>>) -> Seq<V>
    decreases items.len(),
{
    if items.len() == 0 {
        Seq::empty()
    } else {
        match items.last() {
            Ok(Event::Init) => Seq::empty(),
            Ok(Event::InitApply(object)) => announced(items.drop_last()).push(object),
            _ => announced(items.drop_last()),
        }
    }
}

/// The last exchange of the run began a list.
pub open spec fn begins<V, C: Clone, P: Clone, E, W>(run: Seq<Exchange<V, C, P, E, W>>) -> bool
    recommends
        run.len() > 0,
{
    last_item(run) matches Some(Ok(Event::Init))
}

/// The page that the exchange brought, if it brought one.
pub open spec fn page_of<V, C, P, E, W>(exchange: Exchange<V, C, P, E, W>) -> Option<
    ListPage<V, C, P>,
> {
    match exchange {
        Exchange::List { reply: Ok(page), .. } => Some(page),
        _ => None,
    }
}

/// The pages that the source gave since the last list began, in order.
pub open spec fn pages<V, C: Clone, P: Clone, E, W>(run: Seq<Exchange<V, C, P, E, W>>) -> Seq<
    ListPage<V, C, P>,
>
    decreases run.len(),
{
    if run.len() == 0 || begins(run) {
        Seq::empty()
    } else {
        match page_of(run.last()) {
            Some(page) => pages(run.drop_last()).push(page),
            None => pages(run.drop_last()),
        }
    }
}

/// The token of the page that the list is to go on with: the one that the last page named or,
/// where that page has been asked for and the call failed, the clone that was kept of it. `None`
/// until a page has arrived since the list began.
pub open spec fn due_page<V, C: Clone, P: Clone, E, W>(
    run: Seq<Exchange<V, C, P, E, W>>,
) -> Option<P>
    decreases run.len(),
{
    if run.len() == 0 || begins(run) {
        None
    } else {
        match run.last() {
            Exchange::List { reply: Ok(page), .. } => page.next_page,
            Exchange::List { kept, reply: Err(_), .. } => kept,
            _ => due_page(run.drop_last()),
        }
    }
}

/// The pages that were asked for since the last list began, in order.
pub open spec fn asked<V, C: Clone, P: Clone, E, W>(run: Seq<Exchange<V, C, P, E, W>>) -> Seq<
    Option<P>,
>
    decreases run.len(),
{
    if run.len() == 0 || begins(run) {
        Seq::empty()
    } else {
        match run.last() {
            Exchange::List { page, .. } => asked(run.drop_last()).push(page),
            _ => asked(run.drop_last()),
        }
    }
}

/// The source has reported no error since the last list began.
pub open spec fn untroubled<V, C: Clone, P: Clone, E, W>(run: Seq<Exchange<V, C, P, E, W>>) -> bool
    decreases run.len(),
{
    run.len() == 0 || begins(run) || (fault_of(run.last()) is None && untroubled(run.drop_last()))
}

/// All the objects of the pages, in order.
pub open spec fn objects<V, C, P>(pages: Seq<ListPage<V, C, P>>) -> Seq<V>
    decreases pages.len(),
{
    if pages.len() == 0 {
        Seq::empty()
    } else {
        objects(pages.drop_last()) + pages.last().items@
    }
}

/// The most recent cursor that the source gave since the last list began, with a page or on a
/// watch stream.
pub open spec fn latest_cursor<V, C: Clone, P: Clone, E, W>(
    run: Seq<Exchange<V, C, P, E, W>>,
) -> Option<C>
    decreases run.len(),
{
    if run.len() == 0 || begins(run) {
        None
    } else {
        match run.last() {
            Exchange::List { reply: Ok(ListPage { cursor: Some(cursor), .. }), .. } => Some(cursor),
            Exchange::Next { reply: Some(Ok(WatchStep::Cursor(cursor))), .. } => Some(cursor),
            _ => latest_cursor(run.drop_last()),
        }
    }
}

/// The error that the source reported in the exchange, if it did.
pub open spec fn fault_of<V, C, P, E, W>(exchange: Exchange<V, C, P, E, W>) -> Option<Fault<E>> {
    match exchange {
        Exchange::List { reply: Err(fault), .. } => Some(fault),
        Exchange::Watch { reply: Err(fault), .. } => Some(fault),
        Exchange::Next { reply: Some(Err(fault)), .. } => Some(fault),
        _ => None,
    }
}

/// The errors that the source reported in a run, in order.
pub open spec fn source_errors<V, C, P, E, W>(run: Seq<Exchange<V, C, P, E, W>>) -> Seq<E>
    decreases run.len(),
{
    if run.len() == 0 {
        Seq::empty()
    } else {
        match fault_of(run.last()) {
            Some(fault) => source_errors(run.drop_last()).push(fault.error),
            None => source_errors(run.drop_last()),
        }
    }
}

/// The errors of the source that a consumer was given, in order.
pub open spec fn surfaced_errors<V, E>(items: Seq<Item<V, E>>) -> Seq<E>
    decreases items.len(),
{
    if items.len() == 0 {
        Seq::empty()
    } else {
        match items.last() {
            Err(Error::Source(error)) => surfaced_errors(items.drop_last()).push(error),
            _ => surfaced_errors(items.drop_last()),
        }
    }
}

/// A change to an object.
pub enum Change<V> {
    Applied(V),
    Deleted(V),
}

/// The changes that came on watch streams in a run, in order.
pub open spec fn streamed<V, C, P, E, W>(run: Seq<Exchange<V, C, P, E, W>>) -> Seq<Change<V>>
    decreases run.len(),
{
    if run.len() == 0 {
        Seq::empty()
    } else {
        match run.last() {
            Exchange::Next { reply: Some(Ok(WatchStep::Apply(object))), .. } => streamed(
                run.drop_last(),
            ).push(Change::Applied(object)),
            Exchange::Next { reply: Some(Ok(WatchStep::Delete(object))), .. } => streamed(
                run.drop_last(),
            ).push(Change::Deleted(object)),
            _ => streamed(run.drop_last()),
        }
    }
}

/// The changes that a consumer was given, in order.
pub open spec fn changes<V, E>(items: Seq<Item<V, E>>) -> Seq<Change<V>>
    decreases items.len(),
{
    if items.len() == 0 {
        Seq::empty()
    } else {
        match items.last() {
            Ok(Event::Apply(object)) => changes(items.drop_last()).push(Change::Applied(object)),
            Ok(Event::Delete(object)) => changes(items.drop_last()).push(Change::Deleted(object)),
            _ => changes(items.drop_last()),
        }
    }
}

/// A driver that has a state after a valid run, and makes the exchange that is due, has the next
/// state after a valid run, longer by that exchange.
pub proof fn due_exchanges_extend_a_run<V, C: Clone, P: Clone, E, W>(
    run: Seq<Exchange<V, C, P, E, W>>,
    exchange: Exchange<V, C, P, E, W>,
)
    requires
        valid(run),
        admits(reached(run), exchange),
    ensures
        valid(run.push(exchange)),
        reached(run.push(exchange)) == after(reached(run), exchange).position,
        emitted(run.push(exchange)) == match after(reached(run), exchange).item {
            Some(item) => emitted(run).push(item),
            None => emitted(run),
        },
{
    assert(run.push(exchange).drop_last() =~= run);
}

/// A step that emits by itself is the due exchange.
pub proof fn emitting_is_due<S: WatchSource>(
    source: &S,
    state: State<S>,
    item: Item<S::Value, S::Error>,
    next: State<S>,
)
    requires
        call_ensures(step::<S>, (source, state), Turn::Emit { item, state: next }),
    ensures
        ({
            let exchange = Exchange::<_, _, _, S::Error, _>::Quiet;
            &&& admits(state@, exchange)
            &&& after(state@, exchange) == (Move { item: Some(item), position: next@ })
        }),
{
}

/// A step that asks for a page is, with the reply, the due exchange.
pub proof fn listing_is_due<S: WatchSource>(
    source: &S,
    state: State<S>,
    page: Option<S::PageToken>,
    listing: Listing<S>,
    reply: Result<ListPage<S::Value, S::Cursor, S::PageToken>, Fault<S::Error>>,
    outcome: Outcome<S>,
)
    requires
        call_ensures(step::<S>, (source, state), Turn::List { page, listing }),
        call_ensures(Listing::<S>::conclude, (listing, reply), outcome),
    ensures
        admits(state@, Exchange::List { page, kept: listing.kept, reply }),
        after(state@, Exchange::List { page, kept: listing.kept, reply }) == outcome@,
{
}

/// So it is where the source classifies the error of the reply.
pub proof fn listing_resumed_is_due<S: WatchSource>(
    source: &S,
    state: State<S>,
    page: Option<S::PageToken>,
    listing: Listing<S>,
    reply: Result<ListPage<S::Value, S::Cursor, S::PageToken>, S::Error>,
    outcome: Outcome<S>,
)
    requires
        call_ensures(step::<S>, (source, state), Turn::List { page, listing }),
        call_ensures(Listing::<S>::resume, (listing, source, reply), outcome),
    ensures
        exists|judged|
            {
                &&& #[trigger] judges(source, reply, judged)
                &&& admits(state@, Exchange::List { page, kept: listing.kept, reply: judged })
                &&& after(state@, Exchange::List { page, kept: listing.kept, reply: judged }) == outcome@
            },
{
}

/// A step that asks for a watch stream is, with the reply, the due exchange.
pub proof fn opening_is_due<S: WatchSource>(
    source: &S,
    state: State<S>,
    from: S::Cursor,
    opening: Opening<S>,
    reply: Result<S::WatchStream, Fault<S::Error>>,
    outcome: Outcome<S>,
)
    requires
        call_ensures(step::<S>, (source, state), Turn::Watch { from, opening }),
        call_ensures(Opening::<S>::conclude, (opening, reply), outcome),
    ensures
        admits(state@, Exchange::Watch { from, reply }),
        after(state@, Exchange::Watch { from, reply }) == outcome@,
{
}

/// So it is where the source classifies the error of the reply.
pub proof fn opening_resumed_is_due<S: WatchSource>(
    source: &S,
    state: State<S>,
    from: S::Cursor,
    opening: Opening<S>,
    reply: Result<S::WatchStream, S::Error>,
    outcome: Outcome<S>,
)
    requires
        call_ensures(step::<S>, (source, state), Turn::Watch { from, opening }),
        call_ensures(Opening::<S>::resume, (opening, source, reply), outcome),
    ensures
        exists|judged|
            {
                &&& #[trigger] judges(source, reply, judged)
                &&& admits(state@, Exchange::Watch { from, reply: judged })
                &&& after(state@, Exchange::Watch { from, reply: judged }) == outcome@
            },
{
}

/// A step that awaits the stream is, with what came of it and the stream as the wait left it, the
/// due exchange.
pub proof fn polling_is_due<S: WatchSource>(
    source: &S,
    state: State<S>,
    timeout: Option<Duration>,
    polling: Polling<S>,
    stream: S::WatchStream,
    reply: Option<Result<WatchStep<S::Value, S::Cursor>, Fault<S::Error>>>,
    outcome: Outcome<S>,
)
    requires
        call_ensures(step::<S>, (source, state), Turn::Next { timeout, polling }),
        call_ensures(
            Polling::<S>::conclude,
            (Polling { cursor: polling.cursor, stream }, reply),
            outcome,
        ),
    ensures
        admits(state@, Exchange::Next { stream, reply }),
        after(state@, Exchange::Next { stream, reply }) == outcome@,
{
}

/// So it is where the source classifies the error, and a stream that idled out has ended.
pub proof fn polling_resumed_is_due<S: WatchSource>(
    source: &S,
    state: State<S>,
    timeout: Option<Duration>,
    polling: Polling<S>,
    stream: S::WatchStream,
    waited: Waited<Result<WatchStep<S::Value, S::Cursor>, S::Error>>,
    outcome: Outcome<S>,
)
    requires
        call_ensures(step::<S>, (source, state), Turn::Next { timeout, polling }),
        call_ensures(Polling::<S>::resume, (Polling { cursor: polling.cursor, stream }, source, waited), outcome),
    ensures
        exists|judged|
            {
                &&& #[trigger] judges_waited(source, waited, judged)
                &&& admits(state@, Exchange::Next { stream, reply: judged })
                &&& after(state@, Exchange::Next { stream, reply: judged }) == outcome@
            },
{
}

/// The stage that a consumer can be in at a position.
spec fn agrees<V, C, P, W>(position: Position<V, C, P, W>, stage: Stage) -> bool {
    match position {
        Position::Empty => stage is Outside || stage is Interrupted || stage is Disturbed,
        Position::InitPage { .. } => stage is Listing || stage is Interrupted,
        _ => stage is Live || stage is Disturbed,
    }
}

proof fn lemma_stage<V, C: Clone, P: Clone, E, W>(run: Seq<Exchange<V, C, P, E, W>>)
    requires
        valid(run),
    ensures
        followed(emitted(run)) matches Some(stage) && agrees(reached(run), stage),
    decreases run.len(),
{
    if run.len() > 0 {
        lemma_stage(run.drop_last());
        if let Some(item) = last_item(run) {
            assert(emitted(run).drop_last() =~= emitted(run.drop_last()));
        }
    }
}

/// Whatever the source answers, the items keep to the protocol: `Init`, the listed objects,
/// `InitDone`, then changes. An error may come between, and only after an error, or at the
/// start, may there be another `Init`.
pub proof fn items_follow_the_protocol<V, C: Clone, P: Clone, E, W>(run: Seq<Exchange<V, C, P, E, W>>)
    requires
        valid(run),
    ensures
        followed(emitted(run)) is Some,
{
    lemma_stage(run);
}

/// A page is due only where the last page to arrive named one.
spec fn due_is_named<V, C: Clone, P: Clone, E, W>(run: Seq<Exchange<V, C, P, E, W>>) -> bool {
    due_page(run) is Some <==> pages(run).len() > 0 && pages(run).last().next_page is Some
}

/// What a position owes to the run that led to it.
spec fn accounts<V, C: Clone, P: Clone, E, W>(run: Seq<Exchange<V, C, P, E, W>>) -> bool {
    let pages = pages(run);
    let announced = announced(emitted(run));
    match reached(run) {
        Position::Empty => true,
        Position::InitPage { next_page, queue, cursor, started } => {
            &&& announced + queue == objects(pages)
            &&& cursor == latest_cursor(run)
            &&& started == (pages.len() > 0)
            &&& next_page == due_page(run)
            &&& due_is_named(run)
        },
        Position::Starting { cursor } | Position::Watching { cursor, .. } => {
            &&& announced == objects(pages)
            &&& latest_cursor(run) == Some(cursor)
            &&& pages.len() > 0
            &&& due_page(run) is None
            &&& due_is_named(run)
        },
    }
}

proof fn lemma_accounts<V, C: Clone, P: Clone, E, W>(run: Seq<Exchange<V, C, P, E, W>>)
    requires
        valid(run),
    ensures
        accounts(run),
    decreases run.len(),
{
    if run.len() > 0 {
        let before = run.drop_last();
        lemma_accounts(before);
        if let Some(item) = last_item(run) {
            assert(emitted(run).drop_last() =~= emitted(before));
        }
        if let Some(page) = page_of(run.last()) {
            assert(pages(run).drop_last() =~= pages(before));
        }
        if let Position::InitPage { queue, .. } = reached(before) {
            if queue.len() > 0 {
                assert(announced(emitted(before)).push(queue.first()) + queue.drop_first()
                    =~= announced(emitted(before)) + queue);
            }
        }
    }
}

/// Between an `Init` and its `InitDone` the consumer is given exactly the objects of all the
/// pages, in the order in which the source listed them, and the last of these pages named no
/// further one.
pub proof fn init_announces_the_whole_list<V, C: Clone, P: Clone, E, W>(
    run: Seq<Exchange<V, C, P, E, W>>,
)
    requires
        valid(run),
        run.len() > 0,
        last_item(run) matches Some(Ok(Event::InitDone)),
    ensures
        announced(emitted(run)) == objects(pages(run)),
        pages(run).len() > 0,
        pages(run).last().next_page is None,
{
    lemma_accounts(run);
}

/// The first page of a list is asked for with `None`, and each further one with the token that
/// the last page to arrive named, or, after a call for it failed, with the clone that was kept of
/// that token. None is asked for after a page that named none, nor before all objects of the
/// earlier pages have been handed out.
pub proof fn pages_are_asked_for_by_token<V, C: Clone, P: Clone, E, W>(
    run: Seq<Exchange<V, C, P, E, W>>,
)
    requires
        valid(run),
        run.len() > 0,
        run.last() is List,
    ensures
        run.last()->List_page == due_page(run.drop_last()),
        copies(run.last()->List_page, run.last()->List_kept),
        run.last()->List_page is Some <==> pages(run.drop_last()).len() > 0,
        announced(emitted(run.drop_last())) == objects(pages(run.drop_last())),
{
    lemma_accounts(run.drop_last());
}

/// These calls were made for these pages: one for each page, the first with `None` and each
/// further one with the very token that the page before it named.
pub open spec fn asks_for<V, C, P>(asked: Seq<Option<P>>, pages: Seq<ListPage<V, C, P>>) -> bool {
    &&& asked.len() == pages.len()
    &&& forall|k: int|
        0 <= k < asked.len() ==> #[trigger] asked[k] == if k == 0 {
            None
        } else {
            pages[k - 1].next_page
        }
    &&& forall|k: int| 1 <= k < asked.len() ==> (#[trigger] asked[k]) is Some
}

proof fn lemma_asked<V, C: Clone, P: Clone, E, W>(run: Seq<Exchange<V, C, P, E, W>>)
    requires
        valid(run),
        untroubled(run),
        reached(run) !is Empty,
    ensures
        asks_for(asked(run), pages(run)),
        pages(run).len() > 0 ==> due_page(run) == pages(run).last().next_page,
    decreases run.len(),
{
    let before = run.drop_last();
    if run.len() > 0 && !begins(run) {
        lemma_asked(before);
        lemma_accounts(before);
    }
}

/// A list that meets no error makes one call for each page: the first with `None`, each further
/// one with the very token that the page before it named, and no more once a page named none. The
/// consumer is given exactly the objects of these pages, in order.
pub proof fn an_untroubled_list_asks_for_each_page_once<V, C: Clone, P: Clone, E, W>(
    run: Seq<Exchange<V, C, P, E, W>>,
)
    requires
        valid(run),
        untroubled(run),
        run.len() > 0,
        last_item(run) matches Some(Ok(Event::InitDone)),
    ensures
        asks_for(asked(run), pages(run)),
        pages(run).len() > 0,
        pages(run).last().next_page is None,
        announced(emitted(run)) == objects(pages(run)),
{
    lemma_asked(run);
    lemma_accounts(run);
}

/// A watch is opened only once the list is complete and the consumer has been told so, and from
/// the most recent cursor that the source gave since that list began, be it with a page or on an
/// earlier stream.
pub proof fn watches_resume_from_the_latest_cursor<V, C: Clone, P: Clone, E, W>(
    run: Seq<Exchange<V, C, P, E, W>>,
)
    requires
        valid(run),
        run.len() > 0,
        run.last() is Watch,
    ensures
        latest_cursor(run.drop_last()) matches Some(cursor) && cloned(
            cursor,
            run.last()->Watch_from,
        ),
        followed(emitted(run.drop_last())) matches Some(stage) && (stage is Live
            || stage is Disturbed),
        announced(emitted(run.drop_last())) == objects(pages(run.drop_last())),
        due_page(run.drop_last()) is None,
{
    lemma_stage(run.drop_last());
    lemma_accounts(run.drop_last());
}

/// A complete list ends in `InitDone` where some page of it brought a cursor, and in
/// `NoResourceVersion` where none did; then the driver starts over.
pub proof fn a_list_needs_a_cursor<V, C: Clone, P: Clone, E, W>(run: Seq<Exchange<V, C, P, E, W>>)
    requires
        valid(run),
        drained(reached(run)),
    ensures
        ({
            let next: Move<V, C, P, E, W> = after(reached(run), Exchange::Quiet);
            if exists|i: int| 0 <= i < pages(run).len() && (#[trigger] pages(run)[i]).cursor is Some {
                &&& next.item matches Some(Ok(Event::InitDone))
                &&& next.position is Starting
            } else {
                &&& next.item matches Some(Err(Error::NoResourceVersion))
                &&& next.position is Empty
            }
        }),
{
    lemma_accounts(run);
    lemma_cursor_of_pages(run);
}

proof fn lemma_cursor_of_pages<V, C: Clone, P: Clone, E, W>(run: Seq<Exchange<V, C, P, E, W>>)
    requires
        valid(run),
        reached(run) is InitPage,
    ensures
        latest_cursor(run) is Some <==> exists|i: int|
            0 <= i < pages(run).len() && (#[trigger] pages(run)[i]).cursor is Some,
    decreases run.len(),
{
    let before = run.drop_last();
    if run.len() > 0 && !begins(run) {
        lemma_cursor_of_pages(before);
        if let Some(page) = page_of(run.last()) {
            assert(pages(run).drop_last() =~= pages(before));
            assert(pages(run)[pages(before).len() as int] == page);
        }
    }
}

/// A list is called lacking only at its very end: a page has arrived and the last one named no
/// further one, every object of every page has been handed out, and no page brought a cursor.
pub proof fn only_a_whole_list_lacks_a_cursor<V, C: Clone, P: Clone, E, W>(
    run: Seq<Exchange<V, C, P, E, W>>,
)
    requires
        valid(run),
        run.len() > 0,
        last_item(run) matches Some(Err(Error::NoResourceVersion)),
    ensures
        pages(run.drop_last()).len() > 0,
        pages(run.drop_last()).last().next_page is None,
        announced(emitted(run.drop_last())) == objects(pages(run.drop_last())),
        forall|i: int|
            0 <= i < pages(run.drop_last()).len() ==> (#[trigger] pages(
                run.drop_last(),
            )[i]).cursor is None,
{
    lemma_accounts(run.drop_last());
    lemma_cursor_of_pages(run.drop_last());
}

/// A list is called complete only at its very end, and only where some page brought a cursor.
pub proof fn only_a_whole_list_with_a_cursor_is_complete<V, C: Clone, P: Clone, E, W>(
    run: Seq<Exchange<V, C, P, E, W>>,
)
    requires
        valid(run),
        run.len() > 0,
        last_item(run) matches Some(Ok(Event::InitDone)),
    ensures
        pages(run.drop_last()).len() > 0,
        pages(run.drop_last()).last().next_page is None,
        announced(emitted(run.drop_last())) == objects(pages(run.drop_last())),
        exists|i: int|
            0 <= i < pages(run.drop_last()).len() && (#[trigger] pages(
                run.drop_last(),
            )[i]).cursor is Some,
{
    lemma_accounts(run.drop_last());
    lemma_cursor_of_pages(run.drop_last());
}

/// A stream that opened is awaited next, and so is one that gave a step or an error that is no
/// desync: the exchange that is due next is on that very stream, from the cursor that is known by
/// then.
pub proof fn an_open_stream_is_read_on<V, C: Clone, P: Clone, E, W>(
    position: Position<V, C, P, W>,
    exchange: Exchange<V, C, P, E, W>,
    next: Exchange<V, C, P, E, W>,
)
    requires
        admits(position, exchange),
        match exchange {
            Exchange::Watch { reply, .. } => reply is Ok,
            Exchange::Next { reply, .. } => reply matches Some(given) && (given matches Err(fault)
                ==> fault.class != ErrorClass::Desync),
            _ => false,
        },
        admits(after(position, exchange).position, next),
    ensures
        next is Next,
        after(position, exchange).position matches Position::Watching { cursor, stream } && (
        exchange matches Exchange::Watch { reply: Ok(opened), .. } ==> stream == opened && position
            == (Position::<V, C, P, W>::Starting { cursor })) && (exchange matches Exchange::Next {
            stream: awaited,
            reply: Some(given),
        } ==> stream == awaited && (given matches Ok(WatchStep::Cursor(advanced)) ==> cursor
            == advanced) && (!(given matches Ok(WatchStep::Cursor(_))) ==> (
        position matches Position::Watching { cursor: known, .. } && cursor == known))),
{
}

/// A stream is asked for only when a list has just been completed, after a stream ended, and after
/// one did not open for a reason that is no desync; so no open stream is ever dropped.
pub proof fn a_watch_follows_a_list_or_the_loss_of_a_stream<V, C: Clone, P: Clone, E, W>(
    run: Seq<Exchange<V, C, P, E, W>>,
)
    requires
        valid(run),
        run.len() > 0,
        run.last() is Watch,
    ensures
        run.len() > 1,
        match run.drop_last().last() {
            Exchange::Quiet => last_item(run.drop_last()) matches Some(Ok(Event::InitDone)),
            Exchange::List { .. } => false,
            Exchange::Watch { reply, .. } => reply matches Err(fault) && fault.class
                != ErrorClass::Desync,
            Exchange::Next { reply, .. } => reply is None,
        },
{
    assert(valid(run.drop_last()));
}

/// A stream is awaited only directly after it opened or after it gave a step or an error that is no
/// desync.
pub proof fn only_an_open_stream_is_awaited<V, C: Clone, P: Clone, E, W>(
    run: Seq<Exchange<V, C, P, E, W>>,
)
    requires
        valid(run),
        run.len() > 0,
        run.last() is Next,
    ensures
        run.len() > 1,
        match run.drop_last().last() {
            Exchange::Watch { reply, .. } => reply is Ok,
            Exchange::Next { reply, .. } => reply matches Some(given) && (given matches Err(fault)
                ==> fault.class != ErrorClass::Desync),
            _ => false,
        },
{
    assert(valid(run.drop_last()));
}

/// No error of the source is swallowed, repeated or reordered: the consumer is given exactly
/// those that the source reported.
pub proof fn source_errors_are_surfaced<V, C: Clone, P: Clone, E, W>(run: Seq<Exchange<V, C, P, E, W>>)
    requires
        valid(run),
    ensures
        surfaced_errors(emitted(run)) == source_errors(run),
    decreases run.len(),
{
    if run.len() > 0 {
        source_errors_are_surfaced(run.drop_last());
        if let Some(item) = last_item(run) {
            assert(emitted(run).drop_last() =~= emitted(run.drop_last()));
        }
    }
}

/// No change is swallowed, repeated or reordered: the consumer is given exactly those that came
/// on the watch streams.
pub proof fn changes_are_handed_on<V, C: Clone, P: Clone, E, W>(run: Seq<Exchange<V, C, P, E, W>>)
    requires
        valid(run),
    ensures
        changes(emitted(run)) == streamed(run),
    decreases run.len(),
{
    if run.len() > 0 {
        changes_are_handed_on(run.drop_last());
        if let Some(item) = last_item(run) {
            assert(emitted(run).drop_last() =~= emitted(run.drop_last()));
        }
    }
}

/// The exchange makes the driver give up what it knows: the source reported a desync, or a list
/// ended without a cursor.
pub open spec fn forfeits<V, C: Clone, P: Clone, E, W>(
    position: Position<V, C, P, W>,
    exchange: Exchange<V, C, P, E, W>,
) -> bool {
    match fault_of(exchange) {
        Some(fault) => fault.class == ErrorClass::Desync,
        None => exchange is Quiet && drained(position) && position->InitPage_cursor is None,
    }
}

/// A list begins at the start of the run and directly after each exchange that forfeits what
/// was known, and at no other time. In particular neither the end of a stream, nor an idle
/// timeout, nor an error that is no desync brings one about.
pub proof fn lists_begin_only_at_need<V, C: Clone, P: Clone, E, W>(run: Seq<Exchange<V, C, P, E, W>>)
    requires
        valid(run),
        run.len() > 0,
    ensures
        begins(run) <==> {
            let before = run.drop_last();
            before.len() == 0 || forfeits(reached(before.drop_last()), before.last())
        },
{
    let before = run.drop_last();
    assert(valid(before));
}

/// A desync, whichever call reports it, is surfaced, the cursor is discarded, and the driver goes
/// on with nothing but a fresh list: `Init`, and then the first page.
pub proof fn desync_relists_from_scratch<V, C: Clone, P: Clone, E, W>(
    position: Position<V, C, P, W>,
    exchange: Exchange<V, C, P, E, W>,
    next: Exchange<V, C, P, E, W>,
    then: Exchange<V, C, P, E, W>,
)
    requires
        admits(position, exchange),
        fault_of(exchange) matches Some(fault) && fault.class == ErrorClass::Desync,
        admits(after(position, exchange).position, next),
        admits(after(after(position, exchange).position, next).position, then),
    ensures
        after(position, exchange).item == Some::<Item<V, E>>(
            Err(Error::Source(fault_of(exchange)->0.error)),
        ),
        after(position, exchange).position is Empty,
        after(after(position, exchange).position, next).item matches Some(Ok(Event::Init)),
        then matches Exchange::List { page: None, .. },
{
}

/// An error that is no desync, whichever call reports it, is surfaced, and the driver holds its
/// position: the same cursor, the same stream where one is open, and the same page of the list,
/// by the clone that was kept of its token.
pub proof fn other_errors_hold_the_position<V, C: Clone, P: Clone, E, W>(
    position: Position<V, C, P, W>,
    exchange: Exchange<V, C, P, E, W>,
)
    requires
        admits(position, exchange),
        fault_of(exchange) matches Some(fault) && fault.class != ErrorClass::Desync,
    ensures
        after(position, exchange).item == Some::<Item<V, E>>(
            Err(Error::Source(fault_of(exchange)->0.error)),
        ),
        after(position, exchange).position == match exchange {
            Exchange::Next { stream, .. } => Position::Watching {
                cursor: position->Watching_cursor,
                stream,
            },
            Exchange::List { kept, .. } => Position::InitPage {
                next_page: kept,
                queue: Seq::empty(),
                cursor: position->InitPage_cursor,
                started: position->InitPage_started,
            },
            _ => position,
        },
        exchange is List ==> copies(position->InitPage_next_page, exchange->kept),
{
}

/// The driver never stops: wherever a run has led, and whatever the source will answer, there is an
/// exchange that is due. `kept` and `from` stand for the clones that it takes of a page token and of
/// a cursor.
pub proof fn the_driver_never_stops<V, C: Clone, P: Clone, E, W>(
    position: Position<V, C, P, W>,
    kept: Option<P>,
    listed: Result<ListPage<V, C, P>, Fault<E>>,
    from: C,
    opened: Result<W, Fault<E>>,
    stream: W,
    produced: Option<Result<WatchStep<V, C>, Fault<E>>>,
)
    requires
        position matches Position::InitPage { next_page, .. } ==> copies(next_page, kept),
        position matches Position::Starting { cursor } ==> cloned(cursor, from),
    ensures
        admits(
            position,
            if quiet(position) {
                Exchange::Quiet
            } else {
                match position {
                    Position::InitPage { next_page, .. } => Exchange::List {
                        page: next_page,
                        kept,
                        reply: listed,
                    },
                    Position::Starting { .. } => Exchange::Watch { from, reply: opened },
                    _ => Exchange::Next { stream, reply: produced },
                }
            },
        ),
{
}

/// The driver never runs on in silence by itself: a step without an item has had a reply from
/// the source that was no error.
pub proof fn silence_follows_a_good_reply<V, C: Clone, P: Clone, E, W>(
    position: Position<V, C, P, W>,
    exchange: Exchange<V, C, P, E, W>,
)
    requires
        admits(position, exchange),
        after(position, exchange).item is None,
    ensures
        exchange !is Quiet,
        fault_of(exchange) is None,
{
}

/// A stream that ends leaves no item, and the driver reconnects from the last cursor.
pub proof fn the_end_of_a_stream_reconnects<V, C: Clone, P: Clone, E, W>(
    position: Position<V, C, P, W>,
    exchange: Exchange<V, C, P, E, W>,
    next: Exchange<V, C, P, E, W>,
)
    requires
        admits(position, exchange),
        exchange matches Exchange::Next { reply: None, .. },
        admits(after(position, exchange).position, next),
    ensures
        after(position, exchange).item is None,
        next matches Exchange::Watch { from, .. } && cloned(position->Watching_cursor, from),
{
}

/// A stream that idles out is to the driver a stream that ended.
pub proof fn idling_out_is_the_end_of_a_stream<S: WatchSource, T>(
    source: &S,
    judged: Option<Result<T, Fault<S::Error>>>,
)
    ensures
        judges_waited(source, Waited::IdledOut, judged) <==> judges_waited(
            source,
            Waited::Ended,
            judged,
        ),
{
}

/// The exchange with its error, if it is one, put into another class.
pub open spec fn reclassified<V, C, P, E, W>(
    exchange: Exchange<V, C, P, E, W>,
    class: ErrorClass,
) -> Exchange<V, C, P, E, W> {
    match exchange {
        Exchange::List { page, kept, reply: Err(fault) } => Exchange::List {
            page,
            kept,
            reply: Err(Fault { class, ..fault }),
        },
        Exchange::Watch { from, reply: Err(fault) } => Exchange::Watch {
            from,
            reply: Err(Fault { class, ..fault }),
        },
        Exchange::Next { stream, reply: Some(Err(fault)) } => Exchange::Next {
            stream,
            reply: Some(Err(Fault { class, ..fault })),
        },
        _ => exchange,
    }
}

/// A denial steers the driver exactly as a transient error does.
pub proof fn denial_steers_like_a_transient_error<V, C: Clone, P: Clone, E, W>(
    position: Position<V, C, P, W>,
    exchange: Exchange<V, C, P, E, W>,
)
    ensures
        after(position, reclassified(exchange, ErrorClass::Denied)) == after(
            position,
            reclassified(exchange, ErrorClass::Transient),
        ),
{
}

/// The run with each denial made a transient error.
pub open spec fn undenied<V, C, P, E, W>(run: Seq<Exchange<V, C, P, E, W>>) -> Seq<
    Exchange<V, C, P, E, W>,
> {
    run.map_values(
        |exchange: Exchange<V, C, P, E, W>|
            match fault_of(exchange) {
                Some(fault) => if fault.class == ErrorClass::Denied {
                    reclassified(exchange, ErrorClass::Transient)
                } else {
                    exchange
                },
                None => exchange,
            },
    )
}

/// Over a whole run, too, a denial steers the driver exactly as a transient error does: with each
/// denial made a transient error the run is as valid as before, leads to the same position and
/// gives the consumer the same items.
pub proof fn runs_with_denials_are_runs_with_transient_errors<V, C: Clone, P: Clone, E, W>(
    run: Seq<Exchange<V, C, P, E, W>>,
)
    ensures
        valid(undenied(run)) <==> valid(run),
        reached(undenied(run)) == reached(run),
        emitted(undenied(run)) == emitted(run),
    decreases run.len(),
{
    if run.len() > 0 {
        runs_with_denials_are_runs_with_transient_errors(run.drop_last());
        assert(undenied(run).drop_last() =~= undenied(run.drop_last()));
    }
}

/// A denial, and nothing else, is logged loudly.
pub proof fn denial_alone_is_loud(call: Call, class: ErrorClass)
    ensures
        severity(call, class) == Some(Severity::Warn) <==> class == ErrorClass::Denied,
{
}

} // verus!
