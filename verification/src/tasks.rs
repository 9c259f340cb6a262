//! The decisions of the event producers.
//!
//! A producer is a loop around something that blocks: a read of the
//! terminal, or a timer and a request. The loop hands each outcome to one of
//! the functions here and does what the result says.

use crate::event::{Event, EventView};
use crate::key::Key;
use vstd::prelude::*;

verus! {

/// A source of text that is asked again and again.
#[derive(Clone, Copy, Debug, PartialEq, Eq, Structural)]
pub enum Feed {
    Price,
    Weather,
}

/// What one read of the terminal gave.
#[derive(Clone, Copy, Debug, PartialEq, Eq, Structural)]
pub enum Read {
    /// A key event.
    Key(Key),
    /// An event that is no key event.
    Other,
    /// The read failed; the next one may succeed.
    Failed,
    /// The worker that reads is gone.
    Gone,
}

/// What a producer does after an outcome.
#[derive(Debug, PartialEq, Eq)]
pub enum Next {
    /// Send the event, then go on unless the send fails.
    Send(Event),
    /// Send nothing and go on.
    Skip,
    /// Leave the loop.
    Exit,
}

/// A producer's next move with its event as a view.
pub enum NextView {
    Send(EventView),
    Skip,
    Exit,
}

impl View for Next {
    type V = NextView;

    open spec fn view(&self) -> NextView {
        match *self {
            Next::Send(event) => NextView::Send(event@),
            Next::Skip => NextView::Skip,
            Next::Exit => NextView::Exit,
        }
    }
}

/// The time between two requests of a feed, in milliseconds.
pub open spec fn period_of(feed: Feed) -> int {
    match feed {
        Feed::Price => 500,
        Feed::Weather => 5000,
    }
}

/// The event that carries `text` from `feed` to the core.
pub open spec fn update_of(feed: Feed, text: Seq<char>) -> EventView {
    match feed {
        Feed::Price => EventView::PriceUpdate(text),
        Feed::Weather => EventView::WeatherUpdate(text),
    }
}

/// The move of the input producer after a read: a key is sent on, anything
/// else and a failed read are passed over, and the loop ends once the reading
/// worker is gone.
pub open spec fn after_read(read: Read) -> NextView {
    match read {
        Read::Key(key) => NextView::Send(EventView::Input(key)),
        Read::Other => NextView::Skip,
        Read::Failed => NextView::Skip,
        Read::Gone => NextView::Exit,
    }
}

/// The move of a feed's producer after a request: a text is sent on, a
/// failure is passed over until the next tick. A failure never ends the loop.
pub open spec fn after_fetch(feed: Feed, fetched: Option<Seq<char>>) -> NextView {
    match fetched {
        Some(text) => NextView::Send(update_of(feed, text)),
        None => NextView::Skip,
    }
}

/// The events that a feed's producer sends over a run of requests while the
/// channel stays open: one for each request that succeeded, in their order.
pub open spec fn sent_over(feed: Feed, fetches: Seq<Option<Seq<char>>>) -> Seq<EventView>
    decreases fetches.len(),
{
    if fetches.len() == 0 {
        Seq::empty()
    } else {
        let earlier = sent_over(feed, fetches.drop_last());
        match after_fetch(feed, fetches.last()) {
            NextView::Send(event) => earlier.push(event),
            _ => earlier,
        }
    }
}

impl Feed {
    /// The time between two requests, in milliseconds.
    pub fn period_ms(self) -> (ms: u64)
        ensures
            ms == period_of(self),
    {
        match self {
            Feed::Price => 500,
            Feed::Weather => 5000,
        }
    }

    /// Wraps a text of this feed as an event.
    pub fn update(self, text: String) -> (event: Event)
        ensures
            event@ == update_of(self, text@),
    {
        match self {
            Feed::Price => Event::PriceUpdate(text),
            Feed::Weather => Event::WeatherUpdate(text),
        }
    }
}

/// The view of what a request gave: a text, or nothing where it failed.
pub open spec fn fetched_view(fetched: Option<String>) -> Option<Seq<char>> {
    match fetched {
        Some(text) => Some(text@),
        None => None,
    }
}

/// Decides what the input producer does with the outcome of a read.
pub fn on_read(read: Read) -> (next: Next)
    ensures
        next@ == after_read(read),
{
    match read {
        Read::Key(key) => Next::Send(Event::Input(key)),
        Read::Other => Next::Skip,
        Read::Failed => Next::Skip,
        Read::Gone => Next::Exit,
    }
}

/// Decides what the producer of `feed` does with the outcome of a request:
/// `fetched` holds the text, or nothing where the request failed.
pub fn on_fetch(feed: Feed, fetched: Option<String>) -> (next: Next)
    ensures
        next@ == after_fetch(feed, fetched_view(fetched)),
{
    match fetched {
        Some(text) => Next::Send(feed.update(text)),
        None => Next::Skip,
    }
}

/// Decides whether a producer goes on after a send: it does while the
/// channel took the event, and leaves its loop once the core no longer
/// listens.
pub fn on_sent(delivered: bool) -> (go_on: bool)
    ensures
        go_on == delivered,
{
    delivered
}

/// A request that fails adds nothing to what a producer sends and takes
/// nothing away: the requests before it and after it count as if it had not
/// been made.
pub proof fn lemma_failure_is_passed_over(
    feed: Feed,
    before: Seq<Option<Seq<char>>>,
    after: Seq<Option<Seq<char>>>,
)
    ensures
        sent_over(feed, before.push(None) + after) == sent_over(feed, before + after),
    decreases after.len(),
{
    if after.len() == 0 {
        assert(before.push(None) + after == before.push(None));
        assert(before + after == before);
        assert(before.push(None).drop_last() == before);
    } else {
        let shorter = after.drop_last();
        lemma_failure_is_passed_over(feed, before, shorter);
        assert((before.push(None) + after).drop_last() == before.push(None) + shorter);
        assert((before + after).drop_last() == before + shorter);
        assert((before.push(None) + after).last() == after.last());
        assert((before + after).last() == after.last());
    }
}

/// A request that succeeds is answered by exactly one event, the update with
/// its text, after all that was sent before.
pub proof fn lemma_success_sends_one(
    feed: Feed,
    before: Seq<Option<Seq<char>>>,
    text: Seq<char>,
)
    ensures
        sent_over(feed, before.push(Some(text))) == sent_over(feed, before).push(
            update_of(feed, text),
        ),
{
    assert(before.push(Some(text)).drop_last() == before);
}

} // verus!
