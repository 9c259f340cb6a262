//! What the producers send to the core.

use crate::key::Key;
use vstd::prelude::*;

verus! {

/// One event on the channel from the producers to the core.
#[derive(Debug, PartialEq, Eq)]
pub enum Event {
    /// A key was pressed.
    Input(Key),
    /// The price feed delivered a new text.
    PriceUpdate(String),
    /// The weather feed delivered a new text.
    WeatherUpdate(String),
}

/// An event with its texts as sequences of characters.
pub enum EventView {
    Input(Key),
    PriceUpdate(Seq<char>),
    WeatherUpdate(Seq<char>),
}

impl View for Event {
    type V = EventView;

    open spec fn view(&self) -> EventView {
        match *self {
            Event::Input(key) => EventView::Input(key),
            Event::PriceUpdate(text) => EventView::PriceUpdate(text@),
            Event::WeatherUpdate(text) => EventView::WeatherUpdate(text@),
        }
    }
}

/// The view of what a receive on the channel gave: an event, or nothing once
/// the channel is closed and empty.
pub open spec fn received(incoming: Option<Event>) -> Option<EventView> {
    match incoming {
        Some(event) => Some(event@),
        None => None,
    }
}

} // verus!
