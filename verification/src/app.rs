//! The state of the dashboard and the rules by which events change it.

use crate::event::{received, Event, EventView};
use crate::key::{is_quit, Key};
use vstd::prelude::*;

verus! {

/// What the driver of the event loop does after one step of the core.
#[derive(Clone, Copy, Debug, PartialEq, Eq, Structural)]
pub enum Action {
    /// Draw a frame from the state and wait for the next event.
    Draw,
    /// Leave the loop without drawing.
    Stop,
}

/// The state of the dashboard. It belongs to the core alone: producers reach
/// it only through events.
#[derive(Debug)]
pub struct App {
    running: bool,
    price: String,
    weather: String,
}

/// The state of the dashboard with its texts as sequences of characters.
pub struct AppView {
    pub running: bool,
    pub price: Seq<char>,
    pub weather: Seq<char>,
}

impl AppView {
    /// The state at start: running, with nothing to show yet.
    pub open spec fn initial() -> AppView {
        AppView { running: true, price: Seq::empty(), weather: Seq::empty() }
    }

    /// The state with the loop ended and the texts as they are.
    pub open spec fn stopped(self) -> AppView {
        AppView { running: false, ..self }
    }

    /// The state after a key press: a quit key ends the loop, any other key
    /// changes nothing.
    pub open spec fn press(self, key: Key) -> AppView {
        if is_quit(key) {
            self.stopped()
        } else {
            self
        }
    }

    /// The state after one event has been handled.
    pub open spec fn apply(self, event: EventView) -> AppView {
        match event {
            EventView::Input(key) => self.press(key),
            EventView::PriceUpdate(text) => AppView { price: text, ..self },
            EventView::WeatherUpdate(text) => AppView { weather: text, ..self },
        }
    }

    /// The state after one turn of the loop. A stopped core handles nothing.
    /// A running core stops when the channel has closed, and handles the
    /// event otherwise.
    pub open spec fn step(self, incoming: Option<EventView>) -> AppView {
        if !self.running {
            self
        } else {
            match incoming {
                Some(event) => self.apply(event),
                None => self.stopped(),
            }
        }
    }

    /// What the driver does after that turn: it draws while the core still
    /// runs after an event.
    pub open spec fn action(self, incoming: Option<EventView>) -> Action {
        if incoming is Some && self.step(incoming).running {
            Action::Draw
        } else {
            Action::Stop
        }
    }

    /// The state after the loop has taken the events of `events` in order,
    /// one turn for each.
    pub open spec fn replay(self, events: Seq<EventView>) -> AppView
        decreases events.len(),
    {
        if events.len() == 0 {
            self
        } else {
            self.step(Some(events.first())).replay(events.drop_first())
        }
    }

    /// The number of frames drawn while the loop takes the events of
    /// `events` in order.
    pub open spec fn frames(self, events: Seq<EventView>) -> nat
        decreases events.len(),
    {
        if events.len() == 0 {
            0
        } else {
            let drawn: nat = if self.action(Some(events.first())) == Action::Draw {
                1
            } else {
                0
            };
            drawn + self.step(Some(events.first())).frames(events.drop_first())
        }
    }
}

impl View for App {
    type V = AppView;

    closed spec fn view(&self) -> AppView {
        AppView { running: self.running, price: self.price@, weather: self.weather@ }
    }
}

impl Default for App {
    /// The core at start, as `App::new` gives it.
    fn default() -> (app: App)
        ensures
            app@ == AppView::initial(),
    {
        App::new()
    }
}

impl App {
    /// A core at start: running, with empty texts.
    pub fn new() -> (app: App)
        ensures
            app@ == AppView::initial(),
    {
        App { running: true, price: String::new(), weather: String::new() }
    }

    /// Whether the loop goes on.
    pub fn is_running(&self) -> (running: bool)
        ensures
            running == self@.running,
    {
        self.running
    }

    /// The last price text received.
    pub fn price(&self) -> (text: &str)
        ensures
            text@ == self@.price,
    {
        self.price.as_str()
    }

    /// The last weather text received.
    pub fn weather(&self) -> (text: &str)
        ensures
            text@ == self@.weather,
    {
        self.weather.as_str()
    }

    /// Ends the loop and leaves the texts as they are.
    pub fn quit(&mut self)
        ensures
            final(self)@ == old(self)@.stopped(),
    {
        self.running = false;
    }

    /// Handles a key press: a quit key ends the loop, any other key changes
    /// nothing.
    pub fn on_key(&mut self, key: Key)
        ensures
            final(self)@ == old(self)@.press(key),
    {
        if key.quits() {
            self.quit();
        }
    }

    /// Handles one event: a key press goes to `on_key`, an update replaces
    /// the text of its feed.
    pub fn handle_event(&mut self, event: Event)
        ensures
            final(self)@ == old(self)@.apply(event@),
    {
        match event {
            Event::Input(key) => self.on_key(key),
            Event::PriceUpdate(text) => {
                self.price = text;
            },
            Event::WeatherUpdate(text) => {
                self.weather = text;
            },
        }
    }

    /// One turn of the event loop, given what the receive on the channel
    /// gave. A stopped core handles nothing; a running core stops when the
    /// channel has closed and handles the event otherwise. The result tells
    /// the driver whether to draw a frame or to leave the loop.
    pub fn step(&mut self, incoming: Option<Event>) -> (action: Action)
        ensures
            final(self)@ == old(self)@.step(received(incoming)),
            action == old(self)@.action(received(incoming)),
    {
        if !self.running {
            return Action::Stop;
        }
        match incoming {
            Some(event) => {
                self.handle_event(event);
                if self.running {
                    Action::Draw
                } else {
                    Action::Stop
                }
            },
            None => {
                self.quit();
                Action::Stop
            },
        }
    }
}

/// The key presses of `keys` as the events that carry them.
pub open spec fn inputs(keys: Seq<Key>) -> Seq<EventView> {
    Seq::new(keys.len(), |i: int| EventView::Input(keys[i]))
}

/// A stopped core stays as it is, whatever arrives, and nothing is drawn.
pub proof fn lemma_stopped_core_handles_nothing(state: AppView, events: Seq<EventView>)
    requires
        !state.running,
    ensures
        state.replay(events) == state,
        state.frames(events) == 0,
    decreases events.len(),
{
    if events.len() > 0 {
        lemma_stopped_core_handles_nothing(state, events.drop_first());
    }
}

/// Key presses that are no quit keys change nothing: after any number of
/// them a running core still runs and shows what it showed, and one frame was
/// drawn for each.
pub proof fn lemma_other_keys_change_nothing(state: AppView, keys: Seq<Key>)
    requires
        forall|i: int| 0 <= i < keys.len() ==> !is_quit(#[trigger] keys[i]),
    ensures
        state.replay(inputs(keys)) == state,
        state.running ==> state.frames(inputs(keys)) == keys.len(),
    decreases keys.len(),
{
    if keys.len() > 0 {
        let rest = keys.drop_first();
        assert(inputs(keys).first() == EventView::Input(keys[0]));
        assert(inputs(keys).drop_first() == inputs(rest));
        assert forall|i: int| 0 <= i < rest.len() implies !is_quit(#[trigger] rest[i]) by {
            assert(rest[i] == keys[i + 1]);
        }
        lemma_other_keys_change_nothing(state, rest);
    }
}

/// A quit key stops a running core: the turn that handles it ends the loop
/// without a frame, the texts stay, and no event that comes later is
/// handled or drawn.
pub proof fn lemma_quit_key_stops(state: AppView, key: Key, later: Seq<EventView>)
    requires
        state.running,
        is_quit(key),
    ensures
        state.step(Some(EventView::Input(key))) == state.stopped(),
        state.action(Some(EventView::Input(key))) == Action::Stop,
        state.replay(seq![EventView::Input(key)] + later) == state.stopped(),
        state.frames(seq![EventView::Input(key)] + later) == 0,
{
    let events = seq![EventView::Input(key)] + later;
    assert(events.first() == EventView::Input(key));
    assert(events.drop_first() == later);
    lemma_stopped_core_handles_nothing(state.stopped(), later);
}

/// A closed channel stops a running core: nothing is handled, nothing is
/// drawn, and the texts stay.
pub proof fn lemma_closed_channel_stops(state: AppView)
    requires
        state.running,
    ensures
        state.step(None) == state.stopped(),
        state.action(None) == Action::Stop,
{
}

/// A price update replaces the price whatever it was and leaves the rest;
/// handling the same update a second time changes nothing more.
pub proof fn lemma_price_update_overwrites(state: AppView, text: Seq<char>)
    ensures
        state.apply(EventView::PriceUpdate(text)).price == text,
        state.apply(EventView::PriceUpdate(text)).weather == state.weather,
        state.apply(EventView::PriceUpdate(text)).running == state.running,
        state.apply(EventView::PriceUpdate(text)).apply(EventView::PriceUpdate(text))
            == state.apply(EventView::PriceUpdate(text)),
{
}

/// A weather update replaces the weather whatever it was and leaves the
/// rest; handling the same update a second time changes nothing more.
pub proof fn lemma_weather_update_overwrites(state: AppView, text: Seq<char>)
    ensures
        state.apply(EventView::WeatherUpdate(text)).weather == text,
        state.apply(EventView::WeatherUpdate(text)).price == state.price,
        state.apply(EventView::WeatherUpdate(text)).running == state.running,
        state.apply(EventView::WeatherUpdate(text)).apply(EventView::WeatherUpdate(text))
            == state.apply(EventView::WeatherUpdate(text)),
{
}

/// The loop ends once: a core that runs after some events ran before them.
pub proof fn lemma_stop_is_final(state: AppView, events: Seq<EventView>)
    ensures
        state.replay(events).running ==> state.running,
{
    if !state.running {
        lemma_stopped_core_handles_nothing(state, events);
    }
}

} // verus!
