use jkdashtui::event::Event;
use jkdashtui::key::{Key, KeyCode};
use jkdashtui::tasks::{on_fetch, on_read, on_sent, Feed, Next, Read};

#[test]
fn feeds_have_their_periods() {
    assert_eq!(Feed::Price.period_ms(), 500);
    assert_eq!(Feed::Weather.period_ms(), 5000);
}

#[test]
fn feeds_wrap_their_texts() {
    assert_eq!(Feed::Price.update(String::from("1.5")), Event::PriceUpdate(String::from("1.5")));
    assert_eq!(
        Feed::Weather.update(String::from("wind")),
        Event::WeatherUpdate(String::from("wind"))
    );
}

#[test]
fn key_reads_are_sent_on() {
    let key = Key::plain(KeyCode::Char('q'));
    assert_eq!(on_read(Read::Key(key)), Next::Send(Event::Input(key)));
    let other = Key::ctrl(KeyCode::F(2));
    assert_eq!(on_read(Read::Key(other)), Next::Send(Event::Input(other)));
}

#[test]
fn reads_without_a_key_are_passed_over() {
    assert_eq!(on_read(Read::Other), Next::Skip);
    assert_eq!(on_read(Read::Failed), Next::Skip);
}

#[test]
fn input_producer_ends_when_the_worker_is_gone() {
    assert_eq!(on_read(Read::Gone), Next::Exit);
}

#[test]
fn fetched_texts_are_sent_as_updates() {
    assert_eq!(
        on_fetch(Feed::Price, Some(String::from("100123"))),
        Next::Send(Event::PriceUpdate(String::from("100123")))
    );
    assert_eq!(
        on_fetch(Feed::Weather, Some(String::from("Gijon: +18C"))),
        Next::Send(Event::WeatherUpdate(String::from("Gijon: +18C")))
    );
    assert_eq!(
        on_fetch(Feed::Weather, Some(String::new())),
        Next::Send(Event::WeatherUpdate(String::new()))
    );
}

#[test]
fn failed_fetch_is_passed_over() {
    assert_eq!(on_fetch(Feed::Price, None), Next::Skip);
    assert_eq!(on_fetch(Feed::Weather, None), Next::Skip);
}

#[test]
fn price_producer_recovers_after_one_failure() {
    let ticks = vec![None, Some(String::from("64000.10")), Some(String::from("64000.20"))];
    let mut sent: Vec<Event> = Vec::new();
    let mut alive = true;
    for fetched in ticks {
        assert!(alive);
        match on_fetch(Feed::Price, fetched) {
            Next::Send(event) => {
                sent.push(event);
                alive = on_sent(true);
            }
            Next::Skip => {}
            Next::Exit => {
                alive = false;
            }
        }
    }
    assert!(alive);
    assert_eq!(
        sent,
        vec![
            Event::PriceUpdate(String::from("64000.10")),
            Event::PriceUpdate(String::from("64000.20")),
        ]
    );
}

#[test]
fn producer_ends_when_the_send_fails() {
    assert!(on_sent(true));
    assert!(!on_sent(false));
}
