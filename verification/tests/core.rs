use jkdashtui::app::{Action, App};
use jkdashtui::event::Event;
use jkdashtui::key::{Key, KeyCode, Modifiers};

fn shifted(code: KeyCode) -> Key {
    Key { code, modifiers: Modifiers { shift: true, control: false, alt: false, logo: false } }
}

#[test]
fn new_core_runs_with_empty_texts() {
    let app = App::new();
    assert!(app.is_running());
    assert_eq!(app.price(), "");
    assert_eq!(app.weather(), "");
}

#[test]
fn default_core_is_the_new_core() {
    let app = App::default();
    assert!(app.is_running());
    assert_eq!(app.price(), "");
    assert_eq!(app.weather(), "");
}

#[test]
fn quit_keys_are_recognised() {
    assert!(Key::plain(KeyCode::Esc).quits());
    assert!(Key::plain(KeyCode::Char('q')).quits());
    assert!(Key::plain(KeyCode::Char('Q')).quits());
    assert!(Key::ctrl(KeyCode::Char('c')).quits());
    assert!(Key::ctrl(KeyCode::Char('C')).quits());
}

#[test]
fn other_keys_are_no_quit_keys() {
    assert!(!Key::plain(KeyCode::Char('c')).quits());
    assert!(!Key::plain(KeyCode::Char('x')).quits());
    assert!(!Key::plain(KeyCode::Enter).quits());
    assert!(!Key::plain(KeyCode::Left).quits());
    assert!(!Key::plain(KeyCode::Right).quits());
    assert!(!Key::plain(KeyCode::F(4)).quits());
    assert!(!Key::plain(KeyCode::Other).quits());
    assert!(!Key::ctrl(KeyCode::Char('q')).quits());
    assert!(!Key::ctrl(KeyCode::Esc).quits());
    assert!(!shifted(KeyCode::Char('Q')).quits());
    assert!(!shifted(KeyCode::Esc).quits());
    let ctrl_shift = Modifiers { shift: true, control: true, alt: false, logo: false };
    assert!(!Key { code: KeyCode::Char('C'), modifiers: ctrl_shift }.quits());
    let ctrl_alt = Modifiers { shift: false, control: true, alt: true, logo: false };
    assert!(!Key { code: KeyCode::Char('c'), modifiers: ctrl_alt }.quits());
}

#[test]
fn modifier_sets_are_built_as_named() {
    assert_eq!(
        Modifiers::none(),
        Modifiers { shift: false, control: false, alt: false, logo: false }
    );
    assert_eq!(
        Modifiers::control(),
        Modifiers { shift: false, control: true, alt: false, logo: false }
    );
    assert_eq!(Key::plain(KeyCode::Tab).code, KeyCode::Tab);
    assert_eq!(Key::ctrl(KeyCode::Up).modifiers, Modifiers::control());
}

#[test]
fn inputs_that_do_not_quit_leave_the_state() {
    let mut app = App::new();
    assert_eq!(app.step(Some(Event::PriceUpdate(String::from("42")))), Action::Draw);
    assert_eq!(app.step(Some(Event::WeatherUpdate(String::from("rain")))), Action::Draw);
    let keys = vec![
        Key::plain(KeyCode::Char('a')),
        Key::plain(KeyCode::Left),
        Key::plain(KeyCode::Right),
        Key::ctrl(KeyCode::Char('q')),
        shifted(KeyCode::Char('Q')),
        Key::plain(KeyCode::Backspace),
        Key::plain(KeyCode::Down),
    ];
    for key in keys {
        assert_eq!(app.step(Some(Event::Input(key))), Action::Draw);
        assert!(app.is_running());
        assert_eq!(app.price(), "42");
        assert_eq!(app.weather(), "rain");
    }
}

#[test]
fn each_quit_key_stops_a_running_core() {
    let keys = vec![
        Key::plain(KeyCode::Esc),
        Key::plain(KeyCode::Char('q')),
        Key::plain(KeyCode::Char('Q')),
        Key::ctrl(KeyCode::Char('c')),
        Key::ctrl(KeyCode::Char('C')),
    ];
    for key in keys {
        let mut app = App::new();
        app.handle_event(Event::PriceUpdate(String::from("7")));
        assert_eq!(app.step(Some(Event::Input(key))), Action::Stop);
        assert!(!app.is_running());
        assert_eq!(app.price(), "7");
    }
}

#[test]
fn nothing_is_handled_after_a_quit() {
    let mut app = App::new();
    assert_eq!(app.step(Some(Event::PriceUpdate(String::from("1")))), Action::Draw);
    assert_eq!(app.step(Some(Event::Input(Key::plain(KeyCode::Char('q'))))), Action::Stop);
    assert_eq!(app.step(Some(Event::PriceUpdate(String::from("2")))), Action::Stop);
    assert_eq!(app.step(Some(Event::WeatherUpdate(String::from("sun")))), Action::Stop);
    assert_eq!(app.step(Some(Event::Input(Key::plain(KeyCode::Char('a'))))), Action::Stop);
    assert_eq!(app.step(None), Action::Stop);
    assert!(!app.is_running());
    assert_eq!(app.price(), "1");
    assert_eq!(app.weather(), "");
}

#[test]
fn escape_ends_the_loop_without_a_frame() {
    let mut app = App::new();
    let action = app.step(Some(Event::Input(Key { code: KeyCode::Esc, modifiers: Modifiers::none() })));
    assert_eq!(action, Action::Stop);
    assert!(!app.is_running());
}

#[test]
fn closed_channel_ends_the_loop() {
    let mut app = App::new();
    assert_eq!(app.step(None), Action::Stop);
    assert!(!app.is_running());
    assert_eq!(app.price(), "");
    assert_eq!(app.weather(), "");
}

#[test]
fn price_update_overwrites_the_price() {
    let mut app = App::new();
    app.handle_event(Event::PriceUpdate(String::from("100123")));
    assert_eq!(app.price(), "100123");
    assert_eq!(app.weather(), "");
    app.handle_event(Event::PriceUpdate(String::from("99")));
    assert_eq!(app.price(), "99");
    app.handle_event(Event::PriceUpdate(String::from("99")));
    assert_eq!(app.price(), "99");
    assert!(app.is_running());
}

#[test]
fn weather_update_overwrites_the_weather() {
    let mut app = App::new();
    app.handle_event(Event::WeatherUpdate(String::from("Gijon: +18C")));
    assert_eq!(app.weather(), "Gijon: +18C");
    assert_eq!(app.price(), "");
    app.handle_event(Event::WeatherUpdate(String::new()));
    assert_eq!(app.weather(), "");
    app.handle_event(Event::WeatherUpdate(String::from("fog")));
    app.handle_event(Event::WeatherUpdate(String::from("fog")));
    assert_eq!(app.weather(), "fog");
    assert!(app.is_running());
}

#[test]
fn on_key_stops_only_on_a_quit_key() {
    let mut app = App::new();
    app.on_key(Key::plain(KeyCode::Char('z')));
    assert!(app.is_running());
    app.on_key(Key::ctrl(KeyCode::Char('c')));
    assert!(!app.is_running());
    app.on_key(Key::plain(KeyCode::Char('z')));
    assert!(!app.is_running());
}

#[test]
fn update_then_draw_then_quit() {
    let mut app = App::new();
    let mut frames: u32 = 0;
    let events = vec![
        Event::WeatherUpdate(String::from("snow")),
        Event::PriceUpdate(String::from("5")),
        Event::Input(Key::plain(KeyCode::Up)),
        Event::Input(Key::plain(KeyCode::Esc)),
        Event::PriceUpdate(String::from("6")),
    ];
    for event in events {
        if app.step(Some(event)) == Action::Draw {
            frames += 1;
        }
    }
    assert_eq!(frames, 3);
    assert_eq!(app.price(), "5");
    assert_eq!(app.weather(), "snow");
    assert!(!app.is_running());
}

#[test]
fn quit_stops_and_keeps_the_texts() {
    let mut app = App::new();
    app.handle_event(Event::PriceUpdate(String::from("3")));
    app.handle_event(Event::WeatherUpdate(String::from("mist")));
    app.quit();
    assert!(!app.is_running());
    assert_eq!(app.price(), "3");
    assert_eq!(app.weather(), "mist");
    app.quit();
    assert!(!app.is_running());
}
