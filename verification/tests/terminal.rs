use andiskaz::coord::Coord2;
use andiskaz::error::{AlreadyRunning, ListenerFailed, ServicesOff};
use andiskaz::event::{ChannelData, Event, Key, KeyEvent, ResizeEvent};
use andiskaz::style::Style;
use andiskaz::terminal::{corrected_size, react_to_resize, Builder, ResizeAction};
use std::time::Duration;

fn key(main_key: Key) -> Event {
    Event::Key(KeyEvent { main_key, ctrl: false, alt: false, shift: false })
}

#[test]
fn builder_defaults() {
    let builder = Builder::new();
    assert_eq!(builder.min_screen, Coord2 { x: 80, y: 25 });
    assert_eq!(builder.frame_time, Duration::from_millis(20));
    assert_eq!(builder.event_interval, Duration::from_millis(20));
    let builder = builder
        .min_screen(Coord2 { x: 10, y: 5 })
        .frame_time(Duration::from_millis(7))
        .event_interval(Duration::from_millis(9));
    assert_eq!(builder.min_screen, Coord2 { x: 10, y: 5 });
    assert_eq!(builder.frame_time, Duration::from_millis(7));
    assert_eq!(builder.event_interval, Duration::from_millis(9));
    assert_eq!(Builder::default().frame_time, Duration::from_millis(20));
}

#[test]
fn screen_size_is_corrected_to_the_minimum() {
    let min = Coord2 { x: 80, y: 25 };
    assert_eq!(corrected_size(Coord2 { x: 100, y: 30 }, min), Coord2 { x: 100, y: 30 });
    assert_eq!(corrected_size(Coord2 { x: 100, y: 20 }, min), min);
    assert_eq!(corrected_size(Coord2 { x: 79, y: 30 }, min), min);
}

#[test]
fn reactor_decides_on_resizes() {
    let min = Coord2 { x: 80, y: 25 };
    let size = Coord2 { x: 90, y: 30 };
    assert_eq!(
        react_to_resize(size, min, false),
        ResizeAction::Resize(Event::Resize(ResizeEvent { size: Some(size) }))
    );
    assert_eq!(
        react_to_resize(Coord2 { x: 10, y: 30 }, min, true),
        ResizeAction::AskResize(Event::Resize(ResizeEvent { size: None }))
    );
    assert_eq!(react_to_resize(Coord2 { x: 10, y: 30 }, min, false), ResizeAction::KeepAsking);
}

#[test]
fn channel_reads_what_was_written() {
    let mut channel = ChannelData::default();
    assert_eq!(channel.epoch(), 0);
    assert_eq!(channel.read(0), None);
    channel.write(key(Key::Char('a')));
    assert_eq!(channel.epoch(), 1);
    assert_eq!(channel.read(0), Some((1, key(Key::Char('a')))));
    assert_eq!(channel.read(1), None);
    channel.write(key(Key::Enter));
    assert_eq!(channel.read(0), Some((2, key(Key::Enter))));
}

#[test]
fn channel_gives_resizes_precedence() {
    let mut channel = ChannelData::default();
    let resize = Event::Resize(ResizeEvent { size: Some(Coord2 { x: 3, y: 4 }) });
    channel.write(resize);
    channel.write(key(Key::Esc));
    // The pending resize comes first and shadows the key written after it.
    assert_eq!(channel.read(0), Some((2, resize)));
    assert_eq!(channel.read(2), None);
}

#[test]
fn events_convert() {
    let event: Event = KeyEvent::from(Key::Up).into();
    assert_eq!(event, key(Key::Up));
    let event: Event = ResizeEvent { size: None }.into();
    assert_eq!(event, Event::Resize(ResizeEvent { size: None }));
}

#[test]
fn style_sizes_within_margins() {
    let style = Style::default().left_margin(2).right_margin(3).top_margin(1).max_height(4);
    assert_eq!(style.make_size(Coord2 { x: 10, y: 10 }), Coord2 { x: 5, y: 4 });
    assert_eq!(style.make_size(Coord2 { x: 4, y: 0 }), Coord2 { x: 0, y: 0 });
    assert_eq!(style.make_margin_below(), Coord2 { x: 2, y: 1 });
    assert_eq!(style.make_margin_above(), Coord2 { x: 3, y: 0 });
    assert_eq!(style.make_max_size(), Coord2 { x: u16::MAX, y: 4 });
    assert_eq!(style.min_width(1).min_height(2).make_min_size(), Coord2 { x: 1, y: 2 });
}

#[test]
fn error_messages() {
    assert_eq!(
        AlreadyRunning.message(),
        "there already is an instance of terminal services running"
    );
    assert_eq!(ServicesOff.message(), "terminal event listener and/or screen render disconnected");
    assert_eq!(ListenerFailed.message(), "Event listener failed and disconnected");
}

#[test]
fn channel_keeps_only_the_latest_key() {
    let mut channel = ChannelData::default();
    let mut epoch = channel.epoch();
    let shadowed =
        Event::Key(KeyEvent { main_key: Key::Char('F'), alt: false, ctrl: false, shift: true });
    let latest =
        Event::Key(KeyEvent { main_key: Key::Char('u'), alt: false, ctrl: true, shift: false });
    channel.write(shadowed);
    channel.write(latest);
    let (new_epoch, event) = channel.read(epoch).unwrap();
    assert_eq!(event, latest);
    epoch = new_epoch;
    assert_eq!(channel.read(epoch), None);
    // A resize and a key: the resize is delivered and the key is shadowed.
    let resize = Event::Resize(ResizeEvent { size: None });
    channel.write(resize);
    let key = Event::Key(KeyEvent { main_key: Key::Char('J'), alt: false, ctrl: false, shift: true });
    channel.write(key);
    let (new_epoch, event) = channel.read(epoch).unwrap();
    assert_eq!(event, resize);
    assert_eq!(channel.read(new_epoch), None);
}

#[test]
fn channel_shadows_keys_behind_a_resize() {
    let mut channel = ChannelData::default();
    let mut epoch = channel.epoch();
    let resize = Event::Resize(ResizeEvent { size: None });
    channel.write(resize);
    channel.write(Event::Key(KeyEvent {
        main_key: Key::Char('J'),
        alt: false,
        ctrl: false,
        shift: true,
    }));
    let (new_epoch, event) = channel.read(epoch).unwrap();
    assert_eq!(event, resize);
    epoch = new_epoch;
    assert_eq!(channel.read(epoch), None);

    let resize = Event::Resize(ResizeEvent { size: Some(Coord2 { x: 25, y: 80 }) });
    channel.write(resize);
    channel.write(Event::Key(KeyEvent {
        main_key: Key::Char('H'),
        alt: false,
        ctrl: true,
        shift: false,
    }));
    let (new_epoch, event) = channel.read(epoch).unwrap();
    assert_eq!(event, resize);
    assert_eq!(channel.read(new_epoch), None);

    // With no resize pending, a key is delivered.
    let key = Event::Key(KeyEvent { main_key: Key::Char('J'), alt: false, ctrl: false, shift: true });
    channel.write(key);
    let (newer_epoch, event) = channel.read(new_epoch).unwrap();
    assert_eq!(event, key);
    assert_eq!(channel.read(newer_epoch), None);
}
