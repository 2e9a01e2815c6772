use simple_wayland::events::{
    idle_event, initial_dimensions, keyboard_event, offers_text, pointer_to_way,
    record_window_event, str_equal, window_reaction, fixed_pixel, KeyboardInput, OutputMode,
    WindowEvent, Way, KEY_V, TEXT_MIME,
};
use simple_wayland::frame::PointerInput;
use simple_wayland::pixels::encode_pixels;

#[test]
fn window_events_keep_close_over_configure_over_refresh() {
    let p = record_window_event(None, WindowEvent::Refresh);
    assert_eq!(p, Some(WindowEvent::Refresh));
    let p = record_window_event(p, WindowEvent::Configure { new_size: Some((10, 20)) });
    assert_eq!(p, Some(WindowEvent::Configure { new_size: Some((10, 20)) }));
    // a refresh does not displace a configure
    let p = record_window_event(p, WindowEvent::Refresh);
    assert_eq!(p, Some(WindowEvent::Configure { new_size: Some((10, 20)) }));
    // a later configure replaces an earlier one
    let p = record_window_event(p, WindowEvent::Configure { new_size: None });
    assert_eq!(p, Some(WindowEvent::Configure { new_size: None }));
    let p = record_window_event(p, WindowEvent::Close);
    assert_eq!(p, Some(WindowEvent::Close));
    let p = record_window_event(p, WindowEvent::Configure { new_size: Some((1, 1)) });
    assert_eq!(p, Some(WindowEvent::Close));
    let p = record_window_event(p, WindowEvent::Refresh);
    assert_eq!(p, Some(WindowEvent::Close));
}

#[test]
fn window_reaction_to_close_refresh_and_nothing() {
    let r = window_reaction((640, 480), Some(WindowEvent::Close));
    assert_eq!(r.emit, vec![Way::Exit]);
    assert!(!r.refresh_window);
    assert_eq!(r.resize_window, None);
    let r = window_reaction((640, 480), Some(WindowEvent::Refresh));
    assert!(r.refresh_window);
    assert!(r.emit.is_empty());
    let r = window_reaction((640, 480), None);
    assert!(!r.refresh_window);
    assert!(r.emit.is_empty());
    assert_eq!(r.dimensions, (640, 480));
}

#[test]
fn window_reaction_to_configure() {
    let r = window_reaction((640, 480), Some(WindowEvent::Configure { new_size: Some((800, 600)) }));
    assert_eq!(r.resize_window, Some((800, 600)));
    assert!(r.refresh_window);
    assert_eq!(r.dimensions, (800, 600));
    assert_eq!(
        r.emit,
        vec![Way::Resize { width: 800, height: 600 }, Way::Refresh { width: 800, height: 600 }]
    );
    let r = window_reaction((800, 600), Some(WindowEvent::Configure { new_size: Some((800, 600)) }));
    assert_eq!(r.emit, vec![Way::Refresh { width: 800, height: 600 }]);
    let r = window_reaction((800, 600), Some(WindowEvent::Configure { new_size: None }));
    assert_eq!(r.resize_window, None);
    assert_eq!(r.emit, vec![Way::Refresh { width: 800, height: 600 }]);
}

#[test]
fn idle_event_waits_less_after_reading() {
    assert_eq!(idle_event(true), Way::Idling { msec: 10 });
    assert_eq!(idle_event(false), Way::Idling { msec: 15 });
}

#[test]
fn initial_dimensions_fill_zeros_from_current_modes() {
    let modes = vec![
        OutputMode { is_current: false, width: 1024, height: 768 },
        OutputMode { is_current: true, width: 1920, height: 1080 },
        OutputMode { is_current: true, width: 1280, height: 1024 },
    ];
    assert_eq!(initial_dimensions(640, 480, &modes), (640, 480));
    assert_eq!(initial_dimensions(0, 0, &modes), (1920, 1080));
    assert_eq!(initial_dimensions(300, 0, &modes), (300, 1080));
    assert_eq!(initial_dimensions(0, 0, &vec![]), (0, 0));
}

#[test]
fn pointer_events_for_the_program() {
    assert_eq!(
        pointer_to_way(PointerInput::Enter { serial: 1, part: None, x: 0, y: 0 }),
        Some(Way::Focus { enter: true, hover: true, cause: 0 })
    );
    assert_eq!(
        pointer_to_way(PointerInput::Leave { serial: 1 }),
        Some(Way::Focus { enter: false, hover: true, cause: 0 })
    );
    assert_eq!(
        pointer_to_way(PointerInput::Motion { x: 10 * 256 + 200, y: -30 }),
        Some(Way::Pointer { x: 10, y: 0 })
    );
    assert_eq!(
        pointer_to_way(PointerInput::Button { serial: 2, button: 0x111, pressed: true }),
        Some(Way::Button { but: 0x111, status: true })
    );
    assert_eq!(pointer_to_way(PointerInput::Other), None);
    assert_eq!(fixed_pixel(255), 0);
    assert_eq!(fixed_pixel(256), 1);
    assert_eq!(fixed_pixel(-1000), 0);
}

#[test]
fn keyboard_events_for_the_program() {
    let r = keyboard_event(KeyboardInput::Enter { held: 3 });
    assert_eq!(r.event, Way::Focus { enter: true, hover: false, cause: 3 });
    assert!(!r.paste);
    let r = keyboard_event(KeyboardInput::Leave);
    assert_eq!(r.event, Way::Focus { enter: false, hover: false, cause: 0 });
    let r = keyboard_event(KeyboardInput::Key {
        keysym: 0x61,
        text: Some("a".to_string()),
        pressed: true,
        ctrl: false,
    });
    assert_eq!(r.event, Way::Key { text: "a".to_string(), keysym: 0x61, pressed: true });
    assert!(!r.paste);
    let r = keyboard_event(KeyboardInput::Key { keysym: KEY_V, text: None, pressed: true, ctrl: true });
    assert_eq!(r.event, Way::Key { text: String::new(), keysym: 0x76, pressed: true });
    assert!(r.paste);
    let r = keyboard_event(KeyboardInput::Key { keysym: KEY_V, text: None, pressed: false, ctrl: true });
    assert!(!r.paste);
    let r = keyboard_event(KeyboardInput::Key { keysym: KEY_V, text: None, pressed: true, ctrl: false });
    assert!(!r.paste);
    let r = keyboard_event(KeyboardInput::RepeatInfo { rate: 25, delay: 600 });
    assert_eq!(r.event, Way::KeyInfo { rate: 25, delay: 600 });
}

#[test]
fn clipboard_text_is_found_among_offered_types() {
    assert!(offers_text(&vec!["image/png".to_string(), TEXT_MIME.to_string()]));
    assert!(!offers_text(&vec!["text/plain".to_string(), "TEXT".to_string()]));
    assert!(!offers_text(&vec![]));
    assert!(str_equal("abc", "abc"));
    assert!(!str_equal("abc", "abd"));
    assert!(!str_equal("abc", "ab"));
}

#[test]
fn pixels_encode_in_machine_byte_order() {
    let bytes = encode_pixels(&[0x11223344, 0xff000000]);
    assert_eq!(bytes.len(), 8);
    assert_eq!(&bytes[0..4], &0x11223344u32.to_ne_bytes());
    assert_eq!(&bytes[4..8], &0xff000000u32.to_ne_bytes());
    assert!(encode_pixels(&[]).is_empty());
}

#[test]
fn pending_window_event_after_a_sequence() {
    let fold = |events: &[WindowEvent]| {
        events.iter().fold(None, |p, e| record_window_event(p, e.clone()))
    };
    let a = WindowEvent::Configure { new_size: Some((10, 20)) };
    let b = WindowEvent::Configure { new_size: Some((30, 40)) };
    // the last configure wins over refreshes
    assert_eq!(
        fold(&[WindowEvent::Refresh, a.clone(), WindowEvent::Refresh, b.clone(), WindowEvent::Refresh]),
        Some(b.clone())
    );
    // a close anywhere wins
    assert_eq!(fold(&[a.clone(), WindowEvent::Close, b.clone(), WindowEvent::Refresh]), Some(WindowEvent::Close));
    // refreshes alone leave a refresh; nothing leaves nothing
    assert_eq!(fold(&[WindowEvent::Refresh, WindowEvent::Refresh]), Some(WindowEvent::Refresh));
    assert_eq!(fold(&[]), None);
}
