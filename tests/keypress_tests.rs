use birds::keypress::{Adjustment, Key, KeyPress, Settings, Tunable};

fn settings(debug: bool) -> Settings {
    Settings { show_radii: false, show_turnbox: false, show_trails: false, show_debug: debug, pause: false }
}

#[test]
fn new_keypress() {
    let k = KeyPress::new();
    assert!(!k.changed());
    assert!(!k.separation_selected());
    assert!(!k.speedmax_selected());
}

#[test]
fn press_latches_only_on_change() {
    let mut k = KeyPress::new();
    k.handle_press(Key::D);
    assert!(k.changed());
    k.reset_latch();
    assert!(!k.changed());
    k.handle_press(Key::D);
    assert!(!k.changed());
    k.handle_release(Key::D);
    assert!(k.changed());
    k.reset_latch();
    k.handle_press(Key::Other);
    assert!(k.changed());
}

#[test]
fn toggles_flip_settings() {
    let mut s = settings(false);
    let mut k = KeyPress::new();
    for (key, check) in [
        (Key::D, 0usize),
        (Key::T, 1),
        (Key::R, 2),
        (Key::B, 3),
        (Key::P, 4),
    ] {
        let before = s;
        k.handle_press(key);
        assert_eq!(k.update_settings(&mut s), None);
        let flipped = match check {
            0 => s.show_debug != before.show_debug,
            1 => s.show_trails != before.show_trails,
            2 => s.show_radii != before.show_radii,
            3 => s.show_turnbox != before.show_turnbox,
            _ => s.pause != before.pause,
        };
        assert!(flipped);
        k.handle_release(key);
        let after_press = s;
        assert_eq!(k.update_settings(&mut s), None);
        assert_eq!(s, after_press);
    }
    assert_eq!(s, Settings { show_radii: true, show_turnbox: true, show_trails: true, show_debug: true, pause: true });
}

#[test]
fn cycle_needs_debug_overlay() {
    let mut s = settings(false);
    let mut k = KeyPress::new();
    k.handle_press(Key::Tab);
    k.update_settings(&mut s);
    assert!(!k.separation_selected());
    s.show_debug = true;
    k.update_settings(&mut s);
    assert!(k.separation_selected());
}

#[test]
fn cycle_walks_all_selections() {
    let mut s = settings(true);
    let mut k = KeyPress::new();
    k.handle_press(Key::Tab);
    k.update_settings(&mut s);
    assert!(k.separation_selected());
    k.update_settings(&mut s);
    assert!(k.cohesion_selected());
    k.update_settings(&mut s);
    assert!(k.alignment_selected());
    k.update_settings(&mut s);
    assert!(k.speedmin_selected());
    k.update_settings(&mut s);
    assert!(k.speedmax_selected());
    k.update_settings(&mut s);
    assert!(!k.separation_selected() && !k.speedmax_selected());
}

#[test]
fn up_and_down_step_selected_value() {
    let mut s = settings(true);
    let mut k = KeyPress::new();
    k.handle_press(Key::Up);
    assert_eq!(k.update_settings(&mut s), None);
    k.handle_press(Key::Tab);
    k.update_settings(&mut s);
    k.update_settings(&mut s);
    k.handle_press(Key::Up);
    assert_eq!(k.update_settings(&mut s), Some(Adjustment::Increment(Tunable::CohesionDelta)));
    k.handle_press(Key::Down);
    assert_eq!(k.update_settings(&mut s), Some(Adjustment::Decrement(Tunable::CohesionDelta)));
    assert_eq!(k.handle_increment(&s), Some(Adjustment::Increment(Tunable::CohesionDelta)));
    assert_eq!(k.handle_decrement(&s), Some(Adjustment::Decrement(Tunable::CohesionDelta)));
    s.show_debug = false;
    assert_eq!(k.update_settings(&mut s), None);
    assert_eq!(k.handle_increment(&s), None);
}
