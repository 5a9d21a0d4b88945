use cerial::display_step;
use cerial::CerialMode;
use cerial::CerialState;
use cerial::DisplayAction;
use cerial::DisplayUpdateEvent;
use cerial::HexPending;
use cerial::KeyCode;
use cerial::KeyEvent;
use cerial::KeyModifier;
use cerial::MenuState;
use cerial::SerialTelemetry;

fn key(code: KeyCode, modifiers: KeyModifier) -> DisplayUpdateEvent {
    DisplayUpdateEvent::KeyInput(KeyEvent { code, modifiers })
}

fn plain(c: char) -> DisplayUpdateEvent {
    key(KeyCode::Char(c), KeyModifier::Plain)
}

fn escape_chord() -> DisplayUpdateEvent {
    key(KeyCode::Char('5'), KeyModifier::Control)
}

#[test]
fn menu_keys_change_modes() {
    let mut s = CerialState::default();
    assert!(matches!(display_step(&mut s, plain('i')), DisplayAction::Idle));
    assert_eq!(s.mode, CerialMode::Input);

    let mut s = CerialState::default();
    assert!(matches!(display_step(&mut s, plain('h')), DisplayAction::Idle));
    assert_eq!(s.mode, CerialMode::HexInput);
}

#[test]
fn menu_ignores_modified_and_unknown_keys() {
    let mut s = CerialState::default();
    display_step(&mut s, key(KeyCode::Char('i'), KeyModifier::Control));
    assert_eq!(s.mode, CerialMode::Menu);
    display_step(&mut s, plain('z'));
    assert_eq!(s.mode, CerialMode::Menu);
    assert!(!s.exit);
}

#[test]
fn menu_visibility_cycles() {
    let mut s = CerialState::default();
    assert_eq!(s.menu_state, MenuState::SerialTelemetry);
    display_step(&mut s, plain('m'));
    assert_eq!(s.menu_state, MenuState::Hidden);
    display_step(&mut s, plain('m'));
    assert_eq!(s.menu_state, MenuState::SerialSettings);
    display_step(&mut s, plain('m'));
    assert_eq!(s.menu_state, MenuState::SerialTelemetry);
}

#[test]
fn quit_key_requests_exit_once() {
    let mut s = CerialState::default();
    let act = display_step(&mut s, plain('q'));
    assert!(matches!(act, DisplayAction::Idle));
    assert!(s.exit);
    assert_eq!(s.mode, CerialMode::Menu);
    // The loop stops before dispatching anything further; nothing else
    // changed in the state that would have been observable afterwards.
    assert_eq!(s.menu_state, MenuState::SerialTelemetry);
}

#[test]
fn quit_key_needs_no_modifier() {
    let mut s = CerialState::default();
    display_step(&mut s, key(KeyCode::Char('q'), KeyModifier::Shift));
    assert!(!s.exit);
}

#[test]
fn input_mode_transmits_encoded_keys() {
    let mut s = CerialState::default();
    display_step(&mut s, plain('i'));
    let act = display_step(&mut s, plain('x'));
    match act {
        DisplayAction::Transmit(p) => assert_eq!(p, vec![0x78]),
        _ => panic!("expected a transmit"),
    }
    let act = display_step(&mut s, key(KeyCode::Char('c'), KeyModifier::Control));
    match act {
        DisplayAction::Transmit(p) => assert_eq!(p, vec![0x03]),
        _ => panic!("expected a transmit"),
    }
}

#[test]
fn input_mode_unsupported_key_transmits_nothing() {
    let mut s = CerialState::default();
    display_step(&mut s, plain('i'));
    let act = display_step(&mut s, key(KeyCode::F(13), KeyModifier::Plain));
    match act {
        DisplayAction::Transmit(p) => {
            // An empty payload is legal; the writer must skip it.
            assert!(p.is_empty());
            assert!(!cerial::should_transmit(&p));
        },
        _ => panic!("expected a transmit"),
    }
}

#[test]
fn escape_chord_returns_to_menu_and_sends_nothing() {
    let mut s = CerialState::default();
    display_step(&mut s, plain('i'));
    assert_eq!(s.mode, CerialMode::Input);
    let act = display_step(&mut s, escape_chord());
    assert!(matches!(act, DisplayAction::Idle));
    assert_eq!(s.mode, CerialMode::Menu);
    assert!(!s.exit);
}

#[test]
fn hex_mode_assembles_digit_pairs() {
    let mut s = CerialState::default();
    display_step(&mut s, plain('h'));
    assert!(matches!(display_step(&mut s, plain('4')), DisplayAction::Idle));
    assert_eq!(s.hex_pending, HexPending::Half(4));
    let act = display_step(&mut s, plain('d'));
    match act {
        DisplayAction::Transmit(p) => assert_eq!(p, vec![0x4d]),
        _ => panic!("expected a transmit"),
    }
    assert_eq!(s.hex_pending, HexPending::Empty);
}

#[test]
fn hex_mode_accepts_both_cases() {
    let mut s = CerialState::default();
    display_step(&mut s, plain('h'));
    display_step(&mut s, plain('A'));
    let act = display_step(&mut s, plain('a'));
    match act {
        DisplayAction::Transmit(p) => assert_eq!(p, vec![0xaa]),
        _ => panic!("expected a transmit"),
    }
    display_step(&mut s, plain('F'));
    let act = display_step(&mut s, plain('F'));
    match act {
        DisplayAction::Transmit(p) => assert_eq!(p, vec![0xff]),
        _ => panic!("expected a transmit"),
    }
}

#[test]
fn hex_mode_ignores_other_keys() {
    let mut s = CerialState::default();
    display_step(&mut s, plain('h'));
    assert!(matches!(display_step(&mut s, plain('g')), DisplayAction::Idle));
    assert!(matches!(display_step(&mut s, plain(' ')), DisplayAction::Idle));
    assert!(matches!(
        display_step(&mut s, key(KeyCode::Char('4'), KeyModifier::Alt)),
        DisplayAction::Idle
    ));
    assert_eq!(s.hex_pending, HexPending::Empty);
}

#[test]
fn hex_mode_escape_discards_pending_digit() {
    let mut s = CerialState::default();
    display_step(&mut s, plain('h'));
    display_step(&mut s, plain('7'));
    assert_eq!(s.hex_pending, HexPending::Half(7));
    let act = display_step(&mut s, escape_chord());
    assert!(matches!(act, DisplayAction::Idle));
    assert_eq!(s.mode, CerialMode::Menu);
    assert_eq!(s.hex_pending, HexPending::Empty);
}

#[test]
fn serial_input_passes_through_verbatim() {
    let mut s = CerialState::default();
    let act = display_step(&mut s, DisplayUpdateEvent::SerialInput(vec![1, 2, 3, 255]));
    match act {
        DisplayAction::Passthrough(d) => assert_eq!(d, vec![1, 2, 3, 255]),
        _ => panic!("expected a passthrough"),
    }
    assert_eq!(s.mode, CerialMode::Menu);
}

#[test]
fn telemetry_event_replaces_snapshot_wholesale() {
    let mut s = CerialState::default();
    let t = SerialTelemetry { cts: true, cd: false, ri: true, dsr: false };
    let act = display_step(&mut s, DisplayUpdateEvent::SerialTelemetry(t));
    assert!(matches!(act, DisplayAction::Idle));
    assert!(s.serial_telemetry.cts);
    assert!(!s.serial_telemetry.cd);
    assert!(s.serial_telemetry.ri);
    assert!(!s.serial_telemetry.dsr);
    assert_eq!(s.menu_string(), "Menu: CTS: true CD: false RI: true DSR: false");
}

#[test]
fn ticks_pings_and_resizes_change_nothing() {
    let mut s = CerialState::default();
    assert!(matches!(display_step(&mut s, DisplayUpdateEvent::Tick), DisplayAction::Idle));
    assert!(matches!(display_step(&mut s, DisplayUpdateEvent::Ping), DisplayAction::Idle));
    assert!(matches!(
        display_step(&mut s, DisplayUpdateEvent::TerminalResize(80, 24)),
        DisplayAction::Idle
    ));
    assert_eq!(s.mode, CerialMode::Menu);
    assert!(!s.exit);
}

#[test]
fn interleaved_producers_are_each_handled_once_in_order() {
    // Three serial payloads from one producer, two key presses from
    // the other, interleaved as a channel might deliver them: every
    // event is dispatched exactly once and each producer's payloads
    // come out in its own send order.
    let mut s = CerialState::default();
    display_step(&mut s, plain('i'));

    let events = vec![
        DisplayUpdateEvent::SerialInput(vec![10]),
        plain('a'),
        DisplayUpdateEvent::SerialInput(vec![20]),
        DisplayUpdateEvent::SerialInput(vec![30]),
        plain('b'),
    ];

    let mut passthroughs: Vec<Vec<u8>> = Vec::new();
    let mut transmits: Vec<Vec<u8>> = Vec::new();
    let mut dispatched = 0;
    for e in events {
        if s.exit {
            break;
        }
        match display_step(&mut s, e) {
            DisplayAction::Passthrough(d) => passthroughs.push(d),
            DisplayAction::Transmit(p) => transmits.push(p),
            DisplayAction::Idle => {},
        }
        dispatched += 1;
    }

    assert_eq!(dispatched, 5);
    assert_eq!(passthroughs, vec![vec![10], vec![20], vec![30]]);
    assert_eq!(transmits, vec![vec![b'a'], vec![b'b']]);
}

#[test]
fn no_event_is_dispatched_after_exit() {
    let mut s = CerialState::default();
    let events = vec![plain('q'), plain('i'), plain('m')];
    let mut dispatched = 0;
    for e in events {
        if s.exit {
            break;
        }
        display_step(&mut s, e);
        dispatched += 1;
    }
    assert_eq!(dispatched, 1);
    assert!(s.exit);
    assert_eq!(s.mode, CerialMode::Menu);
    assert_eq!(s.menu_state, MenuState::SerialTelemetry);
}
