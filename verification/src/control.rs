use vstd::prelude::*;

use crate::events::DisplayUpdateEvent;
use crate::keys::KeyCode;
use crate::keys::KeyEvent;
use crate::keys::KeyModifier;
use crate::keys::key_encode;
use crate::keys::key_event_to_vec;
use crate::state::CerialMode;
use crate::state::CerialState;
use crate::state::HexPending;
use crate::state::MenuState;
use crate::text::hex_digit_value;
use crate::text::hex_val;
use crate::text::is_hex_digit;

verus! {

/// What the display loop asks its surroundings to do after one event,
/// besides repainting the menu bar.
#[derive(Debug)]
pub enum DisplayAction {
    /// Nothing beyond the repaint
    Idle,
    /// Queue these bytes for the serial writer
    Transmit(Vec<u8>),
    /// Write these received bytes to the terminal verbatim and flush
    Passthrough(Vec<u8>),
}

/// The part of the application state that event dispatch reads and
/// writes: everything but the device identity and its settings, which
/// no event changes.
#[derive(Debug, Copy, Clone, PartialEq, Eq, Structural)]
pub struct LoopModel {
    pub mode: CerialMode,
    pub menu: MenuState,
    pub exit: bool,
    pub telemetry: crate::telemetry::SerialTelemetry,
    pub pending: HexPending,
}

impl CerialState {
    /// The dispatch-relevant part of the state.
    pub open spec fn model(&self) -> LoopModel {
        LoopModel {
            mode: self.mode,
            menu: self.menu_state,
            exit: self.exit,
            telemetry: self.serial_telemetry,
            pending: self.hex_pending,
        }
    }
}

/// The key chord that leaves Input or HexInput mode for the menu: a
/// control-modified `5`.
pub open spec fn is_escape_chord(k: KeyEvent) -> bool {
    k.code == KeyCode::Char('5') && k.modifiers == KeyModifier::Control
}

/// The menu-visibility cycle driven by `m` in Menu mode.
pub open spec fn next_menu(v: MenuState) -> MenuState {
    match v {
        MenuState::Hidden => MenuState::SerialSettings,
        MenuState::SerialSettings => MenuState::SerialTelemetry,
        MenuState::SerialTelemetry => MenuState::Hidden,
    }
}

/// Menu-mode key dispatch: unmodified `i` enters Input, `h` enters
/// HexInput, `q` requests exit, `m` cycles the menu bar; every other
/// key does nothing.
pub open spec fn menu_step(m: LoopModel, k: KeyEvent) -> LoopModel {
    if k.modifiers == KeyModifier::Plain {
        if k.code == KeyCode::Char('i') {
            LoopModel { mode: CerialMode::Input, ..m }
        } else if k.code == KeyCode::Char('h') {
            LoopModel { mode: CerialMode::HexInput, ..m }
        } else if k.code == KeyCode::Char('q') {
            LoopModel { exit: true, ..m }
        } else if k.code == KeyCode::Char('m') {
            LoopModel { menu: next_menu(m.menu), ..m }
        } else {
            m
        }
    } else {
        m
    }
}

/// Input-mode key dispatch: the escape chord returns to the menu,
/// every other key leaves the state alone (its bytes go out instead).
pub open spec fn input_step(m: LoopModel, k: KeyEvent) -> LoopModel {
    if is_escape_chord(k) {
        LoopModel { mode: CerialMode::Menu, ..m }
    } else {
        m
    }
}

/// The payloads Input mode queues for a key press: nothing for the
/// escape chord, otherwise exactly the key's encoding (which may be
/// empty; the writer skips empty payloads).
pub open spec fn input_sends(k: KeyEvent) -> Seq<Seq<u8>> {
    if is_escape_chord(k) {
        Seq::empty()
    } else {
        seq![key_encode(k.code, k.modifiers)]
    }
}

/// HexInput-mode key dispatch: the escape chord returns to the menu
/// and discards a half-assembled byte; an unmodified hex digit is
/// stored as the high half of a byte, or completes a pair; every other
/// key is ignored.
pub open spec fn hex_step(m: LoopModel, k: KeyEvent) -> LoopModel {
    if is_escape_chord(k) {
        LoopModel { mode: CerialMode::Menu, pending: HexPending::Empty, ..m }
    } else {
        match k.code {
            KeyCode::Char(c) => if k.modifiers == KeyModifier::Plain && is_hex_digit(c) {
                match m.pending {
                    HexPending::Empty => LoopModel {
                        pending: HexPending::Half(hex_val(c) as u8),
                        ..m
                    },
                    HexPending::Half(h) => LoopModel { pending: HexPending::Empty, ..m },
                }
            } else {
                m
            },
            _ => m,
        }
    }
}

/// The payloads HexInput mode queues for a key press: one byte when a
/// digit pair completes, nothing otherwise.
pub open spec fn hex_sends(m: LoopModel, k: KeyEvent) -> Seq<Seq<u8>> {
    if is_escape_chord(k) {
        Seq::empty()
    } else {
        match k.code {
            KeyCode::Char(c) => if k.modifiers == KeyModifier::Plain && is_hex_digit(c) {
                match m.pending {
                    HexPending::Empty => Seq::empty(),
                    HexPending::Half(h) => seq![seq![(h * 16 + hex_val(c)) as u8]],
                }
            } else {
                Seq::empty()
            },
            _ => Seq::empty(),
        }
    }
}

/// One step of the display loop's state: key presses are dispatched by
/// mode, a telemetry event replaces the stored snapshot wholesale, and
/// no other event touches the state.
pub open spec fn step_model(m: LoopModel, e: DisplayUpdateEvent) -> LoopModel {
    match e {
        DisplayUpdateEvent::KeyInput(k) => match m.mode {
            CerialMode::Menu => menu_step(m, k),
            CerialMode::Input => input_step(m, k),
            CerialMode::HexInput => hex_step(m, k),
        },
        DisplayUpdateEvent::SerialTelemetry(t) => LoopModel { telemetry: t, ..m },
        _ => m,
    }
}

/// The payloads one step queues for the serial writer.
pub open spec fn step_sends(m: LoopModel, e: DisplayUpdateEvent) -> Seq<Seq<u8>> {
    match e {
        DisplayUpdateEvent::KeyInput(k) => match m.mode {
            CerialMode::Menu => Seq::empty(),
            CerialMode::Input => input_sends(k),
            CerialMode::HexInput => hex_sends(m, k),
        },
        _ => Seq::empty(),
    }
}

/// The exact action one step asks for: received serial bytes pass
/// through verbatim, queued payloads are handed to the writer, and
/// everything else is a bare repaint.
pub open spec fn action_spec(m: LoopModel, e: DisplayUpdateEvent, act: DisplayAction) -> bool {
    match act {
        DisplayAction::Idle => step_sends(m, e).len() == 0 && !(e is SerialInput),
        DisplayAction::Transmit(p) => step_sends(m, e) == seq![p@],
        DisplayAction::Passthrough(w) => step_sends(m, e).len() == 0 && (e matches
        DisplayUpdateEvent::SerialInput(d) && w@ == d@),
    }
}

/// Handle a key press while in Menu mode.
pub fn menu_mode(state: &mut CerialState, key: KeyEvent)
    ensures
        final(state).model() == menu_step(old(state).model(), key),
        final(state).serial_dev == old(state).serial_dev,
        final(state).serial_settings == old(state).serial_settings,
{
    if key.modifiers == KeyModifier::Plain {
        match key.code {
            KeyCode::Char(c) => {
                if c == 'i' {
                    state.mode = CerialMode::Input;
                } else if c == 'h' {
                    state.mode = CerialMode::HexInput;
                } else if c == 'q' {
                    state.exit = true;
                } else if c == 'm' {
                    state.menu_state = match state.menu_state {
                        MenuState::Hidden => MenuState::SerialSettings,
                        MenuState::SerialSettings => MenuState::SerialTelemetry,
                        MenuState::SerialTelemetry => MenuState::Hidden,
                    };
                }
            },
            _ => {},
        }
    }
}

/// Handle a key press while in Input mode: the escape chord returns to
/// the menu, every other key is encoded and queued for transmission.
pub fn insert_mode(state: &mut CerialState, key: KeyEvent) -> (act: DisplayAction)
    ensures
        final(state).model() == input_step(old(state).model(), key),
        final(state).serial_dev == old(state).serial_dev,
        final(state).serial_settings == old(state).serial_settings,
        (match act {
            DisplayAction::Idle => input_sends(key).len() == 0,
            DisplayAction::Transmit(p) => input_sends(key) == seq![p@],
            DisplayAction::Passthrough(_) => false,
        }),
{
    if key.code == KeyCode::Char('5') && key.modifiers == KeyModifier::Control {
        state.mode = CerialMode::Menu;
        DisplayAction::Idle
    } else {
        DisplayAction::Transmit(key_event_to_vec(key))
    }
}

/// Handle a key press while in HexInput mode: the escape chord returns
/// to the menu and discards a pending half byte; pairs of unmodified
/// hex digits (either case) assemble one byte, first digit high; any
/// other key is ignored.
pub fn hex_mode(state: &mut CerialState, key: KeyEvent) -> (act: DisplayAction)
    requires
        old(state).wf(),
    ensures
        final(state).wf(),
        final(state).model() == hex_step(old(state).model(), key),
        final(state).serial_dev == old(state).serial_dev,
        final(state).serial_settings == old(state).serial_settings,
        (match act {
            DisplayAction::Idle => hex_sends(old(state).model(), key).len() == 0,
            DisplayAction::Transmit(p) => hex_sends(old(state).model(), key) == seq![p@],
            DisplayAction::Passthrough(_) => false,
        }),
{
    if key.code == KeyCode::Char('5') && key.modifiers == KeyModifier::Control {
        state.mode = CerialMode::Menu;
        state.hex_pending = HexPending::Empty;
        return DisplayAction::Idle;
    }
    match key.code {
        KeyCode::Char(c) => {
            if key.modifiers == KeyModifier::Plain {
                match hex_digit_value(c) {
                    Some(v) => match state.hex_pending {
                        HexPending::Empty => {
                            state.hex_pending = HexPending::Half(v);
                            DisplayAction::Idle
                        },
                        HexPending::Half(h) => {
                            state.hex_pending = HexPending::Empty;
                            let byte: u8 = h * 16 + v;
                            let mut payload: Vec<u8> = Vec::new();
                            payload.push(byte);
                            proof {
                                assert(payload@ =~= seq![(h * 16 + hex_val(c)) as u8]);
                            }
                            DisplayAction::Transmit(payload)
                        },
                    },
                    None => DisplayAction::Idle,
                }
            } else {
                DisplayAction::Idle
            }
        },
        _ => DisplayAction::Idle,
    }
}

/// Dispatch one event: the single place the application state changes.
/// Key presses are interpreted by mode, received bytes pass through to
/// the terminal, a telemetry event replaces the snapshot, and the
/// remaining events only cause the caller's repaint.
pub fn display_step(state: &mut CerialState, event: DisplayUpdateEvent) -> (act: DisplayAction)
    requires
        old(state).wf(),
    ensures
        final(state).wf(),
        final(state).model() == step_model(old(state).model(), event),
        final(state).serial_dev == old(state).serial_dev,
        final(state).serial_settings == old(state).serial_settings,
        action_spec(old(state).model(), event, act),
{
    match event {
        DisplayUpdateEvent::KeyInput(k) => match state.mode {
            CerialMode::Menu => {
                menu_mode(state, k);
                DisplayAction::Idle
            },
            CerialMode::Input => insert_mode(state, k),
            CerialMode::HexInput => hex_mode(state, k),
        },
        DisplayUpdateEvent::SerialInput(data) => DisplayAction::Passthrough(data),
        DisplayUpdateEvent::SerialTelemetry(t) => {
            state.serial_telemetry = t;
            DisplayAction::Idle
        },
        DisplayUpdateEvent::Ping => DisplayAction::Idle,
        DisplayUpdateEvent::Tick => DisplayAction::Idle,
        DisplayUpdateEvent::TerminalResize(_, _) => DisplayAction::Idle,
    }
}

/// The state after the display loop has dispatched `evs` in order,
/// stopping at the first event whose dispatch requested exit (events
/// after it are never dispatched).
pub open spec fn run_model(m: LoopModel, evs: Seq<DisplayUpdateEvent>) -> LoopModel
    decreases evs.len(),
{
    if m.exit || evs.len() == 0 {
        m
    } else {
        run_model(step_model(m, evs[0]), evs.skip(1))
    }
}

/// How many of `evs` the display loop dispatches before stopping.
pub open spec fn run_processed(m: LoopModel, evs: Seq<DisplayUpdateEvent>) -> nat
    decreases evs.len(),
{
    if m.exit || evs.len() == 0 {
        0
    } else {
        1 + run_processed(step_model(m, evs[0]), evs.skip(1))
    }
}

/// The payloads the display loop queues for the writer while
/// dispatching `evs`, in dispatch order.
pub open spec fn run_sends(m: LoopModel, evs: Seq<DisplayUpdateEvent>) -> Seq<Seq<u8>>
    decreases evs.len(),
{
    if m.exit || evs.len() == 0 {
        Seq::empty()
    } else {
        step_sends(m, evs[0]) + run_sends(step_model(m, evs[0]), evs.skip(1))
    }
}

/// Law: once exit has been requested, the display loop dispatches no
/// further event, changes nothing and queues nothing; shutting the
/// workers down is its surroundings' one remaining duty.
pub proof fn lemma_exit_halts_dispatch(m: LoopModel, evs: Seq<DisplayUpdateEvent>)
    requires
        m.exit,
    ensures
        run_model(m, evs) == m,
        run_processed(m, evs) == 0,
        run_sends(m, evs) == Seq::<Seq<u8>>::empty(),
{
}

/// Law: from Menu mode, an unmodified `q` requests exit exactly once:
/// that one event is dispatched, nothing is queued for transmission by
/// it or afterwards, and no later event is dispatched.
pub proof fn lemma_quit_key_is_final(m: LoopModel, evs: Seq<DisplayUpdateEvent>)
    requires
        !m.exit,
        m.mode == CerialMode::Menu,
        evs.len() > 0,
        evs[0] == DisplayUpdateEvent::KeyInput(
            KeyEvent { code: KeyCode::Char('q'), modifiers: KeyModifier::Plain },
        ),
    ensures
        run_model(m, evs).exit,
        run_processed(m, evs) == 1,
        run_sends(m, evs) == Seq::<Seq<u8>>::empty(),
{
    let m1 = step_model(m, evs[0]);
    assert(m1.exit);
    lemma_exit_halts_dispatch(m1, evs.skip(1));
    assert(run_sends(m, evs) =~= Seq::<Seq<u8>>::empty());
}

/// Law: from Input or HexInput mode, the escape chord returns to Menu
/// mode and queues nothing for transmission for that key press.
pub proof fn lemma_escape_chord_returns_to_menu(m: LoopModel, k: KeyEvent)
    requires
        m.mode == CerialMode::Input || m.mode == CerialMode::HexInput,
        is_escape_chord(k),
    ensures
        step_model(m, DisplayUpdateEvent::KeyInput(k)).mode == CerialMode::Menu,
        step_model(m, DisplayUpdateEvent::KeyInput(k)).exit == m.exit,
        step_sends(m, DisplayUpdateEvent::KeyInput(k)).len() == 0,
{
}

/// An event whose dispatch could request exit: an unmodified `q` key
/// press (it does so only in Menu mode).
pub open spec fn is_quit_key(e: DisplayUpdateEvent) -> bool {
    e matches DisplayUpdateEvent::KeyInput(k) && k.code == KeyCode::Char('q') && k.modifiers
        == KeyModifier::Plain
}

proof fn lemma_step_preserves_running(m: LoopModel, e: DisplayUpdateEvent)
    requires
        !m.exit,
        !is_quit_key(e),
    ensures
        !step_model(m, e).exit,
{
}

/// Law: as long as no quit key arrives, the display loop dispatches
/// every event handed to it, each exactly once, in order.
pub proof fn lemma_dispatch_processes_all(m: LoopModel, evs: Seq<DisplayUpdateEvent>)
    requires
        !m.exit,
        forall|i: int| 0 <= i < evs.len() ==> !is_quit_key(#[trigger] evs[i]),
    ensures
        run_processed(m, evs) == evs.len(),
        !run_model(m, evs).exit,
    decreases evs.len(),
{
    if evs.len() > 0 {
        lemma_step_preserves_running(m, evs[0]);
        assert forall|i: int| 0 <= i < evs.skip(1).len() implies !is_quit_key(
            #[trigger] evs.skip(1)[i],
        ) by {
            assert(evs.skip(1)[i] == evs[i + 1]);
        }
        lemma_dispatch_processes_all(step_model(m, evs[0]), evs.skip(1));
    }
}

/// Law: dispatching one sequence of events after another is the same
/// as dispatching their concatenation, provided the first ran to
/// completion; the queued payloads concatenate in the same order. With
/// `lemma_dispatch_processes_all` this says the loop handles the
/// merged stream of its two producers exactly once each, in arrival
/// order, with no reordering, loss or duplication of its own.
pub proof fn lemma_dispatch_append(
    m: LoopModel,
    evs1: Seq<DisplayUpdateEvent>,
    evs2: Seq<DisplayUpdateEvent>,
)
    requires
        run_processed(m, evs1) == evs1.len(),
    ensures
        run_model(m, evs1 + evs2) == run_model(run_model(m, evs1), evs2),
        run_processed(m, evs1 + evs2) == evs1.len() + run_processed(run_model(m, evs1), evs2),
        run_sends(m, evs1 + evs2) == run_sends(m, evs1) + run_sends(run_model(m, evs1), evs2),
    decreases evs1.len(),
{
    if m.exit || evs1.len() == 0 {
        assert(evs1.len() == 0);
        assert(evs1 + evs2 =~= evs2);
        assert(run_sends(m, evs1 + evs2) =~= run_sends(m, evs1) + run_sends(
            run_model(m, evs1),
            evs2,
        ));
    } else {
        let m1 = step_model(m, evs1[0]);
        assert((evs1 + evs2)[0] == evs1[0]);
        assert((evs1 + evs2).skip(1) =~= evs1.skip(1) + evs2);
        lemma_dispatch_append(m1, evs1.skip(1), evs2);
        assert(run_sends(m, evs1 + evs2) =~= run_sends(m, evs1) + run_sends(
            run_model(m, evs1),
            evs2,
        ));
    }
}

} // verus!
