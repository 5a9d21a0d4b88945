use vstd::prelude::*;

use crate::settings::SerialSettings;
use crate::telemetry::SerialTelemetry;
use crate::telemetry::telemetry_chars;
use crate::text::dec_chars;
use crate::text::format_u32;

verus! {

/// The mode the application is in; it governs how key presses are
/// interpreted.
#[derive(Debug, Copy, Clone, PartialEq, Eq, Structural)]
pub enum CerialMode {
    /// Keys drive the menu
    Menu,
    /// Keys are encoded and transmitted
    Input,
    /// Pairs of hex digits are assembled into bytes and transmitted
    HexInput,
}

/// What the menu bar shows.
#[derive(Debug, Copy, Clone, PartialEq, Eq, Structural)]
pub enum MenuState {
    /// Menu line is hidden
    Hidden,
    /// Displays the device and its baud rate
    SerialSettings,
    /// Displays the modem control lines
    SerialTelemetry,
}

/// The half-assembled byte of hex-input mode: the value of the first
/// digit of a pair, waiting for the second.
#[derive(Debug, Copy, Clone, PartialEq, Eq, Structural)]
pub enum HexPending {
    Empty,
    Half(u8),
}

impl Default for CerialMode {
    fn default() -> (r: Self)
        ensures
            r == CerialMode::Menu,
    {
        CerialMode::Menu
    }
}

impl Default for MenuState {
    fn default() -> (r: Self)
        ensures
            r == MenuState::SerialTelemetry,
    {
        MenuState::SerialTelemetry
    }
}

/// Name of a mode as the menu bar shows it.
pub open spec fn mode_chars(m: CerialMode) -> Seq<char> {
    match m {
        CerialMode::Menu => seq!['M', 'e', 'n', 'u'],
        CerialMode::Input => seq!['I', 'n', 'p', 'u', 't'],
        CerialMode::HexInput => seq!['H', 'e', 'x'],
    }
}

impl CerialMode {
    /// Name of the mode as the menu bar shows it.
    pub fn mode_str(&self) -> (r: &'static str)
        ensures
            r@ == mode_chars(*self),
    {
        proof {
            reveal_strlit("Menu");
            reveal_strlit("Input");
            reveal_strlit("Hex");
        }
        match self {
            CerialMode::Menu => {
                let r = "Menu";
                assert(r@ =~= mode_chars(*self));
                r
            },
            CerialMode::Input => {
                let r = "Input";
                assert(r@ =~= mode_chars(*self));
                r
            },
            CerialMode::HexInput => {
                let r = "Hex";
                assert(r@ =~= mode_chars(*self));
                r
            },
        }
    }
}

/// The application state: owned and mutated by the display loop alone.
#[derive(Debug, Clone)]
pub struct CerialState {
    /// Application mode
    pub mode: CerialMode,
    /// Exit flag: set once, ends the display loop
    pub exit: bool,
    /// Latest telemetry snapshot
    pub serial_telemetry: SerialTelemetry,
    /// Path of the serial device
    pub serial_dev: String,
    /// Settings the device was opened with
    pub serial_settings: SerialSettings,
    /// What the menu bar shows
    pub menu_state: MenuState,
    /// Half-assembled byte of hex-input mode
    pub hex_pending: HexPending,
}

impl Default for CerialState {
    /// Menu mode, telemetry shown, nothing pending, all lines low, no
    /// device name.
    fn default() -> (r: Self)
        ensures
            r.mode == CerialMode::Menu,
            !r.exit,
            r.serial_telemetry == SerialTelemetry::all_low(),
            r.serial_dev@ == Seq::<char>::empty(),
            r.serial_settings == crate::settings::default_settings(),
            r.menu_state == MenuState::SerialTelemetry,
            r.hex_pending == HexPending::Empty,
            r.wf(),
    {
        CerialState {
            mode: CerialMode::Menu,
            exit: false,
            serial_telemetry: SerialTelemetry {
                cts: false,
                cd: false,
                ri: false,
                dsr: false,
            },
            serial_dev: String::new(),
            serial_settings: SerialSettings::default(),
            menu_state: MenuState::SerialTelemetry,
            hex_pending: HexPending::Empty,
        }
    }
}

/// The line the menu bar shows for a given state.
pub open spec fn menu_line(s: CerialState) -> Seq<char> {
    match s.menu_state {
        MenuState::Hidden => Seq::empty(),
        MenuState::SerialSettings => mode_chars(s.mode) + seq![':', ' '] + s.serial_dev@
            + seq![' '] + dec_chars(s.serial_settings.baud_rate as int),
        MenuState::SerialTelemetry => mode_chars(s.mode) + seq![':', ' '] + telemetry_chars(
            s.serial_telemetry,
        ),
    }
}

impl CerialState {
    /// Well-formedness: a pending hex digit is the value of one digit.
    pub open spec fn wf(&self) -> bool {
        match self.hex_pending {
            HexPending::Half(h) => h < 16,
            HexPending::Empty => true,
        }
    }

    /// Replace the stored serial settings. Does not touch the physical
    /// serial port.
    pub fn update_serial_settings(self, settings: SerialSettings) -> (r: Self)
        ensures
            r == (CerialState { serial_settings: settings, ..self }),
    {
        CerialState { serial_settings: settings, ..self }
    }

    /// Replace the stored device path. Does not change the target
    /// serial port.
    pub fn update_serial_dev(self, dev: &str) -> (r: Self)
        ensures
            r.serial_dev@ == dev@,
            r == (CerialState { serial_dev: r.serial_dev, ..self }),
    {
        let owned: String = dev.to_owned();
        CerialState { serial_dev: owned, ..self }
    }

    /// The device and baud-rate part of the settings display.
    fn display_serial_settings(&self) -> (r: String)
        ensures
            r@ == self.serial_dev@ + seq![' '] + dec_chars(
                self.serial_settings.baud_rate as int,
            ),
    {
        proof {
            reveal_strlit(" ");
        }
        let mut s = self.serial_dev.clone();
        proof {
            assert(s@ == self.serial_dev@);
        }
        s.append(" ");
        let baud = format_u32(self.serial_settings.baud_rate);
        s.append(baud.as_str());
        proof {
            assert(s@ =~= self.serial_dev@ + seq![' '] + dec_chars(
                self.serial_settings.baud_rate as int,
            ));
        }
        s
    }

    /// The current menu line, exactly as the menu bar prints it.
    pub fn menu_string(&self) -> (r: String)
        ensures
            r@ == menu_line(*self),
    {
        proof {
            reveal_strlit(": ");
        }
        match self.menu_state {
            MenuState::Hidden => {
                let r = String::new();
                assert(r@ =~= menu_line(*self));
                r
            },
            MenuState::SerialSettings => {
                let mut s = String::from_str(self.mode.mode_str());
                s.append(": ");
                let rest = self.display_serial_settings();
                s.append(rest.as_str());
                proof {
                    assert(s@ =~= menu_line(*self));
                }
                s
            },
            MenuState::SerialTelemetry => {
                let mut s = String::from_str(self.mode.mode_str());
                s.append(": ");
                let rest = self.serial_telemetry.telemetry_string();
                s.append(rest.as_str());
                proof {
                    assert(s@ =~= menu_line(*self));
                }
                s
            },
        }
    }
}

} // verus!
