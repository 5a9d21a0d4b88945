//! Verified core of an interactive serial-console application.
//!
//! The library holds the pure logic of the console: the key-event byte
//! encoder, the application-mode state machine driving the display loop,
//! the telemetry snapshot rules, the menu-bar rendering, and the serial
//! settings parsers. The surrounding process (terminal I/O, the serial
//! device, worker threads and channels) lives outside the library and
//! calls into these functions with plain values.

pub mod control;
pub mod events;
pub mod keys;
pub mod settings;
pub mod state;
pub mod telemetry;
pub mod text;
pub mod workers;

pub use control::DisplayAction;
pub use control::display_step;
pub use control::hex_mode;
pub use control::insert_mode;
pub use control::menu_mode;
pub use events::DisplayUpdateEvent;
pub use keys::KeyCode;
pub use keys::KeyEvent;
pub use keys::KeyModifier;
pub use keys::key_event_to_vec;
pub use settings::DataBits;
pub use settings::FlowControl;
pub use settings::Parity;
pub use settings::SerialSettings;
pub use settings::SettingError;
pub use settings::StopBits;
pub use settings::parse_data_bits;
pub use settings::parse_flow_control;
pub use settings::parse_parity;
pub use settings::parse_stop_bits;
pub use state::CerialMode;
pub use state::CerialState;
pub use state::HexPending;
pub use state::MenuState;
pub use telemetry::SerialTelemetry;
pub use workers::PolledEvent;
pub use workers::ReadOutcome;
pub use workers::ReaderAction;
pub use workers::classify_terminal_event;
pub use workers::reader_step;
pub use workers::should_transmit;
