use vstd::prelude::*;

use crate::text::is_numeral;
use crate::text::lower_chars;
use crate::text::numeral_digits;
use crate::text::dec_value;
use crate::text::eq_lowered;
use crate::text::parse_u8;

verus! {

/// Number of data bits in a serial frame.
#[derive(Debug, Copy, Clone, PartialEq, Eq, Structural)]
pub enum DataBits {
    Five,
    Six,
    Seven,
    Eight,
}

/// Flow control discipline of the serial line. `Off` is the `none`
/// setting.
#[derive(Debug, Copy, Clone, PartialEq, Eq, Structural)]
pub enum FlowControl {
    Off,
    Software,
    Hardware,
}

/// Parity bit of a serial frame. `Off` is the `none` setting.
#[derive(Debug, Copy, Clone, PartialEq, Eq, Structural)]
pub enum Parity {
    Off,
    Odd,
    Even,
}

/// Number of stop bits of a serial frame.
#[derive(Debug, Copy, Clone, PartialEq, Eq, Structural)]
pub enum StopBits {
    One,
    Two,
}

/// A rejected serial-setting argument, one variant per setting.
#[derive(Debug, Copy, Clone, PartialEq, Eq, Structural)]
pub enum SettingError {
    InvalidDataBits,
    InvalidFlowControl,
    InvalidParity,
    InvalidStopBits,
}

impl SettingError {
    /// Short description of the rejected setting.
    pub fn message(&self) -> (r: &'static str)
        ensures
            r@.len() > 0,
    {
        proof {
            reveal_strlit("Invalid data-bit size.");
            reveal_strlit("Invalid flow control.");
            reveal_strlit("Invalid parity.");
            reveal_strlit("Invalid stop bits.");
        }
        match self {
            SettingError::InvalidDataBits => "Invalid data-bit size.",
            SettingError::InvalidFlowControl => "Invalid flow control.",
            SettingError::InvalidParity => "Invalid parity.",
            SettingError::InvalidStopBits => "Invalid stop bits.",
        }
    }
}

/// The settings a serial device is opened with, supplied externally and
/// immutable afterwards.
#[derive(Debug, Copy, Clone, PartialEq, Eq, Structural)]
pub struct SerialSettings {
    pub baud_rate: u32,
    pub data_bits: DataBits,
    pub flow_control: FlowControl,
    pub parity: Parity,
    pub stop_bits: StopBits,
    /// Read timeout of the device, in milliseconds.
    pub timeout_ms: u64,
}

/// The settings a device is assumed to have before any are supplied:
/// 9600 baud, 8 data bits, no flow control, no parity, one stop bit,
/// no read timeout.
pub open spec fn default_settings() -> SerialSettings {
    SerialSettings {
        baud_rate: 9600u32,
        data_bits: DataBits::Eight,
        flow_control: FlowControl::Off,
        parity: Parity::Off,
        stop_bits: StopBits::One,
        timeout_ms: 0u64,
    }
}

impl Default for SerialSettings {
    /// 9600 baud, 8 data bits, no flow control, no parity, one stop
    /// bit, no read timeout.
    fn default() -> (r: Self)
        ensures
            r == default_settings(),
    {
        SerialSettings {
            baud_rate: 9600,
            data_bits: DataBits::Eight,
            flow_control: FlowControl::Off,
            parity: Parity::Off,
            stop_bits: StopBits::One,
            timeout_ms: 0,
        }
    }
}

/// Whether a numeral string denotes exactly the value `v`.
pub open spec fn denotes(s: Seq<char>, v: int) -> bool {
    is_numeral(s) && dec_value(numeral_digits(s)) == v
}

/// Read a data-bits argument: a numeral denoting 5, 6, 7 or 8.
pub fn parse_data_bits(src: &str) -> (r: Result<DataBits, SettingError>)
    ensures
        r == Ok::<DataBits, SettingError>(DataBits::Five) <==> denotes(src@, 5),
        r == Ok::<DataBits, SettingError>(DataBits::Six) <==> denotes(src@, 6),
        r == Ok::<DataBits, SettingError>(DataBits::Seven) <==> denotes(src@, 7),
        r == Ok::<DataBits, SettingError>(DataBits::Eight) <==> denotes(src@, 8),
        r is Err ==> r == Err::<DataBits, SettingError>(SettingError::InvalidDataBits),
{
    match parse_u8(src) {
        Some(5) => Ok(DataBits::Five),
        Some(6) => Ok(DataBits::Six),
        Some(7) => Ok(DataBits::Seven),
        Some(8) => Ok(DataBits::Eight),
        _ => Err(SettingError::InvalidDataBits),
    }
}

/// Read a stop-bits argument: a numeral denoting 1 or 2.
pub fn parse_stop_bits(src: &str) -> (r: Result<StopBits, SettingError>)
    ensures
        r == Ok::<StopBits, SettingError>(StopBits::One) <==> denotes(src@, 1),
        r == Ok::<StopBits, SettingError>(StopBits::Two) <==> denotes(src@, 2),
        r is Err ==> r == Err::<StopBits, SettingError>(SettingError::InvalidStopBits),
{
    match parse_u8(src) {
        Some(1) => Ok(StopBits::One),
        Some(2) => Ok(StopBits::Two),
        _ => Err(SettingError::InvalidStopBits),
    }
}

/// Read a flow-control argument, case-insensitively: `n`/`none`,
/// `s`/`software`, or `h`/`hardware`.
pub fn parse_flow_control(src: &str) -> (r: Result<FlowControl, SettingError>)
    ensures
        r == Ok::<FlowControl, SettingError>(FlowControl::Off) <==> (lower_chars(src@) == "n"@
            || lower_chars(src@) == "none"@),
        r == Ok::<FlowControl, SettingError>(FlowControl::Software) <==> (lower_chars(src@)
            == "s"@ || lower_chars(src@) == "software"@),
        r == Ok::<FlowControl, SettingError>(FlowControl::Hardware) <==> (lower_chars(src@)
            == "h"@ || lower_chars(src@) == "hardware"@),
        r is Err ==> r == Err::<FlowControl, SettingError>(SettingError::InvalidFlowControl),
{
    proof {
        reveal_strlit("n");
        reveal_strlit("none");
        reveal_strlit("s");
        reveal_strlit("software");
        reveal_strlit("h");
        reveal_strlit("hardware");
        assert("n"@.len() == 1 && "n"@[0] == 'n');
        assert("none"@.len() == 4 && "none"@[0] == 'n');
        assert("s"@.len() == 1 && "s"@[0] == 's');
        assert("software"@.len() == 8 && "software"@[0] == 's');
        assert("h"@.len() == 1 && "h"@[0] == 'h');
        assert("hardware"@.len() == 8 && "hardware"@[0] == 'h');
    }
    if eq_lowered(src, "n") || eq_lowered(src, "none") {
        Ok(FlowControl::Off)
    } else if eq_lowered(src, "s") || eq_lowered(src, "software") {
        Ok(FlowControl::Software)
    } else if eq_lowered(src, "h") || eq_lowered(src, "hardware") {
        Ok(FlowControl::Hardware)
    } else {
        Err(SettingError::InvalidFlowControl)
    }
}

/// Read a parity argument, case-insensitively: `n`/`none`, `o`/`odd`,
/// or `e`/`even`.
pub fn parse_parity(src: &str) -> (r: Result<Parity, SettingError>)
    ensures
        r == Ok::<Parity, SettingError>(Parity::Off) <==> (lower_chars(src@) == "n"@
            || lower_chars(src@) == "none"@),
        r == Ok::<Parity, SettingError>(Parity::Odd) <==> (lower_chars(src@) == "o"@
            || lower_chars(src@) == "odd"@),
        r == Ok::<Parity, SettingError>(Parity::Even) <==> (lower_chars(src@) == "e"@
            || lower_chars(src@) == "even"@),
        r is Err ==> r == Err::<Parity, SettingError>(SettingError::InvalidParity),
{
    proof {
        reveal_strlit("n");
        reveal_strlit("none");
        reveal_strlit("o");
        reveal_strlit("odd");
        reveal_strlit("e");
        reveal_strlit("even");
        assert("n"@.len() == 1 && "n"@[0] == 'n');
        assert("none"@.len() == 4 && "none"@[0] == 'n');
        assert("o"@.len() == 1 && "o"@[0] == 'o');
        assert("odd"@.len() == 3 && "odd"@[0] == 'o');
        assert("e"@.len() == 1 && "e"@[0] == 'e');
        assert("even"@.len() == 4 && "even"@[0] == 'e');
    }
    if eq_lowered(src, "n") || eq_lowered(src, "none") {
        Ok(Parity::Off)
    } else if eq_lowered(src, "o") || eq_lowered(src, "odd") {
        Ok(Parity::Odd)
    } else if eq_lowered(src, "e") || eq_lowered(src, "even") {
        Ok(Parity::Even)
    } else {
        Err(SettingError::InvalidParity)
    }
}

} // verus!
