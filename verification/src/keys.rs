use vstd::prelude::*;

verus! {

/// Modifier held while a key was pressed. The encoder distinguishes the
/// four single modifiers; every combination of several modifiers is
/// folded into `Other`, which no rule of the encoding table accepts.
#[derive(Debug, Copy, Clone, PartialEq, Eq, Structural)]
pub enum KeyModifier {
    /// No modifier held
    Plain,
    Shift,
    Control,
    Alt,
    /// Any combination of modifiers not listed above
    Other,
}

/// Key reported by the terminal. `Unknown` stands for any key the
/// encoding table has no rule for; it always encodes to nothing.
#[derive(Debug, Copy, Clone, PartialEq, Eq, Structural)]
pub enum KeyCode {
    Char(char),
    Backspace,
    Enter,
    Left,
    Right,
    Up,
    Down,
    Home,
    End,
    PageUp,
    PageDown,
    Tab,
    BackTab,
    Delete,
    Insert,
    F(u8),
    Null,
    Esc,
    Unknown,
}

/// A key press: the key together with the modifier held.
#[derive(Debug, Copy, Clone, PartialEq, Eq, Structural)]
pub struct KeyEvent {
    pub code: KeyCode,
    pub modifiers: KeyModifier,
}

/// Characters the encoder passes through as a single byte: the printable
/// ASCII range, space through tilde.
pub open spec fn is_printable_ascii(c: char) -> bool {
    ' ' <= c && c <= '~'
}

/// Byte sequence for an arrow key: a fixed escape sequence per modifier,
/// following the extended-modifier convention (`2` shift, `5` control,
/// `3` alt). `fin` is the final byte naming the direction.
pub open spec fn arrow_seq(m: KeyModifier, fin: u8) -> Seq<u8> {
    match m {
        KeyModifier::Plain => seq![0x1bu8, 0x5bu8, 0x5bu8, fin],
        KeyModifier::Shift => seq![0x1bu8, 0x5bu8, 0x5bu8, 0x31u8, 0x3bu8, 0x32u8, fin],
        KeyModifier::Control => seq![0x1bu8, 0x5bu8, 0x5bu8, 0x31u8, 0x3bu8, 0x35u8, fin],
        KeyModifier::Alt => seq![0x1bu8, 0x5bu8, 0x5bu8, 0x31u8, 0x3bu8, 0x33u8, fin],
        KeyModifier::Other => Seq::empty(),
    }
}

/// Byte sequence for a key whose base form is `<base>~` (Page Up/Down,
/// Delete, Insert): control and alt splice in the extended-modifier
/// digit, shift has no form.
pub open spec fn tilde_seq(m: KeyModifier, base: u8) -> Seq<u8> {
    match m {
        KeyModifier::Plain => seq![0x1bu8, 0x5bu8, 0x5bu8, base, 0x7eu8],
        KeyModifier::Control => seq![0x1bu8, 0x5bu8, 0x5bu8, base, 0x3bu8, 0x35u8, 0x7eu8],
        KeyModifier::Alt => seq![0x1bu8, 0x5bu8, 0x5bu8, base, 0x3bu8, 0x33u8, 0x7eu8],
        _ => Seq::empty(),
    }
}

/// Byte sequence for Home: `1~` unmodified, `H` final byte with a
/// modifier.
pub open spec fn home_seq(m: KeyModifier) -> Seq<u8> {
    match m {
        KeyModifier::Plain => seq![0x1bu8, 0x5bu8, 0x5bu8, 0x31u8, 0x7eu8],
        KeyModifier::Other => Seq::empty(),
        _ => arrow_seq(m, 0x48u8),
    }
}

/// Byte sequence for End: `4~` unmodified, `f` final byte with a
/// modifier.
pub open spec fn end_seq(m: KeyModifier) -> Seq<u8> {
    match m {
        KeyModifier::Plain => seq![0x1bu8, 0x5bu8, 0x5bu8, 0x34u8, 0x7eu8],
        KeyModifier::Other => Seq::empty(),
        _ => arrow_seq(m, 0x66u8),
    }
}

/// Byte sequence for an unmodified function key; keys outside F1..F12
/// encode to nothing.
pub open spec fn fkey_seq(n: u8) -> Seq<u8> {
    match n {
        1u8 => seq![0x1bu8, 0x5bu8, 0x5bu8, 0x4fu8, 0x50u8],
        2u8 => seq![0x1bu8, 0x5bu8, 0x5bu8, 0x4fu8, 0x51u8],
        3u8 => seq![0x1bu8, 0x5bu8, 0x5bu8, 0x4fu8, 0x52u8],
        4u8 => seq![0x1bu8, 0x5bu8, 0x5bu8, 0x4fu8, 0x53u8],
        5u8 => seq![0x1bu8, 0x5bu8, 0x5bu8, 0x31u8, 0x35u8, 0x7eu8],
        6u8 => seq![0x1bu8, 0x5bu8, 0x5bu8, 0x31u8, 0x37u8, 0x7eu8],
        7u8 => seq![0x1bu8, 0x5bu8, 0x5bu8, 0x31u8, 0x38u8, 0x7eu8],
        8u8 => seq![0x1bu8, 0x5bu8, 0x5bu8, 0x31u8, 0x39u8, 0x7eu8],
        9u8 => seq![0x1bu8, 0x5bu8, 0x5bu8, 0x32u8, 0x30u8, 0x7eu8],
        10u8 => seq![0x1bu8, 0x5bu8, 0x5bu8, 0x32u8, 0x31u8, 0x7eu8],
        11u8 => seq![0x1bu8, 0x5bu8, 0x5bu8, 0x32u8, 0x32u8, 0x7eu8],
        12u8 => seq![0x1bu8, 0x5bu8, 0x5bu8, 0x32u8, 0x34u8, 0x7eu8],
        _ => Seq::empty(),
    }
}

/// The back-tab escape sequence, shared by Tab+Shift and the BackTab
/// key.
pub open spec fn backtab_seq() -> Seq<u8> {
    seq![0x1bu8, 0x5bu8, 0x5bu8, 0x5au8]
}

/// The key encoding table: the byte sequence a key press is translated
/// to before transmission on the serial line. Total over all pairs; a
/// pair the table has no rule for yields the empty sequence, which is
/// legal and is never transmitted.
///
/// Rules: a printable ASCII character passes through as itself (shift
/// merely produced the character, so it passes through too); control
/// with a lowercase letter uses caret encoding, `Ctrl-A` = 1 through
/// `Ctrl-Z` = 26 — control with any other character is deliberately
/// left unencoded rather than extrapolated; Backspace, Enter, Tab, Null
/// and Escape have fixed unmodified forms; the navigation keys have one
/// escape sequence per single modifier.
pub open spec fn key_encode(code: KeyCode, m: KeyModifier) -> Seq<u8> {
    match code {
        KeyCode::Char(c) => match m {
            KeyModifier::Plain | KeyModifier::Shift => if is_printable_ascii(c) {
                seq![c as u8]
            } else {
                Seq::empty()
            },
            KeyModifier::Control => if 'a' <= c && c <= 'z' {
                seq![(c as int - 96) as u8]
            } else {
                Seq::empty()
            },
            _ => Seq::empty(),
        },
        KeyCode::Backspace => if m is Plain {
            seq![0x7fu8]
        } else {
            Seq::empty()
        },
        KeyCode::Enter => if m is Plain {
            seq![0x0au8]
        } else {
            Seq::empty()
        },
        KeyCode::Tab => match m {
            KeyModifier::Plain => seq![0x09u8],
            KeyModifier::Shift => backtab_seq(),
            _ => Seq::empty(),
        },
        KeyCode::BackTab => match m {
            KeyModifier::Plain | KeyModifier::Shift => backtab_seq(),
            _ => Seq::empty(),
        },
        KeyCode::Left => arrow_seq(m, 0x44u8),
        KeyCode::Right => arrow_seq(m, 0x43u8),
        KeyCode::Up => arrow_seq(m, 0x41u8),
        KeyCode::Down => arrow_seq(m, 0x42u8),
        KeyCode::Home => home_seq(m),
        KeyCode::End => end_seq(m),
        KeyCode::PageUp => tilde_seq(m, 0x35u8),
        KeyCode::PageDown => tilde_seq(m, 0x36u8),
        KeyCode::Delete => tilde_seq(m, 0x33u8),
        KeyCode::Insert => tilde_seq(m, 0x32u8),
        KeyCode::F(n) => if m is Plain {
            fkey_seq(n)
        } else {
            Seq::empty()
        },
        KeyCode::Null => if m is Plain {
            seq![0x00u8]
        } else {
            Seq::empty()
        },
        KeyCode::Esc => if m is Plain {
            seq![0x1bu8, 0x5bu8, 0x5bu8]
        } else {
            Seq::empty()
        },
        KeyCode::Unknown => Seq::empty(),
    }
}

/// The pairs the encoding table has a rule for, written out
/// independently of the sequences themselves.
pub open spec fn key_supported(code: KeyCode, m: KeyModifier) -> bool {
    match code {
        KeyCode::Char(c) => match m {
            KeyModifier::Plain | KeyModifier::Shift => is_printable_ascii(c),
            KeyModifier::Control => 'a' <= c && c <= 'z',
            _ => false,
        },
        KeyCode::Backspace | KeyCode::Enter | KeyCode::Null | KeyCode::Esc => m is Plain,
        KeyCode::Tab | KeyCode::BackTab => m is Plain || m is Shift,
        KeyCode::Left | KeyCode::Right | KeyCode::Up | KeyCode::Down | KeyCode::Home
            | KeyCode::End => !(m is Other),
        KeyCode::PageUp | KeyCode::PageDown | KeyCode::Delete | KeyCode::Insert => m is Plain
            || m is Control || m is Alt,
        KeyCode::F(n) => m is Plain && 1 <= n && n <= 12,
        KeyCode::Unknown => false,
    }
}

/// Law: every pair outside the encoding table yields the empty
/// sequence, and every pair inside it yields at least one byte — the
/// table and the non-empty encodings coincide exactly.
pub proof fn lemma_unsupported_is_empty(code: KeyCode, m: KeyModifier)
    ensures
        !key_supported(code, m) ==> key_encode(code, m) == Seq::<u8>::empty(),
        key_supported(code, m) ==> key_encode(code, m).len() > 0,
{
}

/// Law: a printable ASCII character with no modifier encodes as the
/// single byte holding the character itself.
pub proof fn lemma_printable_passthrough(c: char)
    requires
        is_printable_ascii(c),
    ensures
        key_encode(KeyCode::Char(c), KeyModifier::Plain) == seq![c as u8],
        key_encode(KeyCode::Char(c), KeyModifier::Plain).len() == 1,
        key_encode(KeyCode::Char(c), KeyModifier::Plain)[0] == c as int,
{
}

/// Law: control with a lowercase letter uses caret encoding: the single
/// byte `c - 'a' + 1`.
pub proof fn lemma_control_caret(c: char)
    requires
        'a' <= c && c <= 'z',
    ensures
        key_encode(KeyCode::Char(c), KeyModifier::Control).len() == 1,
        key_encode(KeyCode::Char(c), KeyModifier::Control)[0] == c as int - 'a' as int + 1,
{
}

fn bytes1(b0: u8) -> (r: Vec<u8>)
    ensures
        r@ == seq![b0],
{
    let v: Vec<u8> = vec![b0];
    assert(v@ =~= seq![b0]);
    v
}

fn bytes3(b0: u8, b1: u8, b2: u8) -> (r: Vec<u8>)
    ensures
        r@ == seq![b0, b1, b2],
{
    let v: Vec<u8> = vec![b0, b1, b2];
    assert(v@ =~= seq![b0, b1, b2]);
    v
}

fn bytes4(b0: u8, b1: u8, b2: u8, b3: u8) -> (r: Vec<u8>)
    ensures
        r@ == seq![b0, b1, b2, b3],
{
    let v: Vec<u8> = vec![b0, b1, b2, b3];
    assert(v@ =~= seq![b0, b1, b2, b3]);
    v
}

fn bytes5(b0: u8, b1: u8, b2: u8, b3: u8, b4: u8) -> (r: Vec<u8>)
    ensures
        r@ == seq![b0, b1, b2, b3, b4],
{
    let v: Vec<u8> = vec![b0, b1, b2, b3, b4];
    assert(v@ =~= seq![b0, b1, b2, b3, b4]);
    v
}

fn bytes6(b0: u8, b1: u8, b2: u8, b3: u8, b4: u8, b5: u8) -> (r: Vec<u8>)
    ensures
        r@ == seq![b0, b1, b2, b3, b4, b5],
{
    let v: Vec<u8> = vec![b0, b1, b2, b3, b4, b5];
    assert(v@ =~= seq![b0, b1, b2, b3, b4, b5]);
    v
}

fn bytes7(b0: u8, b1: u8, b2: u8, b3: u8, b4: u8, b5: u8, b6: u8) -> (r: Vec<u8>)
    ensures
        r@ == seq![b0, b1, b2, b3, b4, b5, b6],
{
    let v: Vec<u8> = vec![b0, b1, b2, b3, b4, b5, b6];
    assert(v@ =~= seq![b0, b1, b2, b3, b4, b5, b6]);
    v
}

/// Arrow-key escape sequence for a given final byte, one case per
/// modifier of the extended-modifier convention.
fn arrow_vec(m: KeyModifier, fin: u8) -> (r: Vec<u8>)
    ensures
        r@ == arrow_seq(m, fin),
{
    match m {
        KeyModifier::Plain => bytes4(0x1b, 0x5b, 0x5b, fin),
        KeyModifier::Shift => bytes7(0x1b, 0x5b, 0x5b, 0x31, 0x3b, 0x32, fin),
        KeyModifier::Control => bytes7(0x1b, 0x5b, 0x5b, 0x31, 0x3b, 0x35, fin),
        KeyModifier::Alt => bytes7(0x1b, 0x5b, 0x5b, 0x31, 0x3b, 0x33, fin),
        KeyModifier::Other => Vec::new(),
    }
}

/// `<base>~`-family escape sequence, one case per supported modifier.
fn tilde_vec(m: KeyModifier, base: u8) -> (r: Vec<u8>)
    ensures
        r@ == tilde_seq(m, base),
{
    match m {
        KeyModifier::Plain => bytes5(0x1b, 0x5b, 0x5b, base, 0x7e),
        KeyModifier::Control => bytes7(0x1b, 0x5b, 0x5b, base, 0x3b, 0x35, 0x7e),
        KeyModifier::Alt => bytes7(0x1b, 0x5b, 0x5b, base, 0x3b, 0x33, 0x7e),
        _ => Vec::new(),
    }
}

/// Translate one key press into the bytes to put on the serial line,
/// following the encoding table exactly. An empty result means the
/// press has no encoding and nothing is to be transmitted.
pub fn key_event_to_vec(key_event: KeyEvent) -> (r: Vec<u8>)
    ensures
        r@ == key_encode(key_event.code, key_event.modifiers),
{
    let m = key_event.modifiers;
    match key_event.code {
        KeyCode::Char(c) => match m {
            KeyModifier::Plain | KeyModifier::Shift => {
                if ' ' <= c && c <= '~' {
                    bytes1(c as u8)
                } else {
                    Vec::new()
                }
            },
            KeyModifier::Control => {
                if 'a' <= c && c <= 'z' {
                    bytes1(c as u8 - 96)
                } else {
                    Vec::new()
                }
            },
            _ => Vec::new(),
        },
        KeyCode::Backspace => match m {
            KeyModifier::Plain => bytes1(0x7f),
            _ => Vec::new(),
        },
        KeyCode::Enter => match m {
            KeyModifier::Plain => bytes1(0x0a),
            _ => Vec::new(),
        },
        KeyCode::Tab => match m {
            KeyModifier::Plain => bytes1(0x09),
            KeyModifier::Shift => bytes4(0x1b, 0x5b, 0x5b, 0x5a),
            _ => Vec::new(),
        },
        KeyCode::BackTab => match m {
            KeyModifier::Plain | KeyModifier::Shift => bytes4(0x1b, 0x5b, 0x5b, 0x5a),
            _ => Vec::new(),
        },
        KeyCode::Left => arrow_vec(m, 0x44),
        KeyCode::Right => arrow_vec(m, 0x43),
        KeyCode::Up => arrow_vec(m, 0x41),
        KeyCode::Down => arrow_vec(m, 0x42),
        KeyCode::Home => match m {
            KeyModifier::Plain => bytes5(0x1b, 0x5b, 0x5b, 0x31, 0x7e),
            KeyModifier::Other => Vec::new(),
            _ => arrow_vec(m, 0x48),
        },
        KeyCode::End => match m {
            KeyModifier::Plain => bytes5(0x1b, 0x5b, 0x5b, 0x34, 0x7e),
            KeyModifier::Other => Vec::new(),
            _ => arrow_vec(m, 0x66),
        },
        KeyCode::PageUp => tilde_vec(m, 0x35),
        KeyCode::PageDown => tilde_vec(m, 0x36),
        KeyCode::Delete => tilde_vec(m, 0x33),
        KeyCode::Insert => tilde_vec(m, 0x32),
        KeyCode::F(n) => match m {
            KeyModifier::Plain => match n {
                1u8 => bytes5(0x1b, 0x5b, 0x5b, 0x4f, 0x50),
                2u8 => bytes5(0x1b, 0x5b, 0x5b, 0x4f, 0x51),
                3u8 => bytes5(0x1b, 0x5b, 0x5b, 0x4f, 0x52),
                4u8 => bytes5(0x1b, 0x5b, 0x5b, 0x4f, 0x53),
                5u8 => bytes6(0x1b, 0x5b, 0x5b, 0x31, 0x35, 0x7e),
                6u8 => bytes6(0x1b, 0x5b, 0x5b, 0x31, 0x37, 0x7e),
                7u8 => bytes6(0x1b, 0x5b, 0x5b, 0x31, 0x38, 0x7e),
                8u8 => bytes6(0x1b, 0x5b, 0x5b, 0x31, 0x39, 0x7e),
                9u8 => bytes6(0x1b, 0x5b, 0x5b, 0x32, 0x30, 0x7e),
                10u8 => bytes6(0x1b, 0x5b, 0x5b, 0x32, 0x31, 0x7e),
                11u8 => bytes6(0x1b, 0x5b, 0x5b, 0x32, 0x32, 0x7e),
                12u8 => bytes6(0x1b, 0x5b, 0x5b, 0x32, 0x34, 0x7e),
                _ => Vec::new(),
            },
            _ => Vec::new(),
        },
        KeyCode::Null => match m {
            KeyModifier::Plain => bytes1(0x00),
            _ => Vec::new(),
        },
        KeyCode::Esc => match m {
            KeyModifier::Plain => bytes3(0x1b, 0x5b, 0x5b),
            _ => Vec::new(),
        },
        KeyCode::Unknown => Vec::new(),
    }
}

} // verus!
