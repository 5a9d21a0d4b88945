use cerial::key_event_to_vec;
use cerial::KeyCode;
use cerial::KeyEvent;
use cerial::KeyModifier;

fn enc(code: KeyCode, modifiers: KeyModifier) -> Vec<u8> {
    key_event_to_vec(KeyEvent { code, modifiers })
}

#[test]
fn printable_chars_pass_through_unmodified() {
    assert_eq!(enc(KeyCode::Char('x'), KeyModifier::Plain), vec![0x78]);
    assert_eq!(enc(KeyCode::Char('a'), KeyModifier::Plain), vec![0x61]);
    assert_eq!(enc(KeyCode::Char(' '), KeyModifier::Plain), vec![0x20]);
    assert_eq!(enc(KeyCode::Char('~'), KeyModifier::Plain), vec![0x7e]);
    assert_eq!(enc(KeyCode::Char('5'), KeyModifier::Plain), vec![0x35]);
    for b in 0x20u8..=0x7eu8 {
        assert_eq!(enc(KeyCode::Char(b as char), KeyModifier::Plain), vec![b]);
    }
}

#[test]
fn shifted_printable_chars_pass_through() {
    assert_eq!(enc(KeyCode::Char('X'), KeyModifier::Shift), vec![0x58]);
    assert_eq!(enc(KeyCode::Char('!'), KeyModifier::Shift), vec![0x21]);
}

#[test]
fn nonprintable_chars_encode_to_nothing() {
    assert!(enc(KeyCode::Char('\u{7f}'), KeyModifier::Plain).is_empty());
    assert!(enc(KeyCode::Char('é'), KeyModifier::Plain).is_empty());
    assert!(enc(KeyCode::Char('\t'), KeyModifier::Plain).is_empty());
}

#[test]
fn control_letters_use_caret_encoding() {
    assert_eq!(enc(KeyCode::Char('a'), KeyModifier::Control), vec![0x01]);
    assert_eq!(enc(KeyCode::Char('c'), KeyModifier::Control), vec![0x03]);
    assert_eq!(enc(KeyCode::Char('z'), KeyModifier::Control), vec![0x1a]);
    for (i, b) in (b'a'..=b'z').enumerate() {
        assert_eq!(
            enc(KeyCode::Char(b as char), KeyModifier::Control),
            vec![i as u8 + 1]
        );
    }
}

#[test]
fn control_with_nonletter_encodes_to_nothing() {
    assert!(enc(KeyCode::Char('5'), KeyModifier::Control).is_empty());
    assert!(enc(KeyCode::Char('A'), KeyModifier::Control).is_empty());
    assert!(enc(KeyCode::Char('['), KeyModifier::Control).is_empty());
}

#[test]
fn fixed_single_byte_keys() {
    assert_eq!(enc(KeyCode::Backspace, KeyModifier::Plain), vec![0x7f]);
    assert_eq!(enc(KeyCode::Enter, KeyModifier::Plain), vec![0x0a]);
    assert_eq!(enc(KeyCode::Tab, KeyModifier::Plain), vec![0x09]);
    assert_eq!(enc(KeyCode::Null, KeyModifier::Plain), vec![0x00]);
}

#[test]
fn escape_key_and_back_tab() {
    assert_eq!(enc(KeyCode::Esc, KeyModifier::Plain), b"\x1b[[".to_vec());
    assert_eq!(enc(KeyCode::Tab, KeyModifier::Shift), b"\x1b[[Z".to_vec());
    assert_eq!(enc(KeyCode::BackTab, KeyModifier::Plain), b"\x1b[[Z".to_vec());
    assert_eq!(enc(KeyCode::BackTab, KeyModifier::Shift), b"\x1b[[Z".to_vec());
}

#[test]
fn arrow_keys_per_modifier() {
    assert_eq!(enc(KeyCode::Left, KeyModifier::Plain), b"\x1b[[D".to_vec());
    assert_eq!(enc(KeyCode::Left, KeyModifier::Shift), b"\x1b[[1;2D".to_vec());
    assert_eq!(enc(KeyCode::Left, KeyModifier::Control), b"\x1b[[1;5D".to_vec());
    assert_eq!(enc(KeyCode::Left, KeyModifier::Alt), b"\x1b[[1;3D".to_vec());
    assert_eq!(enc(KeyCode::Right, KeyModifier::Plain), b"\x1b[[C".to_vec());
    assert_eq!(enc(KeyCode::Up, KeyModifier::Plain), b"\x1b[[A".to_vec());
    assert_eq!(enc(KeyCode::Down, KeyModifier::Plain), b"\x1b[[B".to_vec());
    assert_eq!(enc(KeyCode::Up, KeyModifier::Control), b"\x1b[[1;5A".to_vec());
}

#[test]
fn home_and_end_keys() {
    assert_eq!(enc(KeyCode::Home, KeyModifier::Plain), b"\x1b[[1~".to_vec());
    assert_eq!(enc(KeyCode::Home, KeyModifier::Shift), b"\x1b[[1;2H".to_vec());
    assert_eq!(enc(KeyCode::End, KeyModifier::Plain), b"\x1b[[4~".to_vec());
    assert_eq!(enc(KeyCode::End, KeyModifier::Alt), b"\x1b[[1;3f".to_vec());
}

#[test]
fn paging_insert_delete_keys() {
    assert_eq!(enc(KeyCode::PageUp, KeyModifier::Plain), b"\x1b[[5~".to_vec());
    assert_eq!(enc(KeyCode::PageUp, KeyModifier::Control), b"\x1b[[5;5~".to_vec());
    assert_eq!(enc(KeyCode::PageDown, KeyModifier::Alt), b"\x1b[[6;3~".to_vec());
    assert_eq!(enc(KeyCode::Delete, KeyModifier::Plain), b"\x1b[[3~".to_vec());
    assert_eq!(enc(KeyCode::Insert, KeyModifier::Plain), b"\x1b[[2~".to_vec());
    assert!(enc(KeyCode::PageUp, KeyModifier::Shift).is_empty());
    assert!(enc(KeyCode::Delete, KeyModifier::Shift).is_empty());
}

#[test]
fn function_keys_unmodified_only() {
    assert_eq!(enc(KeyCode::F(1), KeyModifier::Plain), b"\x1b[[OP".to_vec());
    assert_eq!(enc(KeyCode::F(4), KeyModifier::Plain), b"\x1b[[OS".to_vec());
    assert_eq!(enc(KeyCode::F(5), KeyModifier::Plain), b"\x1b[[15~".to_vec());
    assert_eq!(enc(KeyCode::F(9), KeyModifier::Plain), b"\x1b[[20~".to_vec());
    assert_eq!(enc(KeyCode::F(12), KeyModifier::Plain), b"\x1b[[24~".to_vec());
    assert!(enc(KeyCode::F(13), KeyModifier::Plain).is_empty());
    assert!(enc(KeyCode::F(0), KeyModifier::Plain).is_empty());
    assert!(enc(KeyCode::F(1), KeyModifier::Shift).is_empty());
}

#[test]
fn unsupported_pairs_encode_to_nothing() {
    assert!(enc(KeyCode::Backspace, KeyModifier::Control).is_empty());
    assert!(enc(KeyCode::Enter, KeyModifier::Alt).is_empty());
    assert!(enc(KeyCode::Esc, KeyModifier::Shift).is_empty());
    assert!(enc(KeyCode::Null, KeyModifier::Control).is_empty());
    assert!(enc(KeyCode::Char('x'), KeyModifier::Alt).is_empty());
    assert!(enc(KeyCode::Char('x'), KeyModifier::Other).is_empty());
    assert!(enc(KeyCode::Left, KeyModifier::Other).is_empty());
    assert!(enc(KeyCode::Unknown, KeyModifier::Plain).is_empty());
}
