use vstd::prelude::*;

verus! {

/// The keys that move the cursor.
#[derive(Clone, Copy, Debug, PartialEq, Eq, Structural)]
pub enum CursorKey {
    Up,
    Down,
    Right,
    Left,
}

/// The byte that the Enter key sends: a carriage return, not a line feed.
pub const ENTER: u8 = 0x0D;

/// The byte that the Backspace key sends.
pub const BACKSPACE_KEY: u8 = 0x08;

/// The last byte of the sequence of a cursor key.
pub open spec fn cursor_key_final(key: CursorKey) -> u8 {
    match key {
        CursorKey::Up => 0x41,
        CursorKey::Down => 0x42,
        CursorKey::Right => 0x43,
        CursorKey::Left => 0x44,
    }
}

/// The bytes that a cursor key sends: `ESC`, then `[`, or `O` where the
/// application form is on, then the letter of the key.
pub open spec fn cursor_key_bytes(key: CursorKey, application_cursor_keys: bool) -> Seq<u8> {
    seq![
        0x1Bu8,
        if application_cursor_keys {
            0x4Fu8
        } else {
            0x5Bu8
        },
        cursor_key_final(key),
    ]
}

/// The byte that a letter sends while Control is held: 1 for `a` up to 26 for
/// `z`. Other characters send none.
pub open spec fn control_byte(letter: char) -> Option<u8> {
    if 'a' <= letter && letter <= 'z' {
        Some((letter as int - 'a' as int + 1) as u8)
    } else {
        None
    }
}

/// The bytes that typed text sends: the text itself, but a carriage return
/// where the text is a single line feed.
pub open spec fn text_bytes(text: Seq<u8>) -> Seq<u8> {
    if text == seq![0x0Au8] {
        seq![ENTER]
    } else {
        text
    }
}

/// Gives the bytes that a cursor key sends in the given form of the cursor keys.
pub fn cursor_key_sequence(key: CursorKey, application_cursor_keys: bool) -> (bytes: [u8; 3])
    ensures
        bytes@ == cursor_key_bytes(key, application_cursor_keys),
{
    let introducer: u8 = if application_cursor_keys {
        0x4F
    } else {
        0x5B
    };
    let last: u8 = match key {
        CursorKey::Up => 0x41,
        CursorKey::Down => 0x42,
        CursorKey::Right => 0x43,
        CursorKey::Left => 0x44,
    };
    let bytes: [u8; 3] = [0x1B, introducer, last];
    proof {
        assert(bytes@ =~= cursor_key_bytes(key, application_cursor_keys));
    }
    bytes
}

/// Gives the byte that a letter sends while Control is held, if it sends one.
pub fn control_key_byte(letter: char) -> (byte: Option<u8>)
    ensures
        byte == control_byte(letter),
{
    if 'a' <= letter && letter <= 'z' {
        Some((letter as u32 - 'a' as u32 + 1) as u8)
    } else {
        None
    }
}

/// Gives the bytes that typed text sends to the shell.
pub fn text_input_bytes(text: &[u8]) -> (bytes: Vec<u8>)
    ensures
        bytes@ == text_bytes(text@),
{
    let mut bytes: Vec<u8> = Vec::new();
    if text.len() == 1 && text[0] == 0x0A {
        bytes.push(ENTER);
        proof {
            assert(text@ =~= seq![0x0Au8]);
        }
        return bytes;
    }
    let mut i: usize = 0;
    while i < text.len()
        invariant
            i <= text.len(),
            bytes@ == text@.take(i as int),
        decreases text.len() - i,
    {
        bytes.push(text[i]);
        proof {
            assert(bytes@ =~= text@.take(i + 1));
        }
        i += 1;
    }
    proof {
        assert(text@.take(i as int) =~= text@);
        if text@ == seq![0x0Au8] {
            assert(text@.len() == 1);
            assert(text@[0] == 0x0Au8);
        }
    }
    bytes
}

} // verus!
