use vstd::prelude::*;

verus! {

/// What is shown in place of bytes that are no valid UTF-8.
pub const REPLACEMENT_CHARACTER: char = '\u{FFFD}';

pub const BACKSPACE: char = '\u{0008}';

/// Introduces escape sequences.
pub const ESCAPE: char = '\u{001B}';

pub const BELL: char = '\u{0007}';

pub const HORIZONTAL_TAB: char = '\u{0009}';

pub const NEWLINE: char = '\u{000A}';

pub const VERTICAL_TAB: char = '\u{000B}';

pub const FORMFEED: char = '\u{000C}';

pub const CARRIAGE_RETURN: char = '\u{000D}';

pub const DELETE: char = '\u{007F}';

pub const SPACE: char = ' ';

/// After `ESC`, begins a control sequence.
pub const CONTROL_SEQUENCE_INTRODUCER: char = '[';

/// After `ESC`, begins a device control string.
pub const DEVICE_CONTROL_STRING: char = 'P';

/// After `ESC`, begins an operating system command.
pub const OPERATING_SYSTEM_COMMAND: char = ']';

/// After `ESC`, begins the designation of the character set G0.
pub const DESIGNATE_G0_CHARACTER_SET: char = '(';

} // verus!
