use super::params::{
    find_piece_end, lemma_piece_end, number_or, parse_digits, parse_number, pieces_from,
    scalar_value, split_params,
};
use super::sequence::{
    CharacterSet, EraseInDisplayType, EraseInLineType, EscapeSequence, SGRCode, SequenceModel,
    SetCursorPositionArgs, SetOrResetModeType,
};
use crate::constants::special_case_introducer::SCROLL_UP;
use crate::constants::special_characters::{
    CONTROL_SEQUENCE_INTRODUCER, DESIGNATE_G0_CHARACTER_SET, DEVICE_CONTROL_STRING,
    OPERATING_SYSTEM_COMMAND, SPACE,
};
use vstd::prelude::*;

verus! {

/// The family of the sequence that is being read, known from the character
/// that follows `ESC`.
#[derive(Clone, Copy, Debug, PartialEq, Eq, Structural)]
pub enum SequenceType {
    /// Nothing but `ESC` was seen so far.
    Undetermined,
    /// Control Sequence Introducer: `ESC [`.
    CSI,
    /// Device Control String: `ESC P`.
    DCS,
    /// Operating System Command: `ESC ]`.
    OSC,
    /// The designation of the character set G0: `ESC (`.
    DesignateG0Charset,
    /// A sequence outside the standard: `ESC` and a space.
    NonStandard,
}

/// What the parser says of a character: whether the sequence is over, and what
/// it was.
#[derive(Debug, PartialEq, Eq)]
pub enum SequenceFinished {
    /// The sequence is over. `None` says that it is unknown or malformed and has
    /// no effect.
    Yes(Option<EscapeSequence>),
    /// More characters are needed.
    No,
}

/// What a [`SequenceFinished`] is in contracts.
pub enum FinishedModel {
    Yes(Option<SequenceModel>),
    No,
}

impl View for SequenceFinished {
    type V = FinishedModel;

    open spec fn view(&self) -> FinishedModel {
        match *self {
            SequenceFinished::Yes(Some(sequence)) => FinishedModel::Yes(Some(sequence@)),
            SequenceFinished::Yes(None) => FinishedModel::Yes(None),
            SequenceFinished::No => FinishedModel::No,
        }
    }
}

/// Reads the characters that follow `ESC`, one at a time, until they make a
/// sequence.
pub struct EscapeSequenceParser {
    sequence_type: SequenceType,
    parameter_chars: Vec<char>,
    intermediate_chars: Vec<char>,
}

/// What an [`EscapeSequenceParser`] is in contracts: the family, and the
/// parameter and intermediate characters collected so far.
pub struct ParserModel {
    pub sequence_type: SequenceType,
    pub parameter_chars: Seq<char>,
    pub intermediate_chars: Seq<char>,
}

/// Whether a character is a parameter byte of a control sequence.
pub open spec fn is_csi_parameter(c: char) -> bool {
    0x30 <= c as int <= 0x3F
}

/// Whether a character is an intermediate byte of a control sequence.
pub open spec fn is_csi_intermediate(c: char) -> bool {
    0x20 <= c as int <= 0x2F
}

/// Whether a character is a final byte, which ends a control sequence.
pub open spec fn is_csi_final(c: char) -> bool {
    0x40 <= c as int <= 0x7E
}

/// The single number of a control sequence: what the parameters write, or 1.
pub open spec fn single_number(params: Seq<char>) -> isize {
    number_or(params, isize::MAX as int, 1) as isize
}

/// The row and column of `SetCursorPosition`: the first piece of the parameters
/// is the row, the second the column, and each is 1 where it is missing or no
/// number.
pub open spec fn cursor_position_args(params: Seq<char>) -> SetCursorPositionArgs {
    if params.len() == 0 {
        SetCursorPositionArgs { x: 1, y: 1 }
    } else {
        let pieces = split_params(params);
        SetCursorPositionArgs {
            x: if pieces.len() > 1 {
                number_or(pieces[1], usize::MAX as int, 1) as usize
            } else {
                1
            },
            y: number_or(pieces[0], usize::MAX as int, 1) as usize,
        }
    }
}

/// The number that picks what to erase: 0 without parameters, the digit where
/// the parameters are one digit, 999 (which picks nothing) where they are one
/// other character, and 0 where they are longer.
pub open spec fn erase_type_number(params: Seq<char>) -> int {
    if params.len() == 1 {
        number_or(params, usize::MAX as int, 999)
    } else {
        0
    }
}

/// The number of the mode to set or reset: what the parameters write, or 20.
pub open spec fn mode_number(params: Seq<char>) -> int {
    number_or(params, usize::MAX as int, 20)
}

/// The rendition code that one piece of the parameters writes: `Noop` where the
/// piece is no number or the number is no known code.
pub open spec fn sgr_of_piece(piece: Seq<char>) -> SGRCode {
    match parse_number(piece, usize::MAX as int) {
        Some(n) => match SGRCode::of_code(n) {
            Some(code) => code,
            None => SGRCode::Noop,
        },
        None => SGRCode::Noop,
    }
}

/// The rendition codes that a list of pieces writes, one for each piece.
pub open spec fn codes_of_pieces(pieces: Seq<Seq<char>>) -> Seq<SGRCode> {
    Seq::new(pieces.len(), |i: int| sgr_of_piece(pieces[i]))
}

/// The rendition codes of `ESC [ ... m`: a reset without parameters, else one
/// code for each piece between the `;`s, in order.
pub open spec fn sgr_codes(params: Seq<char>) -> Seq<SGRCode> {
    if params.len() == 0 {
        seq![SGRCode::ResetAllTextStyles]
    } else {
        codes_of_pieces(split_params(params))
    }
}

/// The private sequences, whose parameters begin with `?`.
pub open spec fn private_sequence(params: Seq<char>, c: char) -> Option<SequenceModel> {
    if params == seq!['?', '2', '0', '0', '4'] && c == 'h' {
        Some(SequenceModel::PrivateEnableBracketedPasteMode)
    } else if params == seq!['?', '2', '0', '0', '4'] && c == 'l' {
        Some(SequenceModel::PrivateDisableBracketedPasteMode)
    } else if params == seq!['?', '7'] && c == 'h' {
        Some(SequenceModel::EnableAutoWrapMode)
    } else if params == seq!['?', '7'] && c == 'l' {
        Some(SequenceModel::DisableAutoWrapMode)
    } else if params == seq!['?', '1'] && c == 'h' {
        Some(SequenceModel::SwitchToApplicationCursorKeys)
    } else if params == seq!['?', '1'] && c == 'l' {
        Some(SequenceModel::SwitchToNormalCursorKeys)
    } else if params == seq!['?', '2', '5'] && c == 'h' {
        Some(SequenceModel::ShowCursor)
    } else if params == seq!['?', '2', '5'] && c == 'l' {
        Some(SequenceModel::HideCursor)
    } else {
        None
    }
}

/// The sequence that a control sequence with these parameters and this final
/// byte is, or `None` where it is unknown.
#[verifier::opaque]
pub open spec fn csi_sequence(params: Seq<char>, c: char) -> Option<SequenceModel> {
    if params.len() > 0 && params[0] == '?' {
        private_sequence(params, c)
    } else if c == 'A' {
        Some(SequenceModel::MoveCursorUp(single_number(params)))
    } else if c == 'B' {
        Some(SequenceModel::MoveCursorDown(single_number(params)))
    } else if c == 'C' {
        Some(SequenceModel::MoveCursorForward(single_number(params)))
    } else if c == 'D' {
        Some(SequenceModel::MoveCursorBack(single_number(params)))
    } else if c == 'E' {
        Some(SequenceModel::MoveCursorToNextLine(single_number(params)))
    } else if c == 'F' {
        Some(SequenceModel::MoveCursorToPreviousLine(single_number(params)))
    } else if c == 'G' {
        Some(SequenceModel::MoveCursorHorizontalAbsolute(single_number(params)))
    } else if c == 'H' {
        Some(SequenceModel::SetCursorPosition(cursor_position_args(params)))
    } else if c == 'J' {
        match EraseInDisplayType::of_code(erase_type_number(params)) {
            Some(erase) => Some(SequenceModel::EraseInDisplay(erase)),
            None => None,
        }
    } else if c == 'K' {
        match EraseInLineType::of_code(erase_type_number(params)) {
            Some(erase) => Some(SequenceModel::EraseInLine(erase)),
            None => None,
        }
    } else if c == 'P' {
        Some(SequenceModel::DeleteCharacters(single_number(params)))
    } else if c == 'b' {
        Some(SequenceModel::RepeatPreviousCharacter(single_number(params)))
    } else if c == 'h' {
        match SetOrResetModeType::of_code(mode_number(params)) {
            Some(mode) => Some(SequenceModel::SetMode(mode)),
            None => None,
        }
    } else if c == 'l' {
        match SetOrResetModeType::of_code(mode_number(params)) {
            Some(mode) => Some(SequenceModel::ResetMode(mode)),
            None => None,
        }
    } else if c == 'm' {
        Some(SequenceModel::SelectGraphicRendition(sgr_codes(params)))
    } else if c == 'c' {
        Some(SequenceModel::FullReset)
    } else {
        None
    }
}

impl ParserModel {
    /// The parser as it is right after `ESC`.
    pub open spec fn fresh() -> ParserModel {
        ParserModel {
            sequence_type: SequenceType::Undetermined,
            parameter_chars: Seq::empty(),
            intermediate_chars: Seq::empty(),
        }
    }

    /// What the first character after `ESC` does: `M` is a sequence by itself,
    /// an introducer fixes the family, and anything else ends the sequence
    /// without effect.
    pub open spec fn step_introducer(self, c: char) -> (ParserModel, FinishedModel) {
        if c == SCROLL_UP {
            (self, FinishedModel::Yes(Some(SequenceModel::MoveCursorUpScrollingIfNecessary)))
        } else if c == CONTROL_SEQUENCE_INTRODUCER {
            (ParserModel { sequence_type: SequenceType::CSI, ..self }, FinishedModel::No)
        } else if c == DEVICE_CONTROL_STRING {
            (ParserModel { sequence_type: SequenceType::DCS, ..self }, FinishedModel::No)
        } else if c == OPERATING_SYSTEM_COMMAND {
            (ParserModel { sequence_type: SequenceType::OSC, ..self }, FinishedModel::No)
        } else if c == DESIGNATE_G0_CHARACTER_SET {
            (
                ParserModel { sequence_type: SequenceType::DesignateG0Charset, ..self },
                FinishedModel::No,
            )
        } else if c == SPACE {
            (ParserModel { sequence_type: SequenceType::NonStandard, ..self }, FinishedModel::No)
        } else {
            (self, FinishedModel::Yes(None))
        }
    }

    /// What a character does inside a control sequence: parameter and
    /// intermediate bytes are collected, a final byte ends the sequence, and any
    /// other character is passed over.
    pub open spec fn step_csi(self, c: char) -> (ParserModel, FinishedModel) {
        if is_csi_parameter(c) {
            (
                ParserModel { parameter_chars: self.parameter_chars.push(c), ..self },
                FinishedModel::No,
            )
        } else if is_csi_intermediate(c) {
            (
                ParserModel { intermediate_chars: self.intermediate_chars.push(c), ..self },
                FinishedModel::No,
            )
        } else if is_csi_final(c) {
            (self, FinishedModel::Yes(csi_sequence(self.parameter_chars, c)))
        } else {
            (self, FinishedModel::No)
        }
    }

    /// What a character does inside a designation of G0: `&`, `"` and `%` begin a
    /// longer name, any other character ends it, and every set is taken for ASCII.
    pub open spec fn step_g0(self, c: char) -> (ParserModel, FinishedModel) {
        let next = ParserModel { parameter_chars: self.parameter_chars.push(c), ..self };
        if c == '&' || c == '"' || c == '%' {
            (next, FinishedModel::No)
        } else {
            (
                next,
                FinishedModel::Yes(
                    Some(SequenceModel::DesignateG0CharacterSet(CharacterSet::UnitedStatesASCII)),
                ),
            )
        }
    }

    /// The parser after one more character, and what it says of it.
    pub open spec fn step(self, c: char) -> (ParserModel, FinishedModel) {
        match self.sequence_type {
            SequenceType::Undetermined => self.step_introducer(c),
            SequenceType::CSI => self.step_csi(c),
            SequenceType::DesignateG0Charset => self.step_g0(c),
            _ => (self, FinishedModel::Yes(None)),
        }
    }

    /// The parser after a run of characters, whatever it said of them.
    pub open spec fn after(self, chars: Seq<char>) -> ParserModel
        decreases chars.len(),
    {
        if chars.len() == 0 {
            self
        } else {
            self.after(chars.drop_last()).step(chars.last()).0
        }
    }
}

impl View for EscapeSequenceParser {
    type V = ParserModel;

    closed spec fn view(&self) -> ParserModel {
        ParserModel {
            sequence_type: self.sequence_type,
            parameter_chars: self.parameter_chars@,
            intermediate_chars: self.intermediate_chars@,
        }
    }
}

/// Tells whether the parameters are exactly the given characters.
fn params_are(params: &Vec<char>, expected: &[char]) -> (same: bool)
    ensures
        same == (params@ == expected@),
{
    if params.len() != expected.len() {
        return false;
    }
    let mut i: usize = 0;
    while i < params.len()
        invariant
            i <= params.len() == expected.len(),
            params@.take(i as int) == expected@.take(i as int),
        decreases params.len() - i,
    {
        if params[i] != expected[i] {
            return false;
        }
        proof {
            assert(params@.take(i + 1) == params@.take(i as int).push(params@[i as int]));
            assert(expected@.take(i + 1) == expected@.take(i as int).push(expected@[i as int]));
        }
        i += 1;
    }
    proof {
        assert(params@.take(i as int) == params@);
        assert(expected@.take(i as int) == expected@);
    }
    true
}

impl EscapeSequenceParser {
    /// Takes one character of the sequence. `No` asks for more; `Yes` ends the
    /// sequence, with what it was or with `None` where it has no effect.
    pub fn parse_character(&mut self, c: char) -> (finished: SequenceFinished)
        ensures
            (final(self)@, finished@) == old(self)@.step(c),
    {
        if self.sequence_type == SequenceType::Undetermined {
            if c == SCROLL_UP {
                return SequenceFinished::Yes(
                    Some(EscapeSequence::MoveCursorUpScrollingIfNecessary),
                );
            }
            if c == CONTROL_SEQUENCE_INTRODUCER {
                self.sequence_type = SequenceType::CSI;
            } else if c == DEVICE_CONTROL_STRING {
                self.sequence_type = SequenceType::DCS;
            } else if c == OPERATING_SYSTEM_COMMAND {
                self.sequence_type = SequenceType::OSC;
            } else if c == DESIGNATE_G0_CHARACTER_SET {
                self.sequence_type = SequenceType::DesignateG0Charset;
            } else if c == SPACE {
                self.sequence_type = SequenceType::NonStandard;
            } else {
                return SequenceFinished::Yes(None);
            }
            return SequenceFinished::No;
        }
        match self.sequence_type {
            SequenceType::CSI => self.parse_csi_character(c),
            SequenceType::DesignateG0Charset => self.parse_g0_designate_charset_character(c),
            _ => SequenceFinished::Yes(None),
        }
    }

    fn parse_g0_designate_charset_character(&mut self, c: char) -> (finished: SequenceFinished)
        ensures
            (final(self)@, finished@) == old(self)@.step_g0(c),
    {
        self.parameter_chars.push(c);
        if c == '&' || c == '"' || c == '%' {
            return SequenceFinished::No;
        }
        SequenceFinished::Yes(
            Some(EscapeSequence::DesignateG0CharacterSet(CharacterSet::UnitedStatesASCII)),
        )
    }

    fn parse_csi_character(&mut self, c: char) -> (finished: SequenceFinished)
        ensures
            (final(self)@, finished@) == old(self)@.step_csi(c),
    {
        let n: u32 = scalar_value(c);
        if 0x30 <= n && n <= 0x3F {
            self.parameter_chars.push(c);
        } else if 0x20 <= n && n <= 0x2F {
            self.intermediate_chars.push(c);
        } else if 0x40 <= n && n <= 0x7E {
            return SequenceFinished::Yes(self.parse_csi_final_byte(c));
        }
        SequenceFinished::No
    }

    fn parse_csi_final_byte(&self, c: char) -> (sequence: Option<EscapeSequence>)
        ensures
            match csi_sequence(self@.parameter_chars, c) {
                Some(model) => sequence matches Some(s) && s@ == model,
                None => sequence is None,
            },
    {
        reveal(csi_sequence);
        if self.parameter_chars.len() > 0 && self.parameter_chars[0] == '?' {
            return self.parse_csi_private_sequence_final_byte(c);
        }
        match c {
            'A' => Some(EscapeSequence::MoveCursorUp(self.parse_csi_single_number_parameter())),
            'B' => Some(EscapeSequence::MoveCursorDown(self.parse_csi_single_number_parameter())),
            'C' => Some(
                EscapeSequence::MoveCursorForward(self.parse_csi_single_number_parameter()),
            ),
            'D' => Some(EscapeSequence::MoveCursorBack(self.parse_csi_single_number_parameter())),
            'E' => Some(
                EscapeSequence::MoveCursorToNextLine(self.parse_csi_single_number_parameter()),
            ),
            'F' => Some(
                EscapeSequence::MoveCursorToPreviousLine(self.parse_csi_single_number_parameter()),
            ),
            'G' => Some(
                EscapeSequence::MoveCursorHorizontalAbsolute(
                    self.parse_csi_single_number_parameter(),
                ),
            ),
            'H' => self.parse_csi_set_cursor_position(),
            'J' => self.parse_csi_erase_in_display(),
            'K' => self.parse_csi_erase_in_line(),
            'P' => Some(
                EscapeSequence::DeleteCharacters(self.parse_csi_single_number_parameter()),
            ),
            'b' => Some(
                EscapeSequence::RepeatPreviousCharacter(self.parse_csi_single_number_parameter()),
            ),
            'h' => self.parse_csi_set_mode(),
            'l' => self.parse_csi_reset_mode(),
            'm' => self.parse_csi_select_graphic_rendition(),
            'c' => Some(EscapeSequence::FullReset),
            _ => None,
        }
    }

    fn parse_csi_single_number_parameter(&self) -> (n: isize)
        ensures
            n == single_number(self@.parameter_chars),
    {
        let ghost params = self.parameter_chars@;
        proof {
            assert(params.subrange(0, params.len() as int) == params);
        }
        match parse_digits(
            &self.parameter_chars,
            0,
            self.parameter_chars.len(),
            isize::MAX as usize,
        ) {
            Some(n) => n as isize,
            None => 1,
        }
    }

    fn parse_csi_set_cursor_position(&self) -> (sequence: Option<EscapeSequence>)
        ensures
            sequence matches Some(s) && s@ == SequenceModel::SetCursorPosition(
                cursor_position_args(self@.parameter_chars),
            ),
    {
        let mut x: usize = 1;
        let mut y: usize = 1;
        let len: usize = self.parameter_chars.len();
        if len > 0 {
            let ghost params = self.parameter_chars@;
            let first_end: usize = find_piece_end(&self.parameter_chars, 0);
            proof {
                lemma_piece_end(params, 0);
            }
            // The row comes first, then the column.
            y =
            match parse_digits(&self.parameter_chars, 0, first_end, usize::MAX) {
                Some(n) => n,
                None => 1,
            };
            if first_end < len {
                let second_end: usize = find_piece_end(&self.parameter_chars, first_end + 1);
                proof {
                    lemma_piece_end(params, first_end + 1);
                    let rest = pieces_from(params, first_end + 1);
                    assert(rest[0] == params.subrange(first_end + 1, second_end as int));
                    assert(split_params(params) == seq![params.subrange(0, first_end as int)]
                        + rest);
                }
                x =
                match parse_digits(&self.parameter_chars, first_end + 1, second_end, usize::MAX) {
                    Some(n) => n,
                    None => 1,
                };
            } else {
                proof {
                    assert(split_params(params) == seq![params.subrange(0, len as int)]);
                }
            }
        }
        Some(EscapeSequence::SetCursorPosition(SetCursorPositionArgs { x, y }))
    }

    fn parse_csi_private_sequence_final_byte(&self, c: char) -> (sequence: Option<EscapeSequence>)
        ensures
            match private_sequence(self@.parameter_chars, c) {
                Some(model) => sequence matches Some(s) && s@ == model,
                None => sequence is None,
            },
    {
        let bracketed_paste: [char; 5] = ['?', '2', '0', '0', '4'];
        let autowrap: [char; 2] = ['?', '7'];
        let cursor_keys: [char; 2] = ['?', '1'];
        let cursor_shown: [char; 3] = ['?', '2', '5'];
        proof {
            assert(bracketed_paste@ == seq!['?', '2', '0', '0', '4']);
            assert(autowrap@ == seq!['?', '7']);
            assert(cursor_keys@ == seq!['?', '1']);
            assert(cursor_shown@ == seq!['?', '2', '5']);
        }
        if params_are(&self.parameter_chars, bracketed_paste.as_slice()) && c == 'h' {
            Some(EscapeSequence::PrivateEnableBracketedPasteMode)
        } else if params_are(&self.parameter_chars, bracketed_paste.as_slice()) && c == 'l' {
            Some(EscapeSequence::PrivateDisableBracketedPasteMode)
        } else if params_are(&self.parameter_chars, autowrap.as_slice()) && c == 'h' {
            Some(EscapeSequence::EnableAutoWrapMode)
        } else if params_are(&self.parameter_chars, autowrap.as_slice()) && c == 'l' {
            Some(EscapeSequence::DisableAutoWrapMode)
        } else if params_are(&self.parameter_chars, cursor_keys.as_slice()) && c == 'h' {
            Some(EscapeSequence::SwitchToApplicationCursorKeys)
        } else if params_are(&self.parameter_chars, cursor_keys.as_slice()) && c == 'l' {
            Some(EscapeSequence::SwitchToNormalCursorKeys)
        } else if params_are(&self.parameter_chars, cursor_shown.as_slice()) && c == 'h' {
            Some(EscapeSequence::ShowCursor)
        } else if params_are(&self.parameter_chars, cursor_shown.as_slice()) && c == 'l' {
            Some(EscapeSequence::HideCursor)
        } else {
            None
        }
    }

    fn parse_csi_set_mode(&self) -> (sequence: Option<EscapeSequence>)
        ensures
            match SetOrResetModeType::of_code(mode_number(self@.parameter_chars)) {
                Some(mode) => sequence matches Some(s) && s@ == SequenceModel::SetMode(mode),
                None => sequence is None,
            },
    {
        let mode_type: usize = self.parse_csi_set_or_reset_mode_parameter();
        match SetOrResetModeType::from_usize(mode_type) {
            Some(mode) => Some(EscapeSequence::SetMode(mode)),
            None => None,
        }
    }

    fn parse_csi_reset_mode(&self) -> (sequence: Option<EscapeSequence>)
        ensures
            match SetOrResetModeType::of_code(mode_number(self@.parameter_chars)) {
                Some(mode) => sequence matches Some(s) && s@ == SequenceModel::ResetMode(mode),
                None => sequence is None,
            },
    {
        let mode_type: usize = self.parse_csi_set_or_reset_mode_parameter();
        match SetOrResetModeType::from_usize(mode_type) {
            Some(mode) => Some(EscapeSequence::ResetMode(mode)),
            None => None,
        }
    }

    fn parse_csi_erase_in_line(&self) -> (sequence: Option<EscapeSequence>)
        ensures
            match EraseInLineType::of_code(erase_type_number(self@.parameter_chars)) {
                Some(erase) => sequence matches Some(s) && s@ == SequenceModel::EraseInLine(erase),
                None => sequence is None,
            },
    {
        let erase_type: usize = self.parse_csi_erase_type_number();
        match EraseInLineType::from_usize(erase_type) {
            Some(erase) => Some(EscapeSequence::EraseInLine(erase)),
            None => None,
        }
    }

    fn parse_csi_erase_in_display(&self) -> (sequence: Option<EscapeSequence>)
        ensures
            match EraseInDisplayType::of_code(erase_type_number(self@.parameter_chars)) {
                Some(erase) => sequence matches Some(s) && s@ == SequenceModel::EraseInDisplay(
                    erase,
                ),
                None => sequence is None,
            },
    {
        let erase_type: usize = self.parse_csi_erase_type_number();
        match EraseInDisplayType::from_usize(erase_type) {
            Some(erase) => Some(EscapeSequence::EraseInDisplay(erase)),
            None => None,
        }
    }

    fn parse_csi_erase_type_number(&self) -> (n: usize)
        ensures
            n == erase_type_number(self@.parameter_chars),
    {
        if self.parameter_chars.len() == 1 {
            let ghost params = self.parameter_chars@;
            proof {
                assert(params.subrange(0, 1) == params);
            }
            match parse_digits(&self.parameter_chars, 0, 1, usize::MAX) {
                Some(n) => n,
                None => 999,
            }
        } else {
            0
        }
    }

    fn parse_csi_set_or_reset_mode_parameter(&self) -> (n: usize)
        ensures
            n == mode_number(self@.parameter_chars),
    {
        let ghost params = self.parameter_chars@;
        proof {
            assert(params.subrange(0, params.len() as int) == params);
        }
        match parse_digits(&self.parameter_chars, 0, self.parameter_chars.len(), usize::MAX) {
            Some(n) => n,
            None => 20,
        }
    }

    fn parse_csi_select_graphic_rendition(&self) -> (sequence: Option<EscapeSequence>)
        ensures
            sequence matches Some(s) && s@ == SequenceModel::SelectGraphicRendition(
                sgr_codes(self@.parameter_chars),
            ),
    {
        let len: usize = self.parameter_chars.len();
        let mut codes: Vec<SGRCode> = Vec::new();
        if len == 0 {
            codes.push(SGRCode::ResetAllTextStyles);
            return Some(EscapeSequence::SelectGraphicRendition(codes));
        }
        let ghost params = self.parameter_chars@;
        let ghost mut done: Seq<Seq<char>> = Seq::empty();
        let mut start: usize = 0;
        loop
            invariant_except_break
                start <= len,
                split_params(params) == done + pieces_from(params, start as int),
                codes@ == codes_of_pieces(done),
            invariant
                len == self.parameter_chars.len(),
                params == self.parameter_chars@,
            ensures
                codes@ == codes_of_pieces(split_params(params)),
            decreases len - start,
        {
            let end: usize = find_piece_end(&self.parameter_chars, start);
            let ghost piece = params.subrange(start as int, end as int);
            let code: SGRCode = match parse_digits(&self.parameter_chars, start, end, usize::MAX) {
                Some(n) => match SGRCode::from_usize(n) {
                    Some(code) => code,
                    None => SGRCode::Noop,
                },
                None => SGRCode::Noop,
            };
            codes.push(code);
            proof {
                lemma_piece_end(params, start as int);
                assert(codes_of_pieces(done.push(piece)) == codes_of_pieces(done).push(
                    sgr_of_piece(piece),
                ));
                if end < len {
                    assert(done + pieces_from(params, start as int) == done.push(piece)
                        + pieces_from(params, end + 1));
                } else {
                    assert(done + pieces_from(params, start as int) == done.push(piece));
                }
                done = done.push(piece);
            }
            if end >= len {
                break ;
            }
            start = end + 1;
        }
        Some(EscapeSequence::SelectGraphicRendition(codes))
    }

    /// A parser that has seen nothing but `ESC`.
    pub fn new() -> (parser: EscapeSequenceParser)
        ensures
            parser@ == ParserModel::fresh(),
    {
        EscapeSequenceParser {
            sequence_type: SequenceType::Undetermined,
            parameter_chars: Vec::new(),
            intermediate_chars: Vec::new(),
        }
    }
}

} // verus!

verus! {

/// Inside a control sequence the parser stays inside it, whatever it reads.
pub proof fn lemma_csi_stays(parser: ParserModel, chars: Seq<char>)
    requires
        parser.sequence_type == SequenceType::CSI,
    ensures
        parser.after(chars).sequence_type == SequenceType::CSI,
    decreases chars.len(),
{
    if chars.len() > 0 {
        lemma_csi_stays(parser, chars.drop_last());
    }
}

/// Inside a control sequence the parser says `Yes` of a character if and only if
/// the character is a final byte.
pub proof fn lemma_csi_ends_on_final_byte(parser: ParserModel, c: char)
    requires
        parser.sequence_type == SequenceType::CSI,
    ensures
        parser.step(c).1 is Yes <==> is_csi_final(c),
{
}

/// A control sequence is complete exactly on its final byte: after `[`, the parser
/// says `No` of every character that is no final byte, however many there are,
/// and `Yes` of the first final byte.
pub proof fn lemma_csi_complete_on_final_byte(body: Seq<char>, last: char)
    requires
        forall|i: int| 0 <= i < body.len() ==> !is_csi_final(#[trigger] body[i]),
        is_csi_final(last),
    ensures
        ParserModel::fresh().step(CONTROL_SEQUENCE_INTRODUCER).1 is No,
        forall|k: int|
            0 <= k < body.len() ==> (#[trigger] ParserModel::fresh().step(
                CONTROL_SEQUENCE_INTRODUCER,
            ).0.after(body.take(k))).step(body[k]).1 is No,
        ParserModel::fresh().step(CONTROL_SEQUENCE_INTRODUCER).0.after(body).step(last).1 is Yes,
{
    let start = ParserModel::fresh().step(CONTROL_SEQUENCE_INTRODUCER).0;
    assert forall|k: int| 0 <= k < body.len() implies (#[trigger] start.after(body.take(k))).step(
        body[k],
    ).1 is No by {
        lemma_csi_stays(start, body.take(k));
        lemma_csi_ends_on_final_byte(start.after(body.take(k)), body[k]);
    }
    lemma_csi_stays(start, body);
    lemma_csi_ends_on_final_byte(start.after(body), last);
}

} // verus!
