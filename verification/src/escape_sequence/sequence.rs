use vstd::prelude::*;

verus! {

/// A complete escape sequence, as the parser hands it to the terminal model.
#[derive(Debug, PartialEq, Eq)]
pub enum EscapeSequence {
    /// Moves the cursor up by n lines (`ESC [ n A`).
    MoveCursorUp(isize),
    /// Moves the cursor down by n lines (`ESC [ n B`).
    MoveCursorDown(isize),
    /// Moves the cursor right by n columns (`ESC [ n C`).
    MoveCursorForward(isize),
    /// Moves the cursor left by n columns (`ESC [ n D`).
    MoveCursorBack(isize),
    /// Moves the cursor to the beginning of the line n lines down (`ESC [ n E`).
    MoveCursorToNextLine(isize),
    /// Moves the cursor to the beginning of the line n lines up (`ESC [ n F`).
    MoveCursorToPreviousLine(isize),
    /// Moves the cursor to column n (`ESC [ n G`).
    MoveCursorHorizontalAbsolute(isize),
    /// Moves the cursor to a row and a column, both counted from 1 (`ESC [ row ; col H`).
    SetCursorPosition(SetCursorPositionArgs),
    /// Changes the style in which the following characters are drawn (`ESC [ ... m`).
    /// The codes apply in order; a list without codes resets the style.
    SelectGraphicRendition(Vec<SGRCode>),
    /// Clears part of the line the cursor is on (`ESC [ n K`).
    EraseInLine(EraseInLineType),
    /// Clears part of the screen (`ESC [ n J`).
    EraseInDisplay(EraseInDisplayType),
    /// Removes n characters at the cursor (`ESC [ n P`).
    DeleteCharacters(isize),
    /// Prints the character printed last n more times (`ESC [ n b`).
    RepeatPreviousCharacter(isize),
    /// Sets a mode (`ESC [ n h`).
    SetMode(SetOrResetModeType),
    /// Resets a mode (`ESC [ n l`).
    ResetMode(SetOrResetModeType),
    /// Puts the whole model back to its first state (`ESC [ c`).
    FullReset,
    /// Moves the cursor up one line, scrolling back if it is on the top row (`ESC M`).
    MoveCursorUpScrollingIfNecessary,
    /// Picks the character set G0 (`ESC ( ...`).
    DesignateG0CharacterSet(CharacterSet),
    /// Pasted text is to be wrapped in `ESC [ 200 ~` and `ESC [ 201 ~` (`ESC [ ? 2004 h`).
    PrivateEnableBracketedPasteMode,
    /// Ends bracketed paste (`ESC [ ? 2004 l`).
    PrivateDisableBracketedPasteMode,
    /// A character printed after the last column goes to the next line (`ESC [ ? 7 h`).
    EnableAutoWrapMode,
    /// Ends automatic wrapping (`ESC [ ? 7 l`).
    DisableAutoWrapMode,
    /// Cursor keys send their application form (`ESC [ ? 1 h`).
    SwitchToApplicationCursorKeys,
    /// Cursor keys send their normal form (`ESC [ ? 1 l`).
    SwitchToNormalCursorKeys,
    /// The cursor is drawn (`ESC [ ? 25 h`).
    ShowCursor,
    /// The cursor is not drawn (`ESC [ ? 25 l`).
    HideCursor,
}

/// What an [`EscapeSequence`] is in contracts: the same cases, with the list of
/// rendition codes as a mathematical sequence.
pub enum SequenceModel {
    MoveCursorUp(isize),
    MoveCursorDown(isize),
    MoveCursorForward(isize),
    MoveCursorBack(isize),
    MoveCursorToNextLine(isize),
    MoveCursorToPreviousLine(isize),
    MoveCursorHorizontalAbsolute(isize),
    SetCursorPosition(SetCursorPositionArgs),
    SelectGraphicRendition(Seq<SGRCode>),
    EraseInLine(EraseInLineType),
    EraseInDisplay(EraseInDisplayType),
    DeleteCharacters(isize),
    RepeatPreviousCharacter(isize),
    SetMode(SetOrResetModeType),
    ResetMode(SetOrResetModeType),
    FullReset,
    MoveCursorUpScrollingIfNecessary,
    DesignateG0CharacterSet(CharacterSet),
    PrivateEnableBracketedPasteMode,
    PrivateDisableBracketedPasteMode,
    EnableAutoWrapMode,
    DisableAutoWrapMode,
    SwitchToApplicationCursorKeys,
    SwitchToNormalCursorKeys,
    ShowCursor,
    HideCursor,
}

impl View for EscapeSequence {
    type V = SequenceModel;

    open spec fn view(&self) -> SequenceModel {
        match *self {
            EscapeSequence::MoveCursorUp(n) => SequenceModel::MoveCursorUp(n),
            EscapeSequence::MoveCursorDown(n) => SequenceModel::MoveCursorDown(n),
            EscapeSequence::MoveCursorForward(n) => SequenceModel::MoveCursorForward(n),
            EscapeSequence::MoveCursorBack(n) => SequenceModel::MoveCursorBack(n),
            EscapeSequence::MoveCursorToNextLine(n) => SequenceModel::MoveCursorToNextLine(n),
            EscapeSequence::MoveCursorToPreviousLine(n) => SequenceModel::MoveCursorToPreviousLine(n),
            EscapeSequence::MoveCursorHorizontalAbsolute(n) => SequenceModel::MoveCursorHorizontalAbsolute(n),
            EscapeSequence::SetCursorPosition(p) => SequenceModel::SetCursorPosition(p),
            EscapeSequence::SelectGraphicRendition(codes) => SequenceModel::SelectGraphicRendition(codes@),
            EscapeSequence::EraseInLine(e) => SequenceModel::EraseInLine(e),
            EscapeSequence::EraseInDisplay(e) => SequenceModel::EraseInDisplay(e),
            EscapeSequence::DeleteCharacters(n) => SequenceModel::DeleteCharacters(n),
            EscapeSequence::RepeatPreviousCharacter(n) => SequenceModel::RepeatPreviousCharacter(n),
            EscapeSequence::SetMode(m) => SequenceModel::SetMode(m),
            EscapeSequence::ResetMode(m) => SequenceModel::ResetMode(m),
            EscapeSequence::FullReset => SequenceModel::FullReset,
            EscapeSequence::MoveCursorUpScrollingIfNecessary => SequenceModel::MoveCursorUpScrollingIfNecessary,
            EscapeSequence::DesignateG0CharacterSet(cs) => SequenceModel::DesignateG0CharacterSet(cs),
            EscapeSequence::PrivateEnableBracketedPasteMode => SequenceModel::PrivateEnableBracketedPasteMode,
            EscapeSequence::PrivateDisableBracketedPasteMode => SequenceModel::PrivateDisableBracketedPasteMode,
            EscapeSequence::EnableAutoWrapMode => SequenceModel::EnableAutoWrapMode,
            EscapeSequence::DisableAutoWrapMode => SequenceModel::DisableAutoWrapMode,
            EscapeSequence::SwitchToApplicationCursorKeys => SequenceModel::SwitchToApplicationCursorKeys,
            EscapeSequence::SwitchToNormalCursorKeys => SequenceModel::SwitchToNormalCursorKeys,
            EscapeSequence::ShowCursor => SequenceModel::ShowCursor,
            EscapeSequence::HideCursor => SequenceModel::HideCursor,
        }
    }
}

/// The arguments of `SetCursorPosition`: a column `x` and a row `y`, both counted from 1.
#[derive(Clone, Copy, Debug, PartialEq, Eq, Structural)]
pub struct SetCursorPositionArgs {
    pub x: usize,
    pub y: usize,
}

/// The character sets that G0 can be given. Only one is known; every designation
/// is taken for it.
#[derive(Clone, Copy, Debug, PartialEq, Eq, Structural)]
pub enum CharacterSet {
    UnitedStatesASCII,
}

/// How much of the screen `EraseInDisplay` clears. The cursor stays where it is.
#[derive(Clone, Copy, Debug, PartialEq, Eq, Structural)]
pub enum EraseInDisplayType {
    ToEndOfScreen,
    ToStartOfScreen,
    EntireScreen,
    EntireScreenAndScrollbackBuffer,
}

impl EraseInDisplayType {
    /// The number that stands for this variant on the wire.
    pub open spec fn code(self) -> int {
        match self {
            EraseInDisplayType::ToEndOfScreen => 0,
            EraseInDisplayType::ToStartOfScreen => 1,
            EraseInDisplayType::EntireScreen => 2,
            EraseInDisplayType::EntireScreenAndScrollbackBuffer => 3,
        }
    }

    /// The variant whose number is `n`, if there is one.
    pub open spec fn of_code(n: int) -> Option<EraseInDisplayType> {
        if n == 0 {
            Some(EraseInDisplayType::ToEndOfScreen)
        } else if n == 1 {
            Some(EraseInDisplayType::ToStartOfScreen)
        } else if n == 2 {
            Some(EraseInDisplayType::EntireScreen)
        } else if n == 3 {
            Some(EraseInDisplayType::EntireScreenAndScrollbackBuffer)
        } else {
            None
        }
    }

    /// The variant whose number is `n`, if there is one.
    pub fn from_usize(n: usize) -> (r: Option<EraseInDisplayType>)
        ensures
            r == EraseInDisplayType::of_code(n as int),
    {
        match n {
            0 => Some(EraseInDisplayType::ToEndOfScreen),
            1 => Some(EraseInDisplayType::ToStartOfScreen),
            2 => Some(EraseInDisplayType::EntireScreen),
            3 => Some(EraseInDisplayType::EntireScreenAndScrollbackBuffer),
            _ => None,
        }
    }

    /// The number of this variant, as an executable value.
    pub fn to_usize(&self) -> (n: usize)
        ensures
            n == self.code(),
    {
        match self {
            EraseInDisplayType::ToEndOfScreen => 0,
            EraseInDisplayType::ToStartOfScreen => 1,
            EraseInDisplayType::EntireScreen => 2,
            EraseInDisplayType::EntireScreenAndScrollbackBuffer => 3,
        }
    }

    /// A variant is the one found under its own number, and under no other.
    pub proof fn lemma_code_round_trip(self, n: int)
        ensures
            EraseInDisplayType::of_code(self.code()) == Some(self),
            EraseInDisplayType::of_code(n) == Some(self) <==> n == self.code(),
    {
    }
}

/// How much of the cursor's line `EraseInLine` clears. The cursor stays where it is.
#[derive(Clone, Copy, Debug, PartialEq, Eq, Structural)]
pub enum EraseInLineType {
    ToEndOfLine,
    ToStartOfLine,
    EntireLine,
}

impl EraseInLineType {
    /// The number that stands for this variant on the wire.
    pub open spec fn code(self) -> int {
        match self {
            EraseInLineType::ToEndOfLine => 0,
            EraseInLineType::ToStartOfLine => 1,
            EraseInLineType::EntireLine => 2,
        }
    }

    /// The variant whose number is `n`, if there is one.
    pub open spec fn of_code(n: int) -> Option<EraseInLineType> {
        if n == 0 {
            Some(EraseInLineType::ToEndOfLine)
        } else if n == 1 {
            Some(EraseInLineType::ToStartOfLine)
        } else if n == 2 {
            Some(EraseInLineType::EntireLine)
        } else {
            None
        }
    }

    /// The variant whose number is `n`, if there is one.
    pub fn from_usize(n: usize) -> (r: Option<EraseInLineType>)
        ensures
            r == EraseInLineType::of_code(n as int),
    {
        match n {
            0 => Some(EraseInLineType::ToEndOfLine),
            1 => Some(EraseInLineType::ToStartOfLine),
            2 => Some(EraseInLineType::EntireLine),
            _ => None,
        }
    }

    /// The number of this variant, as an executable value.
    pub fn to_usize(&self) -> (n: usize)
        ensures
            n == self.code(),
    {
        match self {
            EraseInLineType::ToEndOfLine => 0,
            EraseInLineType::ToStartOfLine => 1,
            EraseInLineType::EntireLine => 2,
        }
    }

    /// A variant is the one found under its own number, and under no other.
    pub proof fn lemma_code_round_trip(self, n: int)
        ensures
            EraseInLineType::of_code(self.code()) == Some(self),
            EraseInLineType::of_code(n) == Some(self) <==> n == self.code(),
    {
    }
}

/// The modes that `SetMode` and `ResetMode` know.
#[derive(Clone, Copy, Debug, PartialEq, Eq, Structural)]
pub enum SetOrResetModeType {
    /// Characters are inserted at the cursor and push the rest of the line right.
    InsertionReplacement,
    /// Characters replace what is under the cursor.
    AutomaticNewline,
}

impl SetOrResetModeType {
    /// The number that stands for this variant on the wire.
    pub open spec fn code(self) -> int {
        match self {
            SetOrResetModeType::InsertionReplacement => 4,
            SetOrResetModeType::AutomaticNewline => 20,
        }
    }

    /// The variant whose number is `n`, if there is one.
    pub open spec fn of_code(n: int) -> Option<SetOrResetModeType> {
        if n == 4 {
            Some(SetOrResetModeType::InsertionReplacement)
        } else if n == 20 {
            Some(SetOrResetModeType::AutomaticNewline)
        } else {
            None
        }
    }

    /// The variant whose number is `n`, if there is one.
    pub fn from_usize(n: usize) -> (r: Option<SetOrResetModeType>)
        ensures
            r == SetOrResetModeType::of_code(n as int),
    {
        match n {
            4 => Some(SetOrResetModeType::InsertionReplacement),
            20 => Some(SetOrResetModeType::AutomaticNewline),
            _ => None,
        }
    }

    /// The number of this variant, as an executable value.
    pub fn to_usize(&self) -> (n: usize)
        ensures
            n == self.code(),
    {
        match self {
            SetOrResetModeType::InsertionReplacement => 4,
            SetOrResetModeType::AutomaticNewline => 20,
        }
    }

    /// A variant is the one found under its own number, and under no other.
    pub proof fn lemma_code_round_trip(self, n: int)
        ensures
            SetOrResetModeType::of_code(self.code()) == Some(self),
            SetOrResetModeType::of_code(n) == Some(self) <==> n == self.code(),
    {
    }
}

/// The sixteen colours of the palette, and the terminal's default colour.
#[derive(Clone, Copy, Debug, PartialEq, Eq, Structural)]
pub enum TerminalColour {
    Black,
    Red,
    Green,
    Yellow,
    Blue,
    Magenta,
    Cyan,
    White,
    Default,
    BrightBlack,
    BrightRed,
    BrightGreen,
    BrightYellow,
    BrightBlue,
    BrightMagenta,
    BrightCyan,
    BrightWhite,
}

impl TerminalColour {
    /// The number that stands for this variant on the wire.
    pub open spec fn code(self) -> int {
        match self {
            TerminalColour::Black => 0,
            TerminalColour::Red => 1,
            TerminalColour::Green => 2,
            TerminalColour::Yellow => 3,
            TerminalColour::Blue => 4,
            TerminalColour::Magenta => 5,
            TerminalColour::Cyan => 6,
            TerminalColour::White => 7,
            TerminalColour::Default => 9,
            TerminalColour::BrightBlack => 10,
            TerminalColour::BrightRed => 11,
            TerminalColour::BrightGreen => 12,
            TerminalColour::BrightYellow => 13,
            TerminalColour::BrightBlue => 14,
            TerminalColour::BrightMagenta => 15,
            TerminalColour::BrightCyan => 16,
            TerminalColour::BrightWhite => 17,
        }
    }

    /// The variant whose number is `n`, if there is one.
    pub open spec fn of_code(n: int) -> Option<TerminalColour> {
        if n == 0 {
            Some(TerminalColour::Black)
        } else if n == 1 {
            Some(TerminalColour::Red)
        } else if n == 2 {
            Some(TerminalColour::Green)
        } else if n == 3 {
            Some(TerminalColour::Yellow)
        } else if n == 4 {
            Some(TerminalColour::Blue)
        } else if n == 5 {
            Some(TerminalColour::Magenta)
        } else if n == 6 {
            Some(TerminalColour::Cyan)
        } else if n == 7 {
            Some(TerminalColour::White)
        } else if n == 9 {
            Some(TerminalColour::Default)
        } else if n == 10 {
            Some(TerminalColour::BrightBlack)
        } else if n == 11 {
            Some(TerminalColour::BrightRed)
        } else if n == 12 {
            Some(TerminalColour::BrightGreen)
        } else if n == 13 {
            Some(TerminalColour::BrightYellow)
        } else if n == 14 {
            Some(TerminalColour::BrightBlue)
        } else if n == 15 {
            Some(TerminalColour::BrightMagenta)
        } else if n == 16 {
            Some(TerminalColour::BrightCyan)
        } else if n == 17 {
            Some(TerminalColour::BrightWhite)
        } else {
            None
        }
    }

    /// The variant whose number is `n`, if there is one.
    pub fn from_usize(n: usize) -> (r: Option<TerminalColour>)
        ensures
            r == TerminalColour::of_code(n as int),
    {
        match n {
            0 => Some(TerminalColour::Black),
            1 => Some(TerminalColour::Red),
            2 => Some(TerminalColour::Green),
            3 => Some(TerminalColour::Yellow),
            4 => Some(TerminalColour::Blue),
            5 => Some(TerminalColour::Magenta),
            6 => Some(TerminalColour::Cyan),
            7 => Some(TerminalColour::White),
            9 => Some(TerminalColour::Default),
            10 => Some(TerminalColour::BrightBlack),
            11 => Some(TerminalColour::BrightRed),
            12 => Some(TerminalColour::BrightGreen),
            13 => Some(TerminalColour::BrightYellow),
            14 => Some(TerminalColour::BrightBlue),
            15 => Some(TerminalColour::BrightMagenta),
            16 => Some(TerminalColour::BrightCyan),
            17 => Some(TerminalColour::BrightWhite),
            _ => None,
        }
    }

    /// The number of this variant, as an executable value.
    pub fn to_usize(&self) -> (n: usize)
        ensures
            n == self.code(),
    {
        match self {
            TerminalColour::Black => 0,
            TerminalColour::Red => 1,
            TerminalColour::Green => 2,
            TerminalColour::Yellow => 3,
            TerminalColour::Blue => 4,
            TerminalColour::Magenta => 5,
            TerminalColour::Cyan => 6,
            TerminalColour::White => 7,
            TerminalColour::Default => 9,
            TerminalColour::BrightBlack => 10,
            TerminalColour::BrightRed => 11,
            TerminalColour::BrightGreen => 12,
            TerminalColour::BrightYellow => 13,
            TerminalColour::BrightBlue => 14,
            TerminalColour::BrightMagenta => 15,
            TerminalColour::BrightCyan => 16,
            TerminalColour::BrightWhite => 17,
        }
    }

    /// A variant is the one found under its own number, and under no other.
    pub proof fn lemma_code_round_trip(self, n: int)
        ensures
            TerminalColour::of_code(self.code()) == Some(self),
            TerminalColour::of_code(n) == Some(self) <==> n == self.code(),
    {
    }
}

/// The rendition codes of `ESC [ ... m`. `Noop` stands for a parameter that is
/// no number or no known code.
#[derive(Clone, Copy, Debug, PartialEq, Eq, Structural)]
pub enum SGRCode {
    ResetAllTextStyles,
    EnableBoldText,
    EnableFaintText,
    EnableItalicText,
    EnableUnderlinedText,
    EnableRapidBlinkingText,
    EnableSlowBlinkingText,
    EnableReverseVideoMode,
    EnableInvisibleText,
    EnableStrikethroughText,
    SelectPrimaryFont,
    SelectAlternativeFont1,
    SelectAlternativeFont2,
    SelectAlternativeFont3,
    SelectAlternativeFont4,
    SelectAlternativeFont5,
    SelectAlternativeFont6,
    SelectAlternativeFont7,
    SelectAlternativeFont8,
    SelectAlternativeFont9,
    EnableFrakturText,
    EnableDoubleUnderlinedText,
    ResetTextWeight,
    ResetItalicText,
    ResetUnderlinedText,
    ResetBlinkingText,
    ResetReverseVideoMode,
    ResetInvisibleText,
    ResetStrikethroughText,
    SelectBlackForegroundColour,
    SelectRedForegroundColour,
    SelectGreenForegroundColour,
    SelectYellowForegroundColour,
    SelectBlueForegroundColour,
    SelectMagentaForegroundColour,
    SelectCyanForegroundColour,
    SelectWhiteForegroundColour,
    SelectAdvancedForegroundColour,
    SelectDefaultForegroundColour,
    SelectBlackBackgroundColour,
    SelectRedBackgroundColour,
    SelectGreenBackgroundColour,
    SelectYellowBackgroundColour,
    SelectBlueBackgroundColour,
    SelectMagentaBackgroundColour,
    SelectCyanBackgroundColour,
    SelectWhiteBackgroundColour,
    SelectAdvancedBackgroundColour,
    SelectDefaultBackgroundColour,
    ResetProportionalSpacing,
    EnableFramedText,
    EnableEncircledText,
    EnableOverlinedText,
    ResetFramedAndEncircledText,
    ResetOverlinedText,
    SelectAdvancedUnderlineColour,
    ResetAdvancedUnderlineColour,
    SelectBrightBlackForegroundColour,
    SelectBrightRedForegroundColour,
    SelectBrightGreenForegroundColour,
    SelectBrightYellowForegroundColour,
    SelectBrightBlueForegroundColour,
    SelectBrightMagentaForegroundColour,
    SelectBrightCyanForegroundColour,
    SelectBrightWhiteForegroundColour,
    SelectBrightBlackBackgroundColour,
    SelectBrightRedBackgroundColour,
    SelectBrightGreenBackgroundColour,
    SelectBrightYellowBackgroundColour,
    SelectBrightBlueBackgroundColour,
    SelectBrightMagentaBackgroundColour,
    SelectBrightCyanBackgroundColour,
    SelectBrightWhiteBackgroundColour,
    Noop,
}

impl SGRCode {
    /// The number that stands for this variant on the wire.
    pub open spec fn code(self) -> int {
        match self {
            SGRCode::ResetAllTextStyles => 0,
            SGRCode::EnableBoldText => 1,
            SGRCode::EnableFaintText => 2,
            SGRCode::EnableItalicText => 3,
            SGRCode::EnableUnderlinedText => 4,
            SGRCode::EnableRapidBlinkingText => 5,
            SGRCode::EnableSlowBlinkingText => 6,
            SGRCode::EnableReverseVideoMode => 7,
            SGRCode::EnableInvisibleText => 8,
            SGRCode::EnableStrikethroughText => 9,
            SGRCode::SelectPrimaryFont => 10,
            SGRCode::SelectAlternativeFont1 => 11,
            SGRCode::SelectAlternativeFont2 => 12,
            SGRCode::SelectAlternativeFont3 => 13,
            SGRCode::SelectAlternativeFont4 => 14,
            SGRCode::SelectAlternativeFont5 => 15,
            SGRCode::SelectAlternativeFont6 => 16,
            SGRCode::SelectAlternativeFont7 => 17,
            SGRCode::SelectAlternativeFont8 => 18,
            SGRCode::SelectAlternativeFont9 => 19,
            SGRCode::EnableFrakturText => 20,
            SGRCode::EnableDoubleUnderlinedText => 21,
            SGRCode::ResetTextWeight => 22,
            SGRCode::ResetItalicText => 23,
            SGRCode::ResetUnderlinedText => 24,
            SGRCode::ResetBlinkingText => 25,
            SGRCode::ResetReverseVideoMode => 27,
            SGRCode::ResetInvisibleText => 28,
            SGRCode::ResetStrikethroughText => 29,
            SGRCode::SelectBlackForegroundColour => 30,
            SGRCode::SelectRedForegroundColour => 31,
            SGRCode::SelectGreenForegroundColour => 32,
            SGRCode::SelectYellowForegroundColour => 33,
            SGRCode::SelectBlueForegroundColour => 34,
            SGRCode::SelectMagentaForegroundColour => 35,
            SGRCode::SelectCyanForegroundColour => 36,
            SGRCode::SelectWhiteForegroundColour => 37,
            SGRCode::SelectAdvancedForegroundColour => 38,
            SGRCode::SelectDefaultForegroundColour => 39,
            SGRCode::SelectBlackBackgroundColour => 40,
            SGRCode::SelectRedBackgroundColour => 41,
            SGRCode::SelectGreenBackgroundColour => 42,
            SGRCode::SelectYellowBackgroundColour => 43,
            SGRCode::SelectBlueBackgroundColour => 44,
            SGRCode::SelectMagentaBackgroundColour => 45,
            SGRCode::SelectCyanBackgroundColour => 46,
            SGRCode::SelectWhiteBackgroundColour => 47,
            SGRCode::SelectAdvancedBackgroundColour => 48,
            SGRCode::SelectDefaultBackgroundColour => 49,
            SGRCode::ResetProportionalSpacing => 50,
            SGRCode::EnableFramedText => 51,
            SGRCode::EnableEncircledText => 52,
            SGRCode::EnableOverlinedText => 53,
            SGRCode::ResetFramedAndEncircledText => 54,
            SGRCode::ResetOverlinedText => 55,
            SGRCode::SelectAdvancedUnderlineColour => 58,
            SGRCode::ResetAdvancedUnderlineColour => 59,
            SGRCode::SelectBrightBlackForegroundColour => 90,
            SGRCode::SelectBrightRedForegroundColour => 91,
            SGRCode::SelectBrightGreenForegroundColour => 92,
            SGRCode::SelectBrightYellowForegroundColour => 93,
            SGRCode::SelectBrightBlueForegroundColour => 94,
            SGRCode::SelectBrightMagentaForegroundColour => 95,
            SGRCode::SelectBrightCyanForegroundColour => 96,
            SGRCode::SelectBrightWhiteForegroundColour => 97,
            SGRCode::SelectBrightBlackBackgroundColour => 100,
            SGRCode::SelectBrightRedBackgroundColour => 101,
            SGRCode::SelectBrightGreenBackgroundColour => 102,
            SGRCode::SelectBrightYellowBackgroundColour => 103,
            SGRCode::SelectBrightBlueBackgroundColour => 104,
            SGRCode::SelectBrightMagentaBackgroundColour => 105,
            SGRCode::SelectBrightCyanBackgroundColour => 106,
            SGRCode::SelectBrightWhiteBackgroundColour => 107,
            SGRCode::Noop => 9999,
        }
    }

    /// The variant whose number is `n`, if there is one.
    pub open spec fn of_code(n: int) -> Option<SGRCode> {
        if n == 0 {
            Some(SGRCode::ResetAllTextStyles)
        } else if n == 1 {
            Some(SGRCode::EnableBoldText)
        } else if n == 2 {
            Some(SGRCode::EnableFaintText)
        } else if n == 3 {
            Some(SGRCode::EnableItalicText)
        } else if n == 4 {
            Some(SGRCode::EnableUnderlinedText)
        } else if n == 5 {
            Some(SGRCode::EnableRapidBlinkingText)
        } else if n == 6 {
            Some(SGRCode::EnableSlowBlinkingText)
        } else if n == 7 {
            Some(SGRCode::EnableReverseVideoMode)
        } else if n == 8 {
            Some(SGRCode::EnableInvisibleText)
        } else if n == 9 {
            Some(SGRCode::EnableStrikethroughText)
        } else if n == 10 {
            Some(SGRCode::SelectPrimaryFont)
        } else if n == 11 {
            Some(SGRCode::SelectAlternativeFont1)
        } else if n == 12 {
            Some(SGRCode::SelectAlternativeFont2)
        } else if n == 13 {
            Some(SGRCode::SelectAlternativeFont3)
        } else if n == 14 {
            Some(SGRCode::SelectAlternativeFont4)
        } else if n == 15 {
            Some(SGRCode::SelectAlternativeFont5)
        } else if n == 16 {
            Some(SGRCode::SelectAlternativeFont6)
        } else if n == 17 {
            Some(SGRCode::SelectAlternativeFont7)
        } else if n == 18 {
            Some(SGRCode::SelectAlternativeFont8)
        } else if n == 19 {
            Some(SGRCode::SelectAlternativeFont9)
        } else if n == 20 {
            Some(SGRCode::EnableFrakturText)
        } else if n == 21 {
            Some(SGRCode::EnableDoubleUnderlinedText)
        } else if n == 22 {
            Some(SGRCode::ResetTextWeight)
        } else if n == 23 {
            Some(SGRCode::ResetItalicText)
        } else if n == 24 {
            Some(SGRCode::ResetUnderlinedText)
        } else if n == 25 {
            Some(SGRCode::ResetBlinkingText)
        } else if n == 27 {
            Some(SGRCode::ResetReverseVideoMode)
        } else if n == 28 {
            Some(SGRCode::ResetInvisibleText)
        } else if n == 29 {
            Some(SGRCode::ResetStrikethroughText)
        } else if n == 30 {
            Some(SGRCode::SelectBlackForegroundColour)
        } else if n == 31 {
            Some(SGRCode::SelectRedForegroundColour)
        } else if n == 32 {
            Some(SGRCode::SelectGreenForegroundColour)
        } else if n == 33 {
            Some(SGRCode::SelectYellowForegroundColour)
        } else if n == 34 {
            Some(SGRCode::SelectBlueForegroundColour)
        } else if n == 35 {
            Some(SGRCode::SelectMagentaForegroundColour)
        } else if n == 36 {
            Some(SGRCode::SelectCyanForegroundColour)
        } else if n == 37 {
            Some(SGRCode::SelectWhiteForegroundColour)
        } else if n == 38 {
            Some(SGRCode::SelectAdvancedForegroundColour)
        } else if n == 39 {
            Some(SGRCode::SelectDefaultForegroundColour)
        } else if n == 40 {
            Some(SGRCode::SelectBlackBackgroundColour)
        } else if n == 41 {
            Some(SGRCode::SelectRedBackgroundColour)
        } else if n == 42 {
            Some(SGRCode::SelectGreenBackgroundColour)
        } else if n == 43 {
            Some(SGRCode::SelectYellowBackgroundColour)
        } else if n == 44 {
            Some(SGRCode::SelectBlueBackgroundColour)
        } else if n == 45 {
            Some(SGRCode::SelectMagentaBackgroundColour)
        } else if n == 46 {
            Some(SGRCode::SelectCyanBackgroundColour)
        } else if n == 47 {
            Some(SGRCode::SelectWhiteBackgroundColour)
        } else if n == 48 {
            Some(SGRCode::SelectAdvancedBackgroundColour)
        } else if n == 49 {
            Some(SGRCode::SelectDefaultBackgroundColour)
        } else if n == 50 {
            Some(SGRCode::ResetProportionalSpacing)
        } else if n == 51 {
            Some(SGRCode::EnableFramedText)
        } else if n == 52 {
            Some(SGRCode::EnableEncircledText)
        } else if n == 53 {
            Some(SGRCode::EnableOverlinedText)
        } else if n == 54 {
            Some(SGRCode::ResetFramedAndEncircledText)
        } else if n == 55 {
            Some(SGRCode::ResetOverlinedText)
        } else if n == 58 {
            Some(SGRCode::SelectAdvancedUnderlineColour)
        } else if n == 59 {
            Some(SGRCode::ResetAdvancedUnderlineColour)
        } else if n == 90 {
            Some(SGRCode::SelectBrightBlackForegroundColour)
        } else if n == 91 {
            Some(SGRCode::SelectBrightRedForegroundColour)
        } else if n == 92 {
            Some(SGRCode::SelectBrightGreenForegroundColour)
        } else if n == 93 {
            Some(SGRCode::SelectBrightYellowForegroundColour)
        } else if n == 94 {
            Some(SGRCode::SelectBrightBlueForegroundColour)
        } else if n == 95 {
            Some(SGRCode::SelectBrightMagentaForegroundColour)
        } else if n == 96 {
            Some(SGRCode::SelectBrightCyanForegroundColour)
        } else if n == 97 {
            Some(SGRCode::SelectBrightWhiteForegroundColour)
        } else if n == 100 {
            Some(SGRCode::SelectBrightBlackBackgroundColour)
        } else if n == 101 {
            Some(SGRCode::SelectBrightRedBackgroundColour)
        } else if n == 102 {
            Some(SGRCode::SelectBrightGreenBackgroundColour)
        } else if n == 103 {
            Some(SGRCode::SelectBrightYellowBackgroundColour)
        } else if n == 104 {
            Some(SGRCode::SelectBrightBlueBackgroundColour)
        } else if n == 105 {
            Some(SGRCode::SelectBrightMagentaBackgroundColour)
        } else if n == 106 {
            Some(SGRCode::SelectBrightCyanBackgroundColour)
        } else if n == 107 {
            Some(SGRCode::SelectBrightWhiteBackgroundColour)
        } else if n == 9999 {
            Some(SGRCode::Noop)
        } else {
            None
        }
    }

    /// The variant whose number is `n`, if there is one.
    pub fn from_usize(n: usize) -> (r: Option<SGRCode>)
        ensures
            r == SGRCode::of_code(n as int),
    {
        match n {
            0 => Some(SGRCode::ResetAllTextStyles),
            1 => Some(SGRCode::EnableBoldText),
            2 => Some(SGRCode::EnableFaintText),
            3 => Some(SGRCode::EnableItalicText),
            4 => Some(SGRCode::EnableUnderlinedText),
            5 => Some(SGRCode::EnableRapidBlinkingText),
            6 => Some(SGRCode::EnableSlowBlinkingText),
            7 => Some(SGRCode::EnableReverseVideoMode),
            8 => Some(SGRCode::EnableInvisibleText),
            9 => Some(SGRCode::EnableStrikethroughText),
            10 => Some(SGRCode::SelectPrimaryFont),
            11 => Some(SGRCode::SelectAlternativeFont1),
            12 => Some(SGRCode::SelectAlternativeFont2),
            13 => Some(SGRCode::SelectAlternativeFont3),
            14 => Some(SGRCode::SelectAlternativeFont4),
            15 => Some(SGRCode::SelectAlternativeFont5),
            16 => Some(SGRCode::SelectAlternativeFont6),
            17 => Some(SGRCode::SelectAlternativeFont7),
            18 => Some(SGRCode::SelectAlternativeFont8),
            19 => Some(SGRCode::SelectAlternativeFont9),
            20 => Some(SGRCode::EnableFrakturText),
            21 => Some(SGRCode::EnableDoubleUnderlinedText),
            22 => Some(SGRCode::ResetTextWeight),
            23 => Some(SGRCode::ResetItalicText),
            24 => Some(SGRCode::ResetUnderlinedText),
            25 => Some(SGRCode::ResetBlinkingText),
            27 => Some(SGRCode::ResetReverseVideoMode),
            28 => Some(SGRCode::ResetInvisibleText),
            29 => Some(SGRCode::ResetStrikethroughText),
            30 => Some(SGRCode::SelectBlackForegroundColour),
            31 => Some(SGRCode::SelectRedForegroundColour),
            32 => Some(SGRCode::SelectGreenForegroundColour),
            33 => Some(SGRCode::SelectYellowForegroundColour),
            34 => Some(SGRCode::SelectBlueForegroundColour),
            35 => Some(SGRCode::SelectMagentaForegroundColour),
            36 => Some(SGRCode::SelectCyanForegroundColour),
            37 => Some(SGRCode::SelectWhiteForegroundColour),
            38 => Some(SGRCode::SelectAdvancedForegroundColour),
            39 => Some(SGRCode::SelectDefaultForegroundColour),
            40 => Some(SGRCode::SelectBlackBackgroundColour),
            41 => Some(SGRCode::SelectRedBackgroundColour),
            42 => Some(SGRCode::SelectGreenBackgroundColour),
            43 => Some(SGRCode::SelectYellowBackgroundColour),
            44 => Some(SGRCode::SelectBlueBackgroundColour),
            45 => Some(SGRCode::SelectMagentaBackgroundColour),
            46 => Some(SGRCode::SelectCyanBackgroundColour),
            47 => Some(SGRCode::SelectWhiteBackgroundColour),
            48 => Some(SGRCode::SelectAdvancedBackgroundColour),
            49 => Some(SGRCode::SelectDefaultBackgroundColour),
            50 => Some(SGRCode::ResetProportionalSpacing),
            51 => Some(SGRCode::EnableFramedText),
            52 => Some(SGRCode::EnableEncircledText),
            53 => Some(SGRCode::EnableOverlinedText),
            54 => Some(SGRCode::ResetFramedAndEncircledText),
            55 => Some(SGRCode::ResetOverlinedText),
            58 => Some(SGRCode::SelectAdvancedUnderlineColour),
            59 => Some(SGRCode::ResetAdvancedUnderlineColour),
            90 => Some(SGRCode::SelectBrightBlackForegroundColour),
            91 => Some(SGRCode::SelectBrightRedForegroundColour),
            92 => Some(SGRCode::SelectBrightGreenForegroundColour),
            93 => Some(SGRCode::SelectBrightYellowForegroundColour),
            94 => Some(SGRCode::SelectBrightBlueForegroundColour),
            95 => Some(SGRCode::SelectBrightMagentaForegroundColour),
            96 => Some(SGRCode::SelectBrightCyanForegroundColour),
            97 => Some(SGRCode::SelectBrightWhiteForegroundColour),
            100 => Some(SGRCode::SelectBrightBlackBackgroundColour),
            101 => Some(SGRCode::SelectBrightRedBackgroundColour),
            102 => Some(SGRCode::SelectBrightGreenBackgroundColour),
            103 => Some(SGRCode::SelectBrightYellowBackgroundColour),
            104 => Some(SGRCode::SelectBrightBlueBackgroundColour),
            105 => Some(SGRCode::SelectBrightMagentaBackgroundColour),
            106 => Some(SGRCode::SelectBrightCyanBackgroundColour),
            107 => Some(SGRCode::SelectBrightWhiteBackgroundColour),
            9999 => Some(SGRCode::Noop),
            _ => None,
        }
    }

    /// The number of this variant, as an executable value.
    pub fn to_usize(&self) -> (n: usize)
        ensures
            n == self.code(),
    {
        match self {
            SGRCode::ResetAllTextStyles => 0,
            SGRCode::EnableBoldText => 1,
            SGRCode::EnableFaintText => 2,
            SGRCode::EnableItalicText => 3,
            SGRCode::EnableUnderlinedText => 4,
            SGRCode::EnableRapidBlinkingText => 5,
            SGRCode::EnableSlowBlinkingText => 6,
            SGRCode::EnableReverseVideoMode => 7,
            SGRCode::EnableInvisibleText => 8,
            SGRCode::EnableStrikethroughText => 9,
            SGRCode::SelectPrimaryFont => 10,
            SGRCode::SelectAlternativeFont1 => 11,
            SGRCode::SelectAlternativeFont2 => 12,
            SGRCode::SelectAlternativeFont3 => 13,
            SGRCode::SelectAlternativeFont4 => 14,
            SGRCode::SelectAlternativeFont5 => 15,
            SGRCode::SelectAlternativeFont6 => 16,
            SGRCode::SelectAlternativeFont7 => 17,
            SGRCode::SelectAlternativeFont8 => 18,
            SGRCode::SelectAlternativeFont9 => 19,
            SGRCode::EnableFrakturText => 20,
            SGRCode::EnableDoubleUnderlinedText => 21,
            SGRCode::ResetTextWeight => 22,
            SGRCode::ResetItalicText => 23,
            SGRCode::ResetUnderlinedText => 24,
            SGRCode::ResetBlinkingText => 25,
            SGRCode::ResetReverseVideoMode => 27,
            SGRCode::ResetInvisibleText => 28,
            SGRCode::ResetStrikethroughText => 29,
            SGRCode::SelectBlackForegroundColour => 30,
            SGRCode::SelectRedForegroundColour => 31,
            SGRCode::SelectGreenForegroundColour => 32,
            SGRCode::SelectYellowForegroundColour => 33,
            SGRCode::SelectBlueForegroundColour => 34,
            SGRCode::SelectMagentaForegroundColour => 35,
            SGRCode::SelectCyanForegroundColour => 36,
            SGRCode::SelectWhiteForegroundColour => 37,
            SGRCode::SelectAdvancedForegroundColour => 38,
            SGRCode::SelectDefaultForegroundColour => 39,
            SGRCode::SelectBlackBackgroundColour => 40,
            SGRCode::SelectRedBackgroundColour => 41,
            SGRCode::SelectGreenBackgroundColour => 42,
            SGRCode::SelectYellowBackgroundColour => 43,
            SGRCode::SelectBlueBackgroundColour => 44,
            SGRCode::SelectMagentaBackgroundColour => 45,
            SGRCode::SelectCyanBackgroundColour => 46,
            SGRCode::SelectWhiteBackgroundColour => 47,
            SGRCode::SelectAdvancedBackgroundColour => 48,
            SGRCode::SelectDefaultBackgroundColour => 49,
            SGRCode::ResetProportionalSpacing => 50,
            SGRCode::EnableFramedText => 51,
            SGRCode::EnableEncircledText => 52,
            SGRCode::EnableOverlinedText => 53,
            SGRCode::ResetFramedAndEncircledText => 54,
            SGRCode::ResetOverlinedText => 55,
            SGRCode::SelectAdvancedUnderlineColour => 58,
            SGRCode::ResetAdvancedUnderlineColour => 59,
            SGRCode::SelectBrightBlackForegroundColour => 90,
            SGRCode::SelectBrightRedForegroundColour => 91,
            SGRCode::SelectBrightGreenForegroundColour => 92,
            SGRCode::SelectBrightYellowForegroundColour => 93,
            SGRCode::SelectBrightBlueForegroundColour => 94,
            SGRCode::SelectBrightMagentaForegroundColour => 95,
            SGRCode::SelectBrightCyanForegroundColour => 96,
            SGRCode::SelectBrightWhiteForegroundColour => 97,
            SGRCode::SelectBrightBlackBackgroundColour => 100,
            SGRCode::SelectBrightRedBackgroundColour => 101,
            SGRCode::SelectBrightGreenBackgroundColour => 102,
            SGRCode::SelectBrightYellowBackgroundColour => 103,
            SGRCode::SelectBrightBlueBackgroundColour => 104,
            SGRCode::SelectBrightMagentaBackgroundColour => 105,
            SGRCode::SelectBrightCyanBackgroundColour => 106,
            SGRCode::SelectBrightWhiteBackgroundColour => 107,
            SGRCode::Noop => 9999,
        }
    }

    /// A variant is the one found under its own number, and under no other.
    pub proof fn lemma_code_round_trip(self, n: int)
        ensures
            SGRCode::of_code(self.code()) == Some(self),
            SGRCode::of_code(n) == Some(self) <==> n == self.code(),
    {
    }
}

} // verus!
