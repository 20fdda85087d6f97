use crate::escape_sequence::sequence::{EscapeSequence, SGRCode, SequenceModel, TerminalColour};
use vstd::prelude::*;

verus! {

/// Whether text blinks, and how fast.
#[derive(Clone, Copy, Debug, PartialEq, Eq, Structural)]
pub enum BlinkingMode {
    Off,
    Slow,
    Rapid,
}

/// The attributes with which a character is drawn.
#[derive(Clone, Copy, Debug, PartialEq, Eq, Structural)]
pub struct TextStyle {
    pub bold: bool,
    pub faint: bool,
    pub italic: bool,
    pub underlined: bool,
    pub blinking: BlinkingMode,
    pub reverse_video: bool,
    pub invisible: bool,
    pub strikethrough: bool,
    pub foreground: TerminalColour,
    pub background: TerminalColour,
}

/// Whether a rendition code lies in one of the ranges that set a colour:
/// 30 to 49, 90 to 97 and 100 to 107.
pub open spec fn is_basic_colour_setter(sgr: SGRCode) -> bool {
    30 <= sgr.code() <= 49 || 90 <= sgr.code() <= 97 || 100 <= sgr.code() <= 107
}

/// The foreground colour that a rendition code selects, if it selects one: the
/// plain colours for 30 to 37, the default for 39, the bright colours for 90 to 97.
pub open spec fn foreground_of(sgr: SGRCode) -> Option<TerminalColour> {
    match sgr {
        SGRCode::SelectBlackForegroundColour => Some(TerminalColour::Black),
        SGRCode::SelectRedForegroundColour => Some(TerminalColour::Red),
        SGRCode::SelectGreenForegroundColour => Some(TerminalColour::Green),
        SGRCode::SelectYellowForegroundColour => Some(TerminalColour::Yellow),
        SGRCode::SelectBlueForegroundColour => Some(TerminalColour::Blue),
        SGRCode::SelectMagentaForegroundColour => Some(TerminalColour::Magenta),
        SGRCode::SelectCyanForegroundColour => Some(TerminalColour::Cyan),
        SGRCode::SelectWhiteForegroundColour => Some(TerminalColour::White),
        SGRCode::SelectDefaultForegroundColour => Some(TerminalColour::Default),
        SGRCode::SelectBrightBlackForegroundColour => Some(TerminalColour::BrightBlack),
        SGRCode::SelectBrightRedForegroundColour => Some(TerminalColour::BrightRed),
        SGRCode::SelectBrightGreenForegroundColour => Some(TerminalColour::BrightGreen),
        SGRCode::SelectBrightYellowForegroundColour => Some(TerminalColour::BrightYellow),
        SGRCode::SelectBrightBlueForegroundColour => Some(TerminalColour::BrightBlue),
        SGRCode::SelectBrightMagentaForegroundColour => Some(TerminalColour::BrightMagenta),
        SGRCode::SelectBrightCyanForegroundColour => Some(TerminalColour::BrightCyan),
        SGRCode::SelectBrightWhiteForegroundColour => Some(TerminalColour::BrightWhite),
        _ => None,
    }
}

/// The background colour that a rendition code selects, if it selects one: the
/// plain colours for 40 to 47, the default for 49, the bright colours for 100 to 107.
pub open spec fn background_of(sgr: SGRCode) -> Option<TerminalColour> {
    match sgr {
        SGRCode::SelectBlackBackgroundColour => Some(TerminalColour::Black),
        SGRCode::SelectRedBackgroundColour => Some(TerminalColour::Red),
        SGRCode::SelectGreenBackgroundColour => Some(TerminalColour::Green),
        SGRCode::SelectYellowBackgroundColour => Some(TerminalColour::Yellow),
        SGRCode::SelectBlueBackgroundColour => Some(TerminalColour::Blue),
        SGRCode::SelectMagentaBackgroundColour => Some(TerminalColour::Magenta),
        SGRCode::SelectCyanBackgroundColour => Some(TerminalColour::Cyan),
        SGRCode::SelectWhiteBackgroundColour => Some(TerminalColour::White),
        SGRCode::SelectDefaultBackgroundColour => Some(TerminalColour::Default),
        SGRCode::SelectBrightBlackBackgroundColour => Some(TerminalColour::BrightBlack),
        SGRCode::SelectBrightRedBackgroundColour => Some(TerminalColour::BrightRed),
        SGRCode::SelectBrightGreenBackgroundColour => Some(TerminalColour::BrightGreen),
        SGRCode::SelectBrightYellowBackgroundColour => Some(TerminalColour::BrightYellow),
        SGRCode::SelectBrightBlueBackgroundColour => Some(TerminalColour::BrightBlue),
        SGRCode::SelectBrightMagentaBackgroundColour => Some(TerminalColour::BrightMagenta),
        SGRCode::SelectBrightCyanBackgroundColour => Some(TerminalColour::BrightCyan),
        SGRCode::SelectBrightWhiteBackgroundColour => Some(TerminalColour::BrightWhite),
        _ => None,
    }
}

impl TextStyle {
    /// The style of a fresh terminal: no attribute set, both colours the default.
    pub open spec fn initial() -> TextStyle {
        TextStyle {
            bold: false,
            faint: false,
            italic: false,
            underlined: false,
            blinking: BlinkingMode::Off,
            reverse_video: false,
            invisible: false,
            strikethrough: false,
            foreground: TerminalColour::Default,
            background: TerminalColour::Default,
        }
    }

    /// The style after a colour-setting code. The codes 38 and 48, which would
    /// introduce a longer palette, change nothing.
    pub open spec fn with_colour_setter(self, sgr: SGRCode) -> TextStyle {
        match foreground_of(sgr) {
            Some(colour) => TextStyle { foreground: colour, ..self },
            None => match background_of(sgr) {
                Some(colour) => TextStyle { background: colour, ..self },
                None => self,
            },
        }
    }

    /// The style after one rendition code: an attribute is switched on or off, a
    /// colour is selected, or, for every other code, nothing changes.
    pub open spec fn with_sgr_code(self, sgr: SGRCode) -> TextStyle {
        match sgr {
            SGRCode::ResetAllTextStyles => TextStyle::initial(),
            SGRCode::EnableBoldText => TextStyle { bold: true, ..self },
            SGRCode::EnableFaintText => TextStyle { faint: true, ..self },
            SGRCode::EnableItalicText => TextStyle { italic: true, ..self },
            SGRCode::EnableUnderlinedText => TextStyle { underlined: true, ..self },
            SGRCode::EnableRapidBlinkingText => TextStyle { blinking: BlinkingMode::Rapid, ..self },
            SGRCode::EnableSlowBlinkingText => TextStyle { blinking: BlinkingMode::Slow, ..self },
            SGRCode::EnableReverseVideoMode => TextStyle { reverse_video: true, ..self },
            SGRCode::EnableInvisibleText => TextStyle { invisible: true, ..self },
            SGRCode::EnableStrikethroughText => TextStyle { strikethrough: true, ..self },
            SGRCode::ResetTextWeight => TextStyle { bold: false, faint: false, ..self },
            SGRCode::ResetItalicText => TextStyle { italic: false, ..self },
            SGRCode::ResetUnderlinedText => TextStyle { underlined: false, ..self },
            SGRCode::ResetBlinkingText => TextStyle { blinking: BlinkingMode::Off, ..self },
            SGRCode::ResetReverseVideoMode => TextStyle { reverse_video: false, ..self },
            SGRCode::ResetInvisibleText => TextStyle { invisible: false, ..self },
            SGRCode::ResetStrikethroughText => TextStyle { strikethrough: false, ..self },
            _ => self.with_colour_setter(sgr),
        }
    }

    /// The style after a list of rendition codes, applied from first to last.
    pub open spec fn with_sgr_codes(self, codes: Seq<SGRCode>) -> TextStyle
        decreases codes.len(),
    {
        if codes.len() == 0 {
            self
        } else {
            self.with_sgr_codes(codes.drop_last()).with_sgr_code(codes.last())
        }
    }

    /// The style after the codes of one `SelectGraphicRendition`: the codes are
    /// applied from first to last, and a list without codes is a reset.
    pub open spec fn with_rendition(self, codes: Seq<SGRCode>) -> TextStyle {
        if codes.len() == 0 {
            TextStyle::initial()
        } else {
            self.with_sgr_codes(codes)
        }
    }

    /// The style after an escape sequence: only `SelectGraphicRendition` changes it.
    pub open spec fn with_sequence(self, sequence: SequenceModel) -> TextStyle {
        match sequence {
            SequenceModel::SelectGraphicRendition(codes) => self.with_rendition(codes),
            _ => self,
        }
    }

    fn apply_basic_colour_setter(&mut self, sgr: &SGRCode)
        ensures
            *final(self) == old(self).with_colour_setter(*sgr),
    {
        match sgr {
            SGRCode::SelectBlackForegroundColour => self.foreground = TerminalColour::Black,
            SGRCode::SelectRedForegroundColour => self.foreground = TerminalColour::Red,
            SGRCode::SelectGreenForegroundColour => self.foreground = TerminalColour::Green,
            SGRCode::SelectYellowForegroundColour => self.foreground = TerminalColour::Yellow,
            SGRCode::SelectBlueForegroundColour => self.foreground = TerminalColour::Blue,
            SGRCode::SelectMagentaForegroundColour => self.foreground = TerminalColour::Magenta,
            SGRCode::SelectCyanForegroundColour => self.foreground = TerminalColour::Cyan,
            SGRCode::SelectWhiteForegroundColour => self.foreground = TerminalColour::White,
            SGRCode::SelectDefaultForegroundColour => self.foreground = TerminalColour::Default,
            SGRCode::SelectBrightBlackForegroundColour => self.foreground = TerminalColour::BrightBlack,
            SGRCode::SelectBrightRedForegroundColour => self.foreground = TerminalColour::BrightRed,
            SGRCode::SelectBrightGreenForegroundColour => self.foreground = TerminalColour::BrightGreen,
            SGRCode::SelectBrightYellowForegroundColour => self.foreground = TerminalColour::BrightYellow,
            SGRCode::SelectBrightBlueForegroundColour => self.foreground = TerminalColour::BrightBlue,
            SGRCode::SelectBrightMagentaForegroundColour => self.foreground = TerminalColour::BrightMagenta,
            SGRCode::SelectBrightCyanForegroundColour => self.foreground = TerminalColour::BrightCyan,
            SGRCode::SelectBrightWhiteForegroundColour => self.foreground = TerminalColour::BrightWhite,
            SGRCode::SelectBlackBackgroundColour => self.background = TerminalColour::Black,
            SGRCode::SelectRedBackgroundColour => self.background = TerminalColour::Red,
            SGRCode::SelectGreenBackgroundColour => self.background = TerminalColour::Green,
            SGRCode::SelectYellowBackgroundColour => self.background = TerminalColour::Yellow,
            SGRCode::SelectBlueBackgroundColour => self.background = TerminalColour::Blue,
            SGRCode::SelectMagentaBackgroundColour => self.background = TerminalColour::Magenta,
            SGRCode::SelectCyanBackgroundColour => self.background = TerminalColour::Cyan,
            SGRCode::SelectWhiteBackgroundColour => self.background = TerminalColour::White,
            SGRCode::SelectDefaultBackgroundColour => self.background = TerminalColour::Default,
            SGRCode::SelectBrightBlackBackgroundColour => self.background = TerminalColour::BrightBlack,
            SGRCode::SelectBrightRedBackgroundColour => self.background = TerminalColour::BrightRed,
            SGRCode::SelectBrightGreenBackgroundColour => self.background = TerminalColour::BrightGreen,
            SGRCode::SelectBrightYellowBackgroundColour => self.background = TerminalColour::BrightYellow,
            SGRCode::SelectBrightBlueBackgroundColour => self.background = TerminalColour::BrightBlue,
            SGRCode::SelectBrightMagentaBackgroundColour => self.background = TerminalColour::BrightMagenta,
            SGRCode::SelectBrightCyanBackgroundColour => self.background = TerminalColour::BrightCyan,
            SGRCode::SelectBrightWhiteBackgroundColour => self.background = TerminalColour::BrightWhite,
            _ => {},
        }
    }

    /// Applies one rendition code to the style.
    pub fn apply_sgr_code(&mut self, sgr: &SGRCode)
        ensures
            *final(self) == old(self).with_sgr_code(*sgr),
    {
        proof {
            lemma_colour_setters(*sgr);
        }
        if sgr_code_is_a_basic_colour_setter(sgr) {
            self.apply_basic_colour_setter(sgr);
        } else {
            self.apply_attribute(sgr);
        }
    }

    fn apply_attribute(&mut self, sgr: &SGRCode)
        ensures
            *final(self) == (if selects_colour(*sgr) {
                *old(self)
            } else {
                old(self).with_sgr_code(*sgr)
            }),
    {
        match sgr {
            SGRCode::ResetAllTextStyles => {
                self.bold = false;
                self.faint = false;
                self.italic = false;
                self.underlined = false;
                self.blinking = BlinkingMode::Off;
                self.reverse_video = false;
                self.invisible = false;
                self.strikethrough = false;
                self.foreground = TerminalColour::Default;
                self.background = TerminalColour::Default;
            },
            SGRCode::EnableBoldText => self.bold = true,
            SGRCode::EnableFaintText => self.faint = true,
            SGRCode::EnableItalicText => self.italic = true,
            SGRCode::EnableUnderlinedText => self.underlined = true,
            SGRCode::EnableRapidBlinkingText => self.blinking = BlinkingMode::Rapid,
            SGRCode::EnableSlowBlinkingText => self.blinking = BlinkingMode::Slow,
            SGRCode::EnableReverseVideoMode => self.reverse_video = true,
            SGRCode::EnableInvisibleText => self.invisible = true,
            SGRCode::EnableStrikethroughText => self.strikethrough = true,
            SGRCode::ResetTextWeight => {
                self.bold = false;
                self.faint = false;
            },
            SGRCode::ResetItalicText => self.italic = false,
            SGRCode::ResetUnderlinedText => self.underlined = false,
            SGRCode::ResetBlinkingText => self.blinking = BlinkingMode::Off,
            SGRCode::ResetReverseVideoMode => self.reverse_video = false,
            SGRCode::ResetInvisibleText => self.invisible = false,
            SGRCode::ResetStrikethroughText => self.strikethrough = false,
            _ => {},
        }
    }

    /// Applies an escape sequence to the style. `SelectGraphicRendition` applies
    /// its codes in order, and resets the style where it has none; every other
    /// sequence leaves the style alone.
    pub fn apply_escape_sequence(&mut self, sequence: &EscapeSequence)
        ensures
            *final(self) == old(self).with_sequence(sequence@),
    {
        match sequence {
            EscapeSequence::SelectGraphicRendition(sgr_codes) => {
                if sgr_codes.len() == 0 {
                    // No codes is a reset.
                    self.apply_sgr_code(&SGRCode::ResetAllTextStyles);
                    return ;
                }
                let mut i: usize = 0;
                while i < sgr_codes.len()
                    invariant
                        i <= sgr_codes.len(),
                        *self == old(self).with_sgr_codes(sgr_codes@.take(i as int)),
                    decreases sgr_codes.len() - i,
                {
                    proof {
                        let next = sgr_codes@.take(i + 1);
                        assert(next.drop_last() == sgr_codes@.take(i as int));
                        assert(next.last() == sgr_codes@[i as int]);
                    }
                    self.apply_sgr_code(&sgr_codes[i]);
                    i += 1;
                }
                proof {
                    assert(sgr_codes@.take(i as int) == sgr_codes@);
                }
            },
            _ => (),
        }
    }

    /// The style of a fresh terminal.
    pub fn new() -> (style: TextStyle)
        ensures
            style == TextStyle::initial(),
    {
        TextStyle {
            bold: false,
            faint: false,
            italic: false,
            underlined: false,
            blinking: BlinkingMode::Off,
            reverse_video: false,
            invisible: false,
            strikethrough: false,
            foreground: TerminalColour::Default,
            background: TerminalColour::Default,
        }
    }
}

/// Whether a rendition code selects a foreground or a background colour.
pub open spec fn selects_colour(sgr: SGRCode) -> bool {
    foreground_of(sgr) is Some || background_of(sgr) is Some
}

/// The codes that select a colour are those in the colour ranges, but for 38 and
/// 48; and no code of those ranges switches an attribute.
pub proof fn lemma_colour_setters(sgr: SGRCode)
    ensures
        selects_colour(sgr) ==> is_basic_colour_setter(sgr),
        is_basic_colour_setter(sgr) ==> selects_colour(sgr) || sgr
            == SGRCode::SelectAdvancedForegroundColour || sgr
            == SGRCode::SelectAdvancedBackgroundColour,
        is_basic_colour_setter(sgr) ==> forall|style: TextStyle|
            style.with_sgr_code(sgr) == style.with_colour_setter(sgr),
{
}

/// Tells whether a rendition code sets a colour.
pub fn sgr_code_is_a_basic_colour_setter(sgr: &SGRCode) -> (b: bool)
    ensures
        b == is_basic_colour_setter(*sgr),
{
    let n: usize = sgr.to_usize();
    (30 <= n && n <= 49) || (90 <= n && n <= 97) || (100 <= n && n <= 107)
}

/// Resetting forgets the style: the code 0 gives the initial style whatever the
/// style was before.
pub proof fn lemma_reset_forgets(style: TextStyle)
    ensures
        style.with_sgr_codes(seq![SGRCode::ResetAllTextStyles]) == TextStyle::initial(),
        style.with_sgr_codes(seq![SGRCode::ResetAllTextStyles]) == TextStyle::initial().with_sgr_codes(
            seq![SGRCode::ResetAllTextStyles],
        ),
{
    let codes = seq![SGRCode::ResetAllTextStyles];
    assert(codes.drop_last() =~= Seq::<SGRCode>::empty());
    reveal_with_fuel(TextStyle::with_sgr_codes, 2);
}

/// A rendition without codes is a rendition with the code 0 alone: both give the
/// initial style, whatever the style was before.
pub proof fn lemma_empty_rendition_resets(style: TextStyle)
    ensures
        style.with_rendition(Seq::empty()) == TextStyle::initial(),
        style.with_rendition(Seq::empty()) == style.with_rendition(
            seq![SGRCode::ResetAllTextStyles],
        ),
        style.with_sequence(SequenceModel::SelectGraphicRendition(Seq::empty()))
            == TextStyle::initial(),
{
    lemma_reset_forgets(style);
}

/// Resetting twice is resetting once.
pub proof fn lemma_reset_idempotent(style: TextStyle)
    ensures
        style.with_sgr_code(SGRCode::ResetAllTextStyles).with_sgr_code(SGRCode::ResetAllTextStyles)
            == style.with_sgr_code(SGRCode::ResetAllTextStyles),
{
}

} // verus!
