use velocity_core::escape_sequence::sequence::{
    EraseInDisplayType, EraseInLineType, EscapeSequence, SGRCode, SetOrResetModeType,
    TerminalColour,
};
use velocity_core::text_styles::decorated_char::DecoratedChar;
use velocity_core::text_styles::text_style::{
    sgr_code_is_a_basic_colour_setter, BlinkingMode, TextStyle,
};

fn styled(codes: &[SGRCode]) -> TextStyle {
    let mut style = TextStyle::new();
    style.apply_escape_sequence(&EscapeSequence::SelectGraphicRendition(codes.to_vec()));
    style
}

#[test]
fn new_style_has_nothing_set() {
    let style = TextStyle::new();
    assert!(!style.bold && !style.faint && !style.italic && !style.underlined);
    assert!(!style.reverse_video && !style.invisible && !style.strikethrough);
    assert_eq!(style.blinking, BlinkingMode::Off);
    assert_eq!(style.foreground, TerminalColour::Default);
    assert_eq!(style.background, TerminalColour::Default);
}

#[test]
fn attributes_switch_on() {
    assert!(styled(&[SGRCode::EnableBoldText]).bold);
    assert!(styled(&[SGRCode::EnableFaintText]).faint);
    assert!(styled(&[SGRCode::EnableItalicText]).italic);
    assert!(styled(&[SGRCode::EnableUnderlinedText]).underlined);
    assert_eq!(styled(&[SGRCode::EnableRapidBlinkingText]).blinking, BlinkingMode::Rapid);
    assert_eq!(styled(&[SGRCode::EnableSlowBlinkingText]).blinking, BlinkingMode::Slow);
    assert!(styled(&[SGRCode::EnableReverseVideoMode]).reverse_video);
    assert!(styled(&[SGRCode::EnableInvisibleText]).invisible);
    assert!(styled(&[SGRCode::EnableStrikethroughText]).strikethrough);
}

#[test]
fn attributes_switch_off() {
    let all_on = [
        SGRCode::EnableBoldText,
        SGRCode::EnableFaintText,
        SGRCode::EnableItalicText,
        SGRCode::EnableUnderlinedText,
        SGRCode::EnableRapidBlinkingText,
        SGRCode::EnableReverseVideoMode,
        SGRCode::EnableInvisibleText,
        SGRCode::EnableStrikethroughText,
    ];
    let with = |code: SGRCode| {
        let mut codes = all_on.to_vec();
        codes.push(code);
        styled(&codes)
    };
    let weight = with(SGRCode::ResetTextWeight);
    assert!(!weight.bold && !weight.faint && weight.italic);
    assert!(!with(SGRCode::ResetItalicText).italic);
    assert!(!with(SGRCode::ResetUnderlinedText).underlined);
    assert_eq!(with(SGRCode::ResetBlinkingText).blinking, BlinkingMode::Off);
    assert!(!with(SGRCode::ResetReverseVideoMode).reverse_video);
    assert!(!with(SGRCode::ResetInvisibleText).invisible);
    assert!(!with(SGRCode::ResetStrikethroughText).strikethrough);
    assert!(with(SGRCode::ResetStrikethroughText).bold);
}

#[test]
fn colours_are_selected() {
    assert_eq!(styled(&[SGRCode::SelectBlackForegroundColour]).foreground, TerminalColour::Black);
    assert_eq!(styled(&[SGRCode::SelectWhiteForegroundColour]).foreground, TerminalColour::White);
    assert_eq!(styled(&[SGRCode::SelectGreenBackgroundColour]).background, TerminalColour::Green);
    assert_eq!(
        styled(&[SGRCode::SelectBrightBlackForegroundColour]).foreground,
        TerminalColour::BrightBlack
    );
    assert_eq!(
        styled(&[SGRCode::SelectBrightWhiteBackgroundColour]).background,
        TerminalColour::BrightWhite
    );
    let both = styled(&[SGRCode::SelectRedForegroundColour, SGRCode::SelectBlueBackgroundColour]);
    assert_eq!(both.foreground, TerminalColour::Red);
    assert_eq!(both.background, TerminalColour::Blue);
    let back = styled(&[
        SGRCode::SelectRedForegroundColour,
        SGRCode::SelectBlueBackgroundColour,
        SGRCode::SelectDefaultForegroundColour,
        SGRCode::SelectDefaultBackgroundColour,
    ]);
    assert_eq!(back, TextStyle::new());
}

#[test]
fn every_colour_code_selects_its_colour() {
    for n in 0..8usize {
        let plain = TerminalColour::from_usize(n).unwrap();
        let bright = TerminalColour::from_usize(n + 10).unwrap();
        assert_eq!(styled(&[SGRCode::from_usize(30 + n).unwrap()]).foreground, plain);
        assert_eq!(styled(&[SGRCode::from_usize(40 + n).unwrap()]).background, plain);
        assert_eq!(styled(&[SGRCode::from_usize(90 + n).unwrap()]).foreground, bright);
        assert_eq!(styled(&[SGRCode::from_usize(100 + n).unwrap()]).background, bright);
    }
}

#[test]
fn codes_without_effect_change_nothing() {
    let before = styled(&[SGRCode::EnableBoldText, SGRCode::SelectRedForegroundColour]);
    for code in [
        SGRCode::SelectAdvancedForegroundColour,
        SGRCode::SelectAdvancedBackgroundColour,
        SGRCode::Noop,
        SGRCode::EnableFrakturText,
        SGRCode::SelectPrimaryFont,
        SGRCode::EnableOverlinedText,
    ] {
        let mut style = before;
        style.apply_sgr_code(&code);
        assert_eq!(style, before);
    }
}

#[test]
fn reset_gives_the_initial_style_from_any_style() {
    let busy = styled(&[
        SGRCode::EnableBoldText,
        SGRCode::EnableSlowBlinkingText,
        SGRCode::SelectCyanForegroundColour,
        SGRCode::SelectBrightRedBackgroundColour,
    ]);
    let mut from_busy = busy;
    from_busy.apply_escape_sequence(&EscapeSequence::SelectGraphicRendition(vec![
        SGRCode::ResetAllTextStyles,
    ]));
    assert_eq!(from_busy, styled(&[SGRCode::ResetAllTextStyles]));
    assert_eq!(from_busy, TextStyle::new());
    let mut twice = from_busy;
    twice.apply_sgr_code(&SGRCode::ResetAllTextStyles);
    assert_eq!(twice, from_busy);
}

#[test]
fn codes_apply_in_order() {
    let style = styled(&[
        SGRCode::SelectRedForegroundColour,
        SGRCode::SelectGreenForegroundColour,
        SGRCode::EnableBoldText,
        SGRCode::ResetTextWeight,
    ]);
    assert_eq!(style.foreground, TerminalColour::Green);
    assert!(!style.bold);
    assert_eq!(styled(&[]), TextStyle::new());
}

#[test]
fn other_sequences_leave_the_style_alone() {
    let before = styled(&[SGRCode::EnableItalicText]);
    let mut style = before;
    style.apply_escape_sequence(&EscapeSequence::FullReset);
    style.apply_escape_sequence(&EscapeSequence::MoveCursorUp(3));
    assert_eq!(style, before);
}

#[test]
fn basic_colour_setters_are_the_colour_ranges() {
    for n in 0..=110usize {
        if let Some(code) = SGRCode::from_usize(n) {
            let expected = (30..=49).contains(&n) || (90..=97).contains(&n) || (100..=107).contains(&n);
            assert_eq!(sgr_code_is_a_basic_colour_setter(&code), expected, "code {}", n);
        }
    }
    assert!(!sgr_code_is_a_basic_colour_setter(&SGRCode::Noop));
}

#[test]
fn numbers_and_codes_correspond() {
    assert_eq!(SGRCode::from_usize(0), Some(SGRCode::ResetAllTextStyles));
    assert_eq!(SGRCode::from_usize(1), Some(SGRCode::EnableBoldText));
    assert_eq!(SGRCode::from_usize(22), Some(SGRCode::ResetTextWeight));
    assert_eq!(SGRCode::from_usize(26), None);
    assert_eq!(SGRCode::from_usize(56), None);
    assert_eq!(SGRCode::from_usize(98), None);
    assert_eq!(SGRCode::from_usize(107), Some(SGRCode::SelectBrightWhiteBackgroundColour));
    assert_eq!(SGRCode::from_usize(108), None);
    assert_eq!(SGRCode::from_usize(9999), Some(SGRCode::Noop));
    for n in 0..=10000usize {
        if let Some(code) = SGRCode::from_usize(n) {
            assert_eq!(code.to_usize(), n);
        }
    }
    assert_eq!(TerminalColour::from_usize(8), None);
    assert_eq!(TerminalColour::from_usize(9), Some(TerminalColour::Default));
    assert_eq!(TerminalColour::from_usize(17), Some(TerminalColour::BrightWhite));
    assert_eq!(TerminalColour::from_usize(18), None);
    assert_eq!(TerminalColour::Default.to_usize(), 9);
    assert_eq!(EraseInDisplayType::from_usize(3), Some(EraseInDisplayType::EntireScreenAndScrollbackBuffer));
    assert_eq!(EraseInDisplayType::from_usize(4), None);
    assert_eq!(EraseInDisplayType::EntireScreen.to_usize(), 2);
    assert_eq!(EraseInLineType::from_usize(2), Some(EraseInLineType::EntireLine));
    assert_eq!(EraseInLineType::from_usize(3), None);
    assert_eq!(EraseInLineType::ToStartOfLine.to_usize(), 1);
    assert_eq!(SetOrResetModeType::from_usize(4), Some(SetOrResetModeType::InsertionReplacement));
    assert_eq!(SetOrResetModeType::from_usize(20), Some(SetOrResetModeType::AutomaticNewline));
    assert_eq!(SetOrResetModeType::from_usize(0), None);
    assert_eq!(SetOrResetModeType::AutomaticNewline.to_usize(), 20);
}

#[test]
fn decorated_char_keeps_its_parts() {
    let style = styled(&[SGRCode::EnableUnderlinedText]);
    let decorated = DecoratedChar::new('q', style);
    assert_eq!(decorated.char, 'q');
    assert_eq!(decorated.style, style);
    assert_eq!(char::from(decorated), 'q');
}

#[test]
fn a_rendition_without_codes_resets_the_style() {
    let busy = styled(&[
        SGRCode::EnableBoldText,
        SGRCode::EnableRapidBlinkingText,
        SGRCode::SelectYellowForegroundColour,
        SGRCode::SelectBrightBlueBackgroundColour,
    ]);
    assert_ne!(busy, TextStyle::new());
    let mut emptied = busy;
    emptied.apply_escape_sequence(&EscapeSequence::SelectGraphicRendition(vec![]));
    assert_eq!(emptied, TextStyle::new());
    let mut reset = busy;
    reset.apply_escape_sequence(&EscapeSequence::SelectGraphicRendition(vec![
        SGRCode::ResetAllTextStyles,
    ]));
    assert_eq!(emptied, reset);
    // A list that holds a code without effect is no empty list.
    let mut kept = busy;
    kept.apply_escape_sequence(&EscapeSequence::SelectGraphicRendition(vec![SGRCode::Noop]));
    assert_eq!(kept, busy);
}
