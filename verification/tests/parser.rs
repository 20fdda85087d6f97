use velocity_core::escape_sequence::params::{find_piece_end, parse_digits, scalar_value};
use velocity_core::escape_sequence::parser::{EscapeSequenceParser, SequenceFinished};
use velocity_core::escape_sequence::sequence::{
    CharacterSet, EraseInDisplayType, EraseInLineType, EscapeSequence, SGRCode,
    SetCursorPositionArgs, SetOrResetModeType,
};

/// Feeds the characters that follow `ESC` and returns what the parser said of
/// each.
fn run(after_escape: &str) -> Vec<SequenceFinished> {
    let mut parser = EscapeSequenceParser::new();
    after_escape.chars().map(|c| parser.parse_character(c)).collect()
}

/// Feeds the characters that follow `ESC`; every one but the last must ask for
/// more. Returns what the last one gave.
fn parse(after_escape: &str) -> Option<EscapeSequence> {
    let mut results = run(after_escape);
    let last = results.pop().expect("at least one character");
    for earlier in results {
        assert_eq!(earlier, SequenceFinished::No);
    }
    match last {
        SequenceFinished::Yes(sequence) => sequence,
        SequenceFinished::No => panic!("{:?} did not finish", after_escape),
    }
}

#[test]
fn cursor_motions_take_one_number() {
    assert_eq!(parse("[A"), Some(EscapeSequence::MoveCursorUp(1)));
    assert_eq!(parse("[5A"), Some(EscapeSequence::MoveCursorUp(5)));
    assert_eq!(parse("[12B"), Some(EscapeSequence::MoveCursorDown(12)));
    assert_eq!(parse("[3C"), Some(EscapeSequence::MoveCursorForward(3)));
    assert_eq!(parse("[0D"), Some(EscapeSequence::MoveCursorBack(0)));
    assert_eq!(parse("[2E"), Some(EscapeSequence::MoveCursorToNextLine(2)));
    assert_eq!(parse("[7F"), Some(EscapeSequence::MoveCursorToPreviousLine(7)));
    assert_eq!(parse("[40G"), Some(EscapeSequence::MoveCursorHorizontalAbsolute(40)));
    assert_eq!(parse("[4P"), Some(EscapeSequence::DeleteCharacters(4)));
    assert_eq!(parse("[9b"), Some(EscapeSequence::RepeatPreviousCharacter(9)));
    assert_eq!(parse("[007A"), Some(EscapeSequence::MoveCursorUp(7)));
}

#[test]
fn a_number_that_is_none_counts_as_one() {
    assert_eq!(parse("[1;2A"), Some(EscapeSequence::MoveCursorUp(1)));
    assert_eq!(parse("[;A"), Some(EscapeSequence::MoveCursorUp(1)));
    assert_eq!(parse("[<5A"), Some(EscapeSequence::MoveCursorUp(1)));
    assert_eq!(
        parse("[99999999999999999999999999A"),
        Some(EscapeSequence::MoveCursorUp(1))
    );
    let largest = isize::MAX.to_string();
    assert_eq!(
        parse(&format!("[{}B", largest)),
        Some(EscapeSequence::MoveCursorDown(isize::MAX))
    );
    let too_large = (isize::MAX as usize + 1).to_string();
    assert_eq!(parse(&format!("[{}B", too_large)), Some(EscapeSequence::MoveCursorDown(1)));
}

#[test]
fn intermediate_bytes_are_collected_apart() {
    assert_eq!(parse("[ 5A"), Some(EscapeSequence::MoveCursorUp(5)));
    assert_eq!(parse("[5 !A"), Some(EscapeSequence::MoveCursorUp(5)));
}

#[test]
fn other_characters_are_passed_over() {
    assert_eq!(parse("[\u{7}5\u{e9}A"), Some(EscapeSequence::MoveCursorUp(5)));
    assert_eq!(parse("[\u{7F}B"), Some(EscapeSequence::MoveCursorDown(1)));
}

#[test]
fn set_cursor_position_takes_row_then_column() {
    let position = |x, y| Some(EscapeSequence::SetCursorPosition(SetCursorPositionArgs { x, y }));
    assert_eq!(parse("[H"), position(1, 1));
    assert_eq!(parse("[5H"), position(1, 5));
    assert_eq!(parse("[5;9H"), position(9, 5));
    assert_eq!(parse("[;9H"), position(9, 1));
    assert_eq!(parse("[5;H"), position(1, 5));
    assert_eq!(parse("[2;3;4H"), position(3, 2));
    assert_eq!(parse("[x;3H".replace('x', ":").as_str()), position(3, 1));
    assert_eq!(parse("[0;0H"), position(0, 0));
}

#[test]
fn erase_sequences_take_one_digit() {
    let display = |erase| Some(EscapeSequence::EraseInDisplay(erase));
    assert_eq!(parse("[J"), display(EraseInDisplayType::ToEndOfScreen));
    assert_eq!(parse("[0J"), display(EraseInDisplayType::ToEndOfScreen));
    assert_eq!(parse("[1J"), display(EraseInDisplayType::ToStartOfScreen));
    assert_eq!(parse("[2J"), display(EraseInDisplayType::EntireScreen));
    assert_eq!(parse("[3J"), display(EraseInDisplayType::EntireScreenAndScrollbackBuffer));
    assert_eq!(parse("[4J"), None);
    assert_eq!(parse("[;J"), None);
    assert_eq!(parse("[12J"), display(EraseInDisplayType::ToEndOfScreen));
    let line = |erase| Some(EscapeSequence::EraseInLine(erase));
    assert_eq!(parse("[K"), line(EraseInLineType::ToEndOfLine));
    assert_eq!(parse("[1K"), line(EraseInLineType::ToStartOfLine));
    assert_eq!(parse("[2K"), line(EraseInLineType::EntireLine));
    assert_eq!(parse("[3K"), None);
}

#[test]
fn modes_are_set_and_reset() {
    assert_eq!(
        parse("[4h"),
        Some(EscapeSequence::SetMode(SetOrResetModeType::InsertionReplacement))
    );
    assert_eq!(
        parse("[20h"),
        Some(EscapeSequence::SetMode(SetOrResetModeType::AutomaticNewline))
    );
    assert_eq!(
        parse("[4l"),
        Some(EscapeSequence::ResetMode(SetOrResetModeType::InsertionReplacement))
    );
    assert_eq!(
        parse("[l"),
        Some(EscapeSequence::ResetMode(SetOrResetModeType::AutomaticNewline))
    );
    assert_eq!(
        parse("[h"),
        Some(EscapeSequence::SetMode(SetOrResetModeType::AutomaticNewline))
    );
    assert_eq!(parse("[5h"), None);
    assert_eq!(parse("[12l"), None);
}

#[test]
fn renditions_are_lists_of_codes() {
    let rendition = |codes: &[SGRCode]| Some(EscapeSequence::SelectGraphicRendition(codes.to_vec()));
    assert_eq!(parse("[m"), rendition(&[SGRCode::ResetAllTextStyles]));
    assert_eq!(parse("[0m"), rendition(&[SGRCode::ResetAllTextStyles]));
    assert_eq!(
        parse("[1;31m"),
        rendition(&[SGRCode::EnableBoldText, SGRCode::SelectRedForegroundColour])
    );
    assert_eq!(
        parse("[1;;31m"),
        rendition(&[SGRCode::EnableBoldText, SGRCode::Noop, SGRCode::SelectRedForegroundColour])
    );
    assert_eq!(parse("[;m"), rendition(&[SGRCode::Noop, SGRCode::Noop]));
    assert_eq!(parse("[26m"), rendition(&[SGRCode::Noop]));
    assert_eq!(parse("[9999m"), rendition(&[SGRCode::Noop]));
    assert_eq!(parse("[1:2m"), rendition(&[SGRCode::Noop]));
    assert_eq!(
        parse("[4;107;99999999999999999999999m"),
        rendition(&[
            SGRCode::EnableUnderlinedText,
            SGRCode::SelectBrightWhiteBackgroundColour,
            SGRCode::Noop
        ])
    );
}

#[test]
fn private_sequences_begin_with_a_question_mark() {
    assert_eq!(parse("[?2004h"), Some(EscapeSequence::PrivateEnableBracketedPasteMode));
    assert_eq!(parse("[?2004l"), Some(EscapeSequence::PrivateDisableBracketedPasteMode));
    assert_eq!(parse("[?7h"), Some(EscapeSequence::EnableAutoWrapMode));
    assert_eq!(parse("[?7l"), Some(EscapeSequence::DisableAutoWrapMode));
    assert_eq!(parse("[?1h"), Some(EscapeSequence::SwitchToApplicationCursorKeys));
    assert_eq!(parse("[?1l"), Some(EscapeSequence::SwitchToNormalCursorKeys));
    assert_eq!(parse("[?25h"), Some(EscapeSequence::ShowCursor));
    assert_eq!(parse("[?25l"), Some(EscapeSequence::HideCursor));
    assert_eq!(parse("[?12h"), None);
    assert_eq!(parse("[?07h"), None);
    assert_eq!(parse("[?7m"), None);
    assert_eq!(parse("[?A"), None);
    assert_eq!(parse("[?2004x"), None);
}

#[test]
fn full_reset_and_unknown_final_bytes() {
    assert_eq!(parse("[c"), Some(EscapeSequence::FullReset));
    assert_eq!(parse("[5c"), Some(EscapeSequence::FullReset));
    assert_eq!(parse("[z"), None);
    assert_eq!(parse("[@"), None);
    assert_eq!(parse("[~"), None);
    assert_eq!(parse("[5;5r"), None);
}

#[test]
fn introducers_fix_the_family() {
    assert_eq!(parse("M"), Some(EscapeSequence::MoveCursorUpScrollingIfNecessary));
    assert_eq!(parse("Px"), None);
    assert_eq!(parse("]0"), None);
    assert_eq!(parse(" F"), None);
    assert_eq!(parse("Z"), None);
    assert_eq!(parse("7"), None);
    assert_eq!(parse("\u{1B}"), None);
}

#[test]
fn g0_designations_are_taken_for_ascii() {
    let ascii = Some(EscapeSequence::DesignateG0CharacterSet(CharacterSet::UnitedStatesASCII));
    assert_eq!(parse("(B"), ascii);
    assert_eq!(parse("(0"), ascii);
    assert_eq!(parse("(%5"), ascii);
    assert_eq!(parse("(\"?"), ascii);
    assert_eq!(parse("(&4"), ascii);
}

#[test]
fn a_control_sequence_ends_on_its_final_byte_and_not_before() {
    for final_byte in 0x40u8..=0x7E {
        let body = "12;34 !?<=>:";
        let mut parser = EscapeSequenceParser::new();
        assert_eq!(parser.parse_character('['), SequenceFinished::No);
        for c in body.chars() {
            assert_eq!(parser.parse_character(c), SequenceFinished::No);
        }
        let last = parser.parse_character(final_byte as char);
        assert!(matches!(last, SequenceFinished::Yes(_)), "final byte {:#x}", final_byte);
    }
    for other in (0x00u8..0x40).chain(0x7F..=0xFF) {
        let mut parser = EscapeSequenceParser::new();
        assert_eq!(parser.parse_character('['), SequenceFinished::No);
        assert_eq!(parser.parse_character(other as char), SequenceFinished::No);
    }
}

#[test]
fn numbers_are_read_digit_by_digit() {
    let chars: Vec<char> = "12;345;x;".chars().collect();
    assert_eq!(find_piece_end(&chars, 0), 2);
    assert_eq!(find_piece_end(&chars, 2), 2);
    assert_eq!(find_piece_end(&chars, 3), 6);
    assert_eq!(find_piece_end(&chars, 9), 9);
    assert_eq!(parse_digits(&chars, 0, 2, usize::MAX), Some(12));
    assert_eq!(parse_digits(&chars, 3, 6, usize::MAX), Some(345));
    assert_eq!(parse_digits(&chars, 3, 6, 345), Some(345));
    assert_eq!(parse_digits(&chars, 3, 6, 344), None);
    assert_eq!(parse_digits(&chars, 0, 0, usize::MAX), None);
    assert_eq!(parse_digits(&chars, 7, 8, usize::MAX), None);
    assert_eq!(parse_digits(&chars, 0, 3, usize::MAX), None);
    let largest: Vec<char> = usize::MAX.to_string().chars().collect();
    assert_eq!(parse_digits(&largest, 0, largest.len(), usize::MAX), Some(usize::MAX));
    let mut beyond = largest.clone();
    beyond.push('0');
    assert_eq!(parse_digits(&beyond, 0, beyond.len(), usize::MAX), None);
    assert_eq!(scalar_value('A'), 0x41);
    assert_eq!(scalar_value('\u{10FFFF}'), 0x10FFFF);
}

#[test]
fn numbers_are_held_to_any_limit() {
    let chars: Vec<char> = "0;5;7;10;009".chars().collect();
    assert_eq!(parse_digits(&chars, 0, 1, 0), Some(0));
    assert_eq!(parse_digits(&chars, 2, 3, 0), None);
    assert_eq!(parse_digits(&chars, 2, 3, 4), None);
    assert_eq!(parse_digits(&chars, 2, 3, 5), Some(5));
    assert_eq!(parse_digits(&chars, 4, 5, 5), None);
    assert_eq!(parse_digits(&chars, 4, 5, 8), Some(7));
    assert_eq!(parse_digits(&chars, 6, 8, 9), None);
    assert_eq!(parse_digits(&chars, 6, 8, 10), Some(10));
    assert_eq!(parse_digits(&chars, 9, 12, 8), None);
    assert_eq!(parse_digits(&chars, 9, 12, 9), Some(9));
    assert_eq!(parse_digits(&chars, 9, 11, 0), Some(0));
}
