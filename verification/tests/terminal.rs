use std::cell::RefCell;
use std::rc::Rc;
use velocity_core::constants::FD_BUFFER_SIZE_BYTES;
use velocity_core::escape_sequence::sequence::{
    EraseInDisplayType, EraseInLineType, EscapeSequence, SGRCode, SetCursorPositionArgs,
    SetOrResetModeType, TerminalColour,
};
use velocity_core::model::InsertionMode;
use velocity_core::shell_layer::ShellLayer;
use velocity_core::text_styles::decorated_char::DecoratedChar;
use velocity_core::text_styles::text_style::TextStyle;
use velocity_core::tty::TtyState;

/// A shell layer that plays back what it was given and records what is written.
struct Playback {
    chunks: Vec<Vec<u8>>,
    claimed: Option<usize>,
    sent: Rc<RefCell<Vec<u8>>>,
}

impl ShellLayer for Playback {
    fn read(&mut self, buffer: &mut [u8; FD_BUFFER_SIZE_BYTES], written: &mut usize) {
        if self.chunks.is_empty() {
            *written = 0;
            return;
        }
        let chunk = self.chunks.remove(0);
        buffer[..chunk.len()].copy_from_slice(&chunk);
        *written = self.claimed.unwrap_or(chunk.len());
    }

    fn write(&mut self, data: &[u8]) {
        self.sent.borrow_mut().extend_from_slice(data);
    }

    fn resized(&mut self, _new_rows: usize, _new_cols: usize) {}
}

fn silent(cols: usize, rows: usize) -> TtyState {
    TtyState::new(
        cols,
        rows,
        Box::new(Playback { chunks: vec![], claimed: None, sent: Rc::new(RefCell::new(vec![])) }),
    )
}

fn fed(cols: usize, rows: usize, input: &[u8]) -> TtyState {
    let mut tty = silent(cols, rows);
    tty.insert_bytes(input);
    assert!(tty.is_well_formed());
    tty
}

fn text(tty: &TtyState, row: usize) -> String {
    tty.scrollback_buffer[row].iter().map(|d| d.char).collect()
}

fn all_text(tty: &TtyState) -> Vec<String> {
    (0..tty.scrollback_buffer.len()).map(|row| text(tty, row)).collect()
}

fn cursor(tty: &TtyState) -> (isize, isize) {
    (tty.cursor_pos.x, tty.cursor_pos.y)
}

#[test]
fn a_new_terminal_is_empty() {
    let tty = silent(80, 25);
    assert_eq!((tty.size.cols, tty.size.rows), (80, 25));
    assert_eq!(cursor(&tty), (0, 0));
    assert!(tty.cursor_visible);
    assert_eq!(tty.scrollback_start, 0);
    assert!(tty.scrollback_buffer.is_empty());
    assert!(!tty.bracketed_paste_mode);
    assert!(!tty.application_cursor_keys);
    assert!(!tty.stomp);
    assert!(tty.autowrap);
    assert_eq!(tty.insertion_mode, InsertionMode::Replace);
    assert_eq!(tty.text_style, TextStyle::new());
    assert_eq!(tty.previously_inserted_character, ' ');
    assert!(!tty.am_parsing_escape_sequence);
    assert!(tty.is_well_formed());
}

#[test]
fn reading_feeds_the_bytes_of_the_shell() {
    let sent = Rc::new(RefCell::new(vec![]));
    let layer = Playback {
        chunks: vec![b"one\r\n".to_vec(), b"two".to_vec()],
        claimed: None,
        sent: sent.clone(),
    };
    let mut tty = TtyState::new(80, 25, Box::new(layer));
    tty.read();
    assert_eq!(all_text(&tty), vec!["one", ""]);
    assert_eq!(tty.read_buffer_length, 5);
    tty.read();
    assert_eq!(all_text(&tty), vec!["one", "two"]);
    tty.read();
    assert_eq!(all_text(&tty), vec!["one", "two"]);
    assert_eq!(tty.read_buffer_length, 0);
    assert!(tty.is_well_formed());
}

#[test]
fn a_read_that_claims_too_much_is_cut_to_the_buffer() {
    let layer = Playback {
        chunks: vec![vec![b'x'; FD_BUFFER_SIZE_BYTES]],
        claimed: Some(FD_BUFFER_SIZE_BYTES + 1000),
        sent: Rc::new(RefCell::new(vec![])),
    };
    let mut tty = TtyState::new(4096, 2, Box::new(layer));
    tty.read();
    assert_eq!(tty.scrollback_buffer[0].len(), FD_BUFFER_SIZE_BYTES);
    assert!(tty.is_well_formed());
}

#[test]
fn writing_hands_the_bytes_to_the_shell() {
    let sent = Rc::new(RefCell::new(vec![]));
    let layer = Playback { chunks: vec![], claimed: None, sent: sent.clone() };
    let mut tty = TtyState::new(80, 25, Box::new(layer));
    tty.write(b"ls\r");
    tty.write(&[0x03]);
    assert_eq!(*sent.borrow(), b"ls\r\x03".to_vec());
    assert!(tty.scrollback_buffer.is_empty());
    assert_eq!(cursor(&tty), (0, 0));
}

#[test]
fn bytes_may_arrive_in_any_pieces() {
    let input = "a€\u{1B}[1;31mé\u{1B}[0m😀\n".as_bytes();
    let whole = fed(80, 25, input);
    for split in 0..=input.len() {
        let mut tty = silent(80, 25);
        tty.insert_bytes(&input[..split]);
        tty.insert_bytes(&input[split..]);
        assert_eq!(all_text(&tty), all_text(&whole));
        assert_eq!(cursor(&tty), cursor(&whole));
        assert_eq!(tty.text_style, whole.text_style);
    }
    let mut one_by_one = silent(80, 25);
    for &b in input {
        one_by_one.insert_byte(b);
    }
    assert_eq!(all_text(&one_by_one), vec!["a€é😀", ""]);
    assert_eq!(one_by_one.scrollback_buffer[0][2].style.foreground, TerminalColour::Red);
}

#[test]
fn backspace_stops_at_the_first_column() {
    let tty = fed(80, 25, b"\x08\x08a");
    assert_eq!(text(&tty, 0), "a");
    assert_eq!(cursor(&tty), (1, 0));
}

#[test]
fn carriage_return_goes_to_the_first_column() {
    let tty = fed(80, 25, b"hello\rJ");
    assert_eq!(text(&tty, 0), "Jello");
    assert_eq!(cursor(&tty), (1, 0));
}

#[test]
fn tabs_go_to_the_next_multiple_of_eight() {
    assert_eq!(cursor(&fed(80, 25, b"\t")), (8, 0));
    assert_eq!(cursor(&fed(80, 25, b"1234567\t")), (8, 0));
    assert_eq!(cursor(&fed(80, 25, b"12345678\t")), (16, 0));
    assert_eq!(cursor(&fed(80, 25, b"\t\t\t")), (24, 0));
    // Inside the window at the right edge.
    assert_eq!(cursor(&fed(10, 25, b"\t\t")), (9, 0));
    assert_eq!(cursor(&fed(8, 25, b"\t")), (7, 0));
}

#[test]
fn bell_and_form_feed_do_nothing_but_are_remembered() {
    let tty = fed(80, 25, b"a\x07\x0Cb");
    assert_eq!(text(&tty, 0), "ab");
    let bell = fed(80, 25, b"a\x07");
    assert_eq!(bell.previously_inserted_character, '\u{7}');
    assert_eq!(cursor(&bell), (1, 0));
}

#[test]
fn control_characters_clear_the_wait_in_the_last_column() {
    let mut tty = fed(5, 3, b"ABCDE");
    assert!(tty.stomp);
    tty.insert_bytes(b"\rVWXYZ");
    assert_eq!(all_text(&tty), vec!["VWXYZ"]);
    assert_eq!(cursor(&tty), (4, 0));
    assert!(tty.stomp);
    let back = fed(5, 3, b"ABCDE\x08");
    assert_eq!(cursor(&back), (3, 0));
    assert!(!back.stomp);
}

#[test]
fn without_autowrap_the_last_column_is_overwritten() {
    let tty = fed(5, 3, b"\x1B[?7lABCDEFG");
    assert_eq!(all_text(&tty), vec!["ABCDG"]);
    assert_eq!(cursor(&tty), (4, 0));
    assert!(tty.stomp);
    assert!(!tty.autowrap);
    let again = fed(5, 3, b"\x1B[?7lABCDEF\x1B[?7hG");
    assert_eq!(all_text(&again), vec!["ABCDF", "G"]);
}

#[test]
fn a_newline_at_the_bottom_scrolls() {
    let tty = fed(10, 3, b"1\n2\n3\n4\n5");
    assert_eq!(all_text(&tty), vec!["1", "2", "3", "4", "5"]);
    assert_eq!(tty.scrollback_start, 2);
    assert_eq!(cursor(&tty), (1, 2));
    let wrapped = fed(2, 2, b"abcdefg");
    assert_eq!(all_text(&wrapped), vec!["ab", "cd", "ef", "g"]);
    assert_eq!(wrapped.scrollback_start, 2);
    assert_eq!(cursor(&wrapped), (1, 1));
}

#[test]
fn a_newline_keeps_the_column_zero_and_clears_the_wait() {
    let tty = fed(5, 3, b"ABCDE\nF");
    assert_eq!(all_text(&tty), vec!["ABCDE", "F"]);
    assert_eq!(cursor(&tty), (1, 1));
    assert!(!tty.stomp);
}

#[test]
fn printing_past_the_end_of_a_line_pads_with_spaces_in_the_current_style() {
    let tty = fed(80, 25, b"\x1B[5G\x1B[4mZ");
    assert_eq!(text(&tty, 0), "     Z");
    let mut underlined = TextStyle::new();
    underlined.apply_sgr_code(&SGRCode::EnableUnderlinedText);
    for column in 0..5 {
        assert_eq!(tty.scrollback_buffer[0][column], DecoratedChar::new(' ', underlined));
    }
    assert_eq!(tty.scrollback_buffer[0][5], DecoratedChar::new('Z', underlined));
}

#[test]
fn a_character_keeps_the_style_it_was_printed_in() {
    let tty = fed(80, 25, b"\x1B[1;32ma\x1B[0;3mb\x1B[mc\x1B[7m");
    let a = tty.scrollback_buffer[0][0].style;
    let b = tty.scrollback_buffer[0][1].style;
    let c = tty.scrollback_buffer[0][2].style;
    assert!(a.bold && !a.italic && a.foreground == TerminalColour::Green);
    assert!(!b.bold && b.italic && b.foreground == TerminalColour::Default);
    assert_eq!(c, TextStyle::new());
    assert!(tty.text_style.reverse_video);
}

#[test]
fn cursor_motions_stay_inside_the_window() {
    let mut tty = silent(10, 5);
    tty.apply_escape_sequence(&EscapeSequence::MoveCursorDown(2));
    tty.apply_escape_sequence(&EscapeSequence::MoveCursorForward(3));
    assert_eq!(cursor(&tty), (3, 2));
    tty.apply_escape_sequence(&EscapeSequence::MoveCursorUp(1));
    tty.apply_escape_sequence(&EscapeSequence::MoveCursorBack(2));
    assert_eq!(cursor(&tty), (1, 1));
    tty.apply_escape_sequence(&EscapeSequence::MoveCursorUp(100));
    assert_eq!(cursor(&tty), (1, 0));
    tty.apply_escape_sequence(&EscapeSequence::MoveCursorDown(100));
    assert_eq!(cursor(&tty), (1, 4));
    tty.apply_escape_sequence(&EscapeSequence::MoveCursorForward(isize::MAX));
    assert_eq!(cursor(&tty), (9, 4));
    tty.apply_escape_sequence(&EscapeSequence::MoveCursorBack(isize::MAX));
    assert_eq!(cursor(&tty), (0, 4));
    tty.apply_escape_sequence(&EscapeSequence::MoveCursorBack(isize::MIN));
    assert_eq!(cursor(&tty), (9, 4));
    tty.apply_escape_sequence(&EscapeSequence::MoveCursorUp(isize::MIN));
    assert_eq!(cursor(&tty), (9, 4));
    tty.apply_escape_sequence(&EscapeSequence::MoveCursorDown(isize::MIN));
    assert_eq!(cursor(&tty), (9, 0));
    tty.apply_escape_sequence(&EscapeSequence::MoveCursorForward(-4));
    assert_eq!(cursor(&tty), (5, 0));
    tty.apply_escape_sequence(&EscapeSequence::MoveCursorToNextLine(2));
    assert_eq!(cursor(&tty), (0, 2));
    tty.apply_escape_sequence(&EscapeSequence::MoveCursorForward(4));
    tty.apply_escape_sequence(&EscapeSequence::MoveCursorToPreviousLine(1));
    assert_eq!(cursor(&tty), (0, 1));
    tty.apply_escape_sequence(&EscapeSequence::MoveCursorHorizontalAbsolute(7));
    assert_eq!(cursor(&tty), (7, 1));
    tty.apply_escape_sequence(&EscapeSequence::MoveCursorHorizontalAbsolute(70));
    assert_eq!(cursor(&tty), (9, 1));
    tty.apply_escape_sequence(&EscapeSequence::MoveCursorHorizontalAbsolute(-1));
    assert_eq!(cursor(&tty), (0, 1));
    assert!(tty.is_well_formed());
}

#[test]
fn set_cursor_position_counts_from_one() {
    let mut tty = silent(10, 5);
    let mut to = |x: usize, y: usize| {
        tty.apply_escape_sequence(&EscapeSequence::SetCursorPosition(SetCursorPositionArgs {
            x,
            y,
        }));
        (tty.cursor_pos.x, tty.cursor_pos.y)
    };
    assert_eq!(to(1, 1), (0, 0));
    assert_eq!(to(4, 2), (3, 1));
    assert_eq!(to(0, 0), (0, 0));
    assert_eq!(to(10, 5), (9, 4));
    assert_eq!(to(11, 6), (9, 4));
    assert_eq!(to(usize::MAX, usize::MAX), (9, 4));
    assert_eq!(to(isize::MAX as usize + 1, 3), (9, 2));
}

#[test]
fn the_cursor_goes_where_it_is_sent_wherever_it_was() {
    for (x, y) in [(0, 0), (3, 2), (-5, 7), (100, -100), (9, 4), (isize::MIN, isize::MAX)] {
        let mut fresh = silent(10, 5);
        fresh.set_cursor_pos(x, y);
        let mut used = fed(10, 5, b"some text\r\nmore\x1B[3;3Hstuff\x1B[?7labcdefghijklm");
        assert!(used.stomp);
        used.set_cursor_pos(x, y);
        assert_eq!(cursor(&used), cursor(&fresh));
        assert!(!used.stomp);
        assert!(0 <= used.cursor_pos.x && used.cursor_pos.x < 10);
        assert!(0 <= used.cursor_pos.y && used.cursor_pos.y < 5);
    }
}

#[test]
fn moving_the_cursor_clears_the_wait_in_the_last_column() {
    let tty = fed(5, 3, b"ABCDE\x1B[DX");
    assert_eq!(all_text(&tty), vec!["ABCXE"]);
    assert_eq!(cursor(&tty), (4, 0));
    assert!(!tty.stomp);
}

#[test]
fn insert_mode_pushes_the_line_right_and_cuts_it() {
    let tty = fed(5, 3, b"abcde\r\x1B[4hXY");
    assert_eq!(all_text(&tty), vec!["XYabc"]);
    assert_eq!(cursor(&tty), (2, 0));
    assert_eq!(tty.insertion_mode, InsertionMode::Insert);
    let short = fed(5, 3, b"ab\r\x1B[4hX");
    assert_eq!(all_text(&short), vec!["Xab"]);
    let back = fed(5, 3, b"abc\r\x1B[4hX\x1B[4lY");
    assert_eq!(all_text(&back), vec!["XYbc"]);
    assert_eq!(back.insertion_mode, InsertionMode::Replace);
}

#[test]
fn modes_set_and_reset_the_insertion_mode() {
    let mut tty = silent(5, 3);
    tty.apply_escape_sequence(&EscapeSequence::SetMode(SetOrResetModeType::InsertionReplacement));
    assert_eq!(tty.insertion_mode, InsertionMode::Insert);
    tty.apply_escape_sequence(&EscapeSequence::SetMode(SetOrResetModeType::AutomaticNewline));
    assert_eq!(tty.insertion_mode, InsertionMode::Replace);
    tty.apply_escape_sequence(&EscapeSequence::ResetMode(SetOrResetModeType::AutomaticNewline));
    assert_eq!(tty.insertion_mode, InsertionMode::Insert);
    tty.apply_escape_sequence(&EscapeSequence::ResetMode(SetOrResetModeType::InsertionReplacement));
    assert_eq!(tty.insertion_mode, InsertionMode::Replace);
}

#[test]
fn erase_in_line_cuts_at_the_cursor() {
    let at = |sequence: &[u8]| {
        let mut tty = fed(80, 25, b"0123456789\x1B[5G");
        tty.insert_bytes(sequence);
        assert_eq!(cursor(&tty), (5, 0));
        text(&tty, 0)
    };
    assert_eq!(at(b"\x1B[K"), "01234");
    assert_eq!(at(b"\x1B[0K"), "01234");
    assert_eq!(at(b"\x1B[1K"), "6789");
    assert_eq!(at(b"\x1B[2K"), "");
    let mut beyond = fed(80, 25, b"abc\x1B[10G");
    beyond.apply_sequence_erase_in_line(&EraseInLineType::ToEndOfLine);
    assert_eq!(text(&beyond, 0), "abc");
    beyond.apply_sequence_erase_in_line(&EraseInLineType::ToStartOfLine);
    assert_eq!(text(&beyond, 0), "");
    let mut first = fed(80, 25, b"abc\r");
    first.apply_sequence_erase_in_line(&EraseInLineType::ToStartOfLine);
    assert_eq!(text(&first, 0), "bc");
    let mut last = fed(80, 25, b"abc\x08");
    last.apply_sequence_erase_in_line(&EraseInLineType::ToStartOfLine);
    assert_eq!(text(&last, 0), "");
}

#[test]
fn erase_in_line_makes_the_line_exist() {
    let mut tty = silent(80, 25);
    tty.set_cursor_pos(3, 2);
    tty.apply_sequence_erase_in_line(&EraseInLineType::EntireLine);
    assert_eq!(all_text(&tty), vec!["", "", ""]);
}

#[test]
fn erase_in_display_clears_round_the_cursor() {
    let filled = || fed(10, 4, b"aaaaaaaaaa\r\nbbbbbbbbbb\r\ncccccccccc\r\ndddddddddd\r\neeeeeeeeee\x1B[2;4H");
    let mut to_end = filled();
    assert_eq!(to_end.scrollback_start, 1);
    assert_eq!(cursor(&to_end), (3, 1));
    to_end.apply_sequence_erase_in_display(&EraseInDisplayType::ToEndOfScreen);
    assert_eq!(all_text(&to_end), vec!["aaaaaaaaaa", "bbbbbbbbbb", "ccc"]);
    let mut to_start = filled();
    to_start.apply_sequence_erase_in_display(&EraseInDisplayType::ToStartOfScreen);
    assert_eq!(
        all_text(&to_start),
        vec!["aaaaaaaaaa", "", "cccccc", "dddddddddd", "eeeeeeeeee"]
    );
    let mut entire = filled();
    entire.apply_sequence_erase_in_display(&EraseInDisplayType::EntireScreen);
    assert_eq!(all_text(&entire), vec!["aaaaaaaaaa", "", ""]);
    assert_eq!(entire.scrollback_start, 1);
    let mut everything = filled();
    everything.apply_sequence_erase_in_display(&EraseInDisplayType::EntireScreenAndScrollbackBuffer);
    assert!(everything.scrollback_buffer.is_empty());
    assert_eq!(everything.scrollback_start, 0);
    assert_eq!(cursor(&everything), (3, 1));
    for tty in [to_end, to_start, entire, everything] {
        assert!(tty.is_well_formed());
        assert_eq!(cursor(&tty), (3, 1));
    }
}

#[test]
fn printing_goes_on_after_the_scrollback_was_erased() {
    let tty = fed(10, 4, b"a\r\nb\r\nc\x1B[3JX");
    assert_eq!(all_text(&tty), vec!["", "", " X"]);
}

#[test]
fn delete_characters_pulls_the_rest_left() {
    let at = |count: isize| {
        let mut tty = fed(80, 25, b"0123456789\x1B[3G");
        tty.apply_escape_sequence(&EscapeSequence::DeleteCharacters(count));
        assert_eq!(cursor(&tty), (3, 0));
        text(&tty, 0)
    };
    assert_eq!(at(1), "012456789");
    assert_eq!(at(3), "0126789");
    assert_eq!(at(7), "012");
    assert_eq!(at(100), "012");
    assert_eq!(at(isize::MAX), "012");
    assert_eq!(at(0), "0123456789");
    assert_eq!(at(-1), "0123456789");
    let mut beyond = fed(80, 25, b"abc\x1B[10G");
    beyond.apply_sequence_delete_characters(2);
    assert_eq!(text(&beyond, 0), "abc");
    let by_sequence = fed(80, 25, b"0123456789\x1B[3G\x1B[2P");
    assert_eq!(text(&by_sequence, 0), "01256789");
}

#[test]
fn the_previous_character_is_repeated() {
    assert_eq!(all_text(&fed(80, 25, b"a\x1B[3b")), vec!["aaaa"]);
    assert_eq!(all_text(&fed(80, 25, b"ab\x1B[b")), vec!["abb"]);
    assert_eq!(all_text(&fed(80, 25, b"a\x1B[0b")), vec!["a"]);
    assert_eq!(all_text(&fed(3, 5, b"x\x1B[6b")), vec!["xxx", "xxx", "x"]);
    assert_eq!(all_text(&fed(80, 25, b"\x1B[2b")), vec!["  "]);
    let lines = fed(80, 25, b"a\n\x1B[2b");
    assert_eq!(all_text(&lines), vec!["a", "", "", ""]);
    assert_eq!(cursor(&lines), (0, 3));
    let mut negative = fed(80, 25, b"a");
    negative.apply_sequence_repeat_previous_character(-3);
    assert_eq!(all_text(&negative), vec!["a"]);
}

#[test]
fn reverse_index_moves_up_or_scrolls_back() {
    let mut tty = fed(10, 3, b"1\r\n2\r\n3\r\n4\r\n5");
    assert_eq!(tty.scrollback_start, 2);
    assert_eq!(cursor(&tty), (1, 2));
    tty.insert_bytes(b"\x1BM");
    assert_eq!(cursor(&tty), (1, 1));
    tty.insert_bytes(b"\x1BM");
    assert_eq!(cursor(&tty), (1, 0));
    assert_eq!(tty.scrollback_buffer.len(), 5);
    tty.insert_bytes(b"\x1BM");
    assert_eq!(cursor(&tty), (1, 0));
    assert_eq!(tty.scrollback_start, 1);
    assert_eq!(all_text(&tty), vec!["1", "2", "3", "4"]);
    tty.insert_bytes(b"\x1BM");
    assert_eq!(tty.scrollback_start, 0);
    assert_eq!(all_text(&tty), vec!["1", "2", "3"]);
    tty.insert_bytes(b"\x1BM");
    assert_eq!(tty.scrollback_start, 0);
    assert_eq!(all_text(&tty), vec!["1", "2", "3"]);
    assert_eq!(cursor(&tty), (1, 0));
    assert!(tty.is_well_formed());
}

#[test]
fn a_full_reset_empties_the_terminal() {
    let mut tty = fed(5, 3, b"\x1B[?2004h\x1B[1;31m\x1B[?1h\x1B[?25l\x1B[4hab\r\ncd\r\nef\r\ngh\xE2abcde");
    assert!(tty.bracketed_paste_mode && tty.autowrap && tty.scrollback_start > 0);
    tty.insert_bytes(b"\x1B[c");
    assert_eq!(cursor(&tty), (0, 0));
    assert_eq!(tty.scrollback_start, 0);
    assert!(tty.scrollback_buffer.is_empty());
    assert_eq!(tty.text_style, TextStyle::new());
    assert!(!tty.stomp);
    assert!(!tty.autowrap);
    assert!(!tty.bracketed_paste_mode);
    // What a reset leaves alone.
    assert!(tty.application_cursor_keys);
    assert!(!tty.cursor_visible);
    assert_eq!(tty.insertion_mode, InsertionMode::Insert);
    assert_eq!((tty.size.cols, tty.size.rows), (5, 3));
    assert!(tty.is_well_formed());
}

#[test]
fn a_reset_leaves_the_decoder_in_the_middle_of_its_character() {
    let mut tty = silent(80, 25);
    tty.insert_bytes(&[0xE2, 0x82]);
    tty.apply_sequence_full_reset();
    tty.insert_bytes(&[0xAC]);
    assert_eq!(all_text(&tty), vec!["€"]);
}

#[test]
fn private_modes_switch_their_flags() {
    let mut tty = silent(80, 25);
    tty.insert_bytes(b"\x1B[?2004h\x1B[?1h\x1B[?25l\x1B[?7l");
    assert!(tty.bracketed_paste_mode);
    assert!(tty.application_cursor_keys);
    assert!(!tty.cursor_visible);
    assert!(!tty.autowrap);
    tty.insert_bytes(b"\x1B[?2004l\x1B[?1l\x1B[?25h\x1B[?7h");
    assert!(!tty.bracketed_paste_mode);
    assert!(!tty.application_cursor_keys);
    assert!(tty.cursor_visible);
    assert!(tty.autowrap);
    assert!(tty.scrollback_buffer.is_empty());
}

#[test]
fn unknown_sequences_have_no_effect() {
    let tty = fed(80, 25, b"a\x1B[5zb\x1B[?99hc\x1BZd\x1B(Be");
    assert_eq!(all_text(&tty), vec!["abcde"]);
    assert!(!tty.am_parsing_escape_sequence);
    // Of an unsupported family only the introducer and one more character are taken.
    let osc = fed(80, 25, b"\x1B]0;title\x07x");
    assert_eq!(all_text(&osc), vec![";titlex"]);
}

#[test]
fn an_escape_inside_a_sequence_is_a_character_of_it() {
    let mut tty = silent(80, 25);
    tty.insert_bytes(b"\x1B");
    assert!(tty.am_parsing_escape_sequence);
    tty.insert_bytes(b"[3");
    assert!(tty.am_parsing_escape_sequence);
    tty.insert_bytes(b"\x1B");
    assert!(tty.am_parsing_escape_sequence);
    tty.insert_bytes(b"C");
    assert!(!tty.am_parsing_escape_sequence);
    assert_eq!(cursor(&tty), (3, 0));
}

#[test]
fn invalid_bytes_become_replacement_characters() {
    assert_eq!(all_text(&fed(80, 25, &[b'a', 0xFF, b'b'])), vec!["a\u{FFFD}b"]);
    assert_eq!(all_text(&fed(80, 25, &[0x80, 0xC1, b'b'])), vec!["\u{FFFD}\u{FFFD}b"]);
    assert_eq!(all_text(&fed(80, 25, &[0xE2, 0x28, 0xA1, b'b'])), vec!["\u{FFFD}b"]);
}

#[test]
fn the_invariants_hold_after_every_byte() {
    let input: Vec<u8> = b"\x1B[?7lwide line that is longer than the window\r\n\x1B[4hinsert\rmore and more text\n\n\n\x1B[2;2H\x1B[1J\x1B[5b\x1BM\x1BM\x1BM\x1B[10P\x1B[3J\x1B[99;99H\xF0\x9F\x98\x80\t\t\t\x08\x1B[?7h0123456789\x1B[c\xC0\xFFend"
        .to_vec();
    let mut tty = silent(7, 3);
    for &b in &input {
        tty.insert_byte(b);
        assert!(tty.is_well_formed());
        assert!(0 <= tty.cursor_pos.x && (tty.cursor_pos.x as usize) < tty.size.cols);
        assert!(0 <= tty.cursor_pos.y && (tty.cursor_pos.y as usize) < tty.size.rows);
        assert!(tty.scrollback_buffer.iter().all(|line| line.len() <= tty.size.cols));
        assert!(!tty.stomp || tty.cursor_pos.x as usize == tty.size.cols - 1);
    }
}

#[test]
fn a_terminal_that_was_tampered_with_is_not_well_formed() {
    let mut tty = fed(5, 3, b"abc");
    assert!(tty.is_well_formed());
    tty.cursor_pos.x = 5;
    assert!(!tty.is_well_formed());
    tty.cursor_pos.x = -1;
    assert!(!tty.is_well_formed());
    tty.cursor_pos.x = 0;
    tty.cursor_pos.y = 3;
    assert!(!tty.is_well_formed());
    tty.cursor_pos.y = 0;
    tty.stomp = true;
    assert!(!tty.is_well_formed());
    tty.stomp = false;
    tty.size.cols = 2;
    assert!(!tty.is_well_formed());
    tty.size.cols = 0;
    assert!(!tty.is_well_formed());
    tty.size.cols = 5;
    tty.scrollback_start = usize::MAX;
    assert!(!tty.is_well_formed());
    tty.scrollback_start = 0;
    assert!(tty.is_well_formed());
}

#[test]
fn the_current_line_is_handed_out_for_changing() {
    let mut tty = silent(5, 3);
    tty.set_cursor_pos(0, 1);
    let line = tty.get_current_line_ref();
    assert!(line.is_empty());
    line.push_back(DecoratedChar::new('!', TextStyle::new()));
    assert_eq!(all_text(&tty), vec!["", "!"]);
    tty.ensure_backing_store_for_current_line();
    assert_eq!(tty.scrollback_buffer.len(), 2);
}

#[test]
fn characters_are_handled_one_by_one() {
    let mut tty = silent(5, 3);
    tty.standard_insert_char('a');
    tty.standard_insert_char('\u{1B}');
    assert!(tty.am_parsing_escape_sequence);
    tty.escape_insert_char('[');
    tty.escape_insert_char('C');
    assert!(!tty.am_parsing_escape_sequence);
    tty.standard_insert_char('b');
    tty.handle_c0_control_code('\r');
    assert_eq!(tty.parse_partial_unicode(0xC3), None);
    assert_eq!(tty.parse_partial_unicode(0xA9), Some('é'));
    assert_eq!(all_text(&tty), vec!["a b"]);
    assert_eq!(cursor(&tty), (0, 0));
}

#[test]
fn a_rendition_without_codes_resets_the_style_of_the_terminal() {
    let mut tty = fed(80, 25, b"\x1B[1;4;35;102ma");
    assert_ne!(tty.text_style, TextStyle::new());
    tty.apply_escape_sequence(&EscapeSequence::SelectGraphicRendition(vec![]));
    assert_eq!(tty.text_style, TextStyle::new());
    tty.insert_bytes(b"b");
    assert!(tty.scrollback_buffer[0][0].style.bold);
    assert_eq!(tty.scrollback_buffer[0][1].style, TextStyle::new());
    assert_eq!(cursor(&tty), (2, 0));
    assert!(tty.is_well_formed());
}
