use crate::constants::special_characters::{
    BACKSPACE, BELL, CARRIAGE_RETURN, ESCAPE, FORMFEED, HORIZONTAL_TAB, NEWLINE,
};
use crate::constants::FD_BUFFER_SIZE_BYTES;
use crate::escape_sequence::parser::{EscapeSequenceParser, SequenceFinished};
use crate::escape_sequence::sequence::{
    CharacterSet, EraseInDisplayType, EraseInLineType, EscapeSequence, SetCursorPositionArgs,
    SetOrResetModeType,
};
use crate::lines::{
    delete_from_line, element_mut, erase_line, grid_view, lemma_grid_update, write_into_line,
};
use crate::model::{all_fit, clamp, empty_lines, least, InsertionMode, TtyModel};
use crate::shell_layer::ShellLayer;
use crate::text_styles::decorated_char::DecoratedChar;
use crate::text_styles::text_style::TextStyle;
use crate::unicode::Utf8Decoder;
use std::collections::VecDeque;
use vstd::prelude::*;

verus! {

/// The size of the window, in characters.
#[derive(Clone, Copy, Debug, PartialEq, Eq, Structural)]
pub struct TtySize {
    pub cols: usize,
    pub rows: usize,
}

/// The place of the cursor inside the window, counted from 0.
#[derive(Clone, Copy, Debug, PartialEq, Eq, Structural)]
pub struct CursorPosition {
    pub x: isize,
    pub y: isize,
}

/// A line of the grid.
pub type LineType = VecDeque<DecoratedChar>;

/// All lines of the grid, oldest first.
pub type ScrollbackBufferType = VecDeque<LineType>;

/// The terminal: the grid that the front end draws, and everything that decides
/// what the bytes from the shell do to it.
pub struct TtyState {
    pub size: TtySize,
    pub cursor_pos: CursorPosition,
    pub cursor_visible: bool,
    /// The index of the line that is shown in the top row of the window.
    pub scrollback_start: usize,
    pub scrollback_buffer: ScrollbackBufferType,
    pub bracketed_paste_mode: bool,
    pub character_set: CharacterSet,
    /// What the last read from the shell brought.
    pub read_buffer: [u8; FD_BUFFER_SIZE_BYTES],
    /// How many bytes of `read_buffer` the last read filled.
    pub read_buffer_length: usize,
    pub shell_layer: Box<dyn ShellLayer>,
    pub decoder: Utf8Decoder,
    pub previously_inserted_character: char,
    pub insertion_mode: InsertionMode,
    pub escape_sequence_parser: EscapeSequenceParser,
    pub am_parsing_escape_sequence: bool,
    pub text_style: TextStyle,
    /// Set when a character was printed in the last column. The cursor waits
    /// there, so that a line as wide as the window does not bring an empty line
    /// after it; the next printed character wraps first.
    pub stomp: bool,
    /// Whether a character printed after the last column goes to the next line.
    pub autowrap: bool,
    /// Whether the cursor keys send their application form.
    pub application_cursor_keys: bool,
}

impl View for TtyState {
    type V = TtyModel;

    open spec fn view(&self) -> TtyModel {
        TtyModel {
            cols: self.size.cols as int,
            rows: self.size.rows as int,
            x: self.cursor_pos.x as int,
            y: self.cursor_pos.y as int,
            cursor_visible: self.cursor_visible,
            scrollback_start: self.scrollback_start as int,
            lines: grid_view(self.scrollback_buffer),
            bracketed_paste_mode: self.bracketed_paste_mode,
            character_set: self.character_set,
            decoder: self.decoder@,
            previous: self.previously_inserted_character,
            insertion_mode: self.insertion_mode,
            parser: self.escape_sequence_parser@,
            parsing: self.am_parsing_escape_sequence,
            style: self.text_style,
            stomp: self.stomp,
            autowrap: self.autowrap,
            application_cursor_keys: self.application_cursor_keys,
            read_buffer: self.read_buffer@,
            read_buffer_length: self.read_buffer_length as int,
        }
    }
}

/// The sum of two numbers, kept inside the range of `isize`.
fn add_saturating(a: isize, b: isize) -> (sum: isize)
    ensures
        sum == clamp(a + b, isize::MIN as int, isize::MAX as int),
{
    match a.checked_add(b) {
        Some(sum) => sum,
        None => if b > 0 {
            isize::MAX
        } else {
            isize::MIN
        },
    }
}

/// The difference of two numbers, kept inside the range of `isize`.
fn sub_saturating(a: isize, b: isize) -> (difference: isize)
    ensures
        difference == clamp(a - b, isize::MIN as int, isize::MAX as int),
{
    match a.checked_sub(b) {
        Some(difference) => difference,
        None => if b > 0 {
            isize::MIN
        } else {
            isize::MAX
        },
    }
}

/// A count as a signed number, kept inside the range of `isize`.
fn to_signed(n: usize) -> (signed: isize)
    ensures
        signed == least(n as int, isize::MAX as int),
{
    if n > isize::MAX as usize {
        isize::MAX
    } else {
        n as isize
    }
}

impl TtyState {
    /// What holds of the terminal between any two operations: the invariants of
    /// the model, and the sizes and line numbers fit the machine's integers.
    pub open spec fn wf(&self) -> bool {
        &&& self@.wf()
        &&& self.size.cols <= isize::MAX
        &&& self.size.rows <= isize::MAX
        &&& self.scrollback_start + self.size.rows - 1 <= usize::MAX
    }

    /// Tells whether the terminal is well formed: whether its numbers are such
    /// that every operation may be called on it.
    pub fn is_well_formed(&self) -> (ok: bool)
        ensures
            ok == self.wf(),
    {
        let cols: usize = self.size.cols;
        let rows: usize = self.size.rows;
        if cols < 1 || rows < 1 || cols > isize::MAX as usize || rows > isize::MAX as usize {
            return false;
        }
        let x: isize = self.cursor_pos.x;
        let y: isize = self.cursor_pos.y;
        if x < 0 || y < 0 || x as usize >= cols || y as usize >= rows {
            return false;
        }
        if self.scrollback_start > usize::MAX - (rows - 1) {
            return false;
        }
        if self.stomp && x as usize != cols - 1 {
            return false;
        }
        if !self.decoder.is_well_formed() {
            return false;
        }
        let mut i: usize = 0;
        while i < self.scrollback_buffer.len()
            invariant
                i <= self.scrollback_buffer@.len(),
                cols == self.size.cols,
                forall|k: int| 0 <= k < i ==> (#[trigger] self@.lines[k]).len() <= cols,
            decreases self.scrollback_buffer.len() - i,
        {
            if self.scrollback_buffer[i].len() > cols {
                assert(!all_fit(self@.lines, cols as int)) by {
                    reveal(all_fit);
                    assert(self@.lines[i as int].len() > cols);
                }
                return false;
            }
            i += 1;
        }
        assert(all_fit(self@.lines, cols as int)) by {
            reveal(all_fit);
        }
        true
    }

    fn row_index(&self) -> (row: usize)
        requires
            self.wf(),
        ensures
            row == self@.row(),
    {
        self.scrollback_start + self.cursor_pos.y as usize
    }

    /// Moves the cursor to the place nearest to `(x, y)` inside the window, and
    /// clears `stomp`.
    pub fn set_cursor_pos(&mut self, x: isize, y: isize)
        requires
            old(self).wf(),
        ensures
            final(self)@ == old(self)@.move_cursor(x as int, y as int),
            final(self).wf(),
    {
        let max_x: isize = self.size.cols as isize - 1;
        let max_y: isize = self.size.rows as isize - 1;
        self.cursor_pos.x = if x < 0 {
            0
        } else if x > max_x {
            max_x
        } else {
            x
        };
        self.cursor_pos.y = if y < 0 {
            0
        } else if y > max_y {
            max_y
        } else {
            y
        };
        self.stomp = false;
    }

    /// Adds empty lines at the end of the buffer until the cursor's line exists.
    pub fn ensure_backing_store_for_current_line(&mut self)
        requires
            old(self).wf(),
        ensures
            final(self)@ == old(self)@.with_backing_line(),
            final(self).wf(),
            final(self).scrollback_buffer@.len() > final(self)@.row(),
    {
        let cursor_line: usize = self.row_index();
        while self.scrollback_buffer.len() <= cursor_line
            invariant
                cursor_line == old(self)@.row(),
                self.scrollback_buffer@.len() >= old(self).scrollback_buffer@.len(),
                old(self).scrollback_buffer@.len() <= cursor_line ==> self.scrollback_buffer@.len()
                    <= cursor_line + 1,
                old(self).scrollback_buffer@.len() > cursor_line ==> self.scrollback_buffer@.len()
                    == old(self).scrollback_buffer@.len(),
                self@ == (TtyModel {
                    lines: old(self)@.lines + empty_lines(
                        self.scrollback_buffer@.len() - old(self).scrollback_buffer@.len(),
                    ),
                    ..old(self)@
                }),
            decreases cursor_line + 1 - self.scrollback_buffer.len(),
        {
            let ghost before = self.scrollback_buffer;
            self.scrollback_buffer.push_back(VecDeque::new());
            proof {
                assert(grid_view(self.scrollback_buffer) =~= grid_view(before).push(
                    Seq::<DecoratedChar>::empty(),
                ));
                assert(self@.lines =~= old(self)@.lines + empty_lines(
                    self.scrollback_buffer@.len() - old(self).scrollback_buffer@.len(),
                ));
            }
        }
        proof {
            if old(self).scrollback_buffer@.len() > cursor_line {
                assert(self@.lines =~= old(self)@.lines);
            }
            old(self)@.lemma_with_backing_line();
        }
    }

    /// Makes the cursor's line exist and hands it out for changing. What the
    /// caller leaves in the line is the cursor's line afterwards, and the terminal
    /// stays well formed where that is no wider than the window.
    pub fn get_current_line_ref(&mut self) -> (line: &mut LineType)
        requires
            old(self).wf(),
        ensures
            line@ == old(self)@.with_backing_line().lines[old(self)@.row()],
            final(self)@ == old(self)@.with_backing_line().with_current_line(final(line)@),
            final(line)@.len() <= old(self).size.cols ==> final(self).wf(),
    {
        self.ensure_backing_store_for_current_line();
        let row: usize = self.row_index();
        let ghost ready = self.scrollback_buffer;
        let ghost model = self@;
        let line = element_mut(&mut self.scrollback_buffer, row);
        proof {
            assert(grid_view(after_borrow(self.scrollback_buffer)) =~~= grid_view(ready).update(
                row as int,
                final(line)@,
            ));
            assert forall|written: Seq<DecoratedChar>| written.len() <= model.cols implies (
            #[trigger] model.with_current_line(written)).wf() by {
                model.lemma_with_current_line(written);
            }
        }
        line
    }

    /// A terminal of the given size with an empty grid, that talks to the shell
    /// through `shell_layer`.
    pub fn new(cols: usize, rows: usize, shell_layer: Box<dyn ShellLayer>) -> (tty: Self)
        requires
            1 <= cols <= isize::MAX,
            1 <= rows <= isize::MAX,
        ensures
            tty@ == TtyModel::fresh(cols as int, rows as int),
            tty.wf(),
    {
        let size = TtySize { cols, rows };
        let tty = TtyState {
            size,
            cursor_pos: CursorPosition { x: 0, y: 0 },
            cursor_visible: true,
            scrollback_start: 0,
            scrollback_buffer: VecDeque::new(),
            bracketed_paste_mode: false,
            character_set: CharacterSet::UnitedStatesASCII,
            read_buffer: [0;FD_BUFFER_SIZE_BYTES],
            read_buffer_length: 0,
            shell_layer,
            decoder: Utf8Decoder::new(),
            previously_inserted_character: ' ',
            insertion_mode: InsertionMode::Replace,
            escape_sequence_parser: EscapeSequenceParser::new(),
            am_parsing_escape_sequence: false,
            text_style: TextStyle::new(),
            stomp: false,
            autowrap: true,
            application_cursor_keys: false,
        };
        proof {
            reveal(all_fit);
            assert(tty@.lines =~= Seq::<Seq<DecoratedChar>>::empty());
            assert(tty@.read_buffer =~= TtyModel::fresh(cols as int, rows as int).read_buffer);
        }
        tty
    }
}

} // verus!

verus! {

impl TtyState {
    /// Lets a control character act: backspace, carriage return and tab move the
    /// cursor inside its row; bell and form feed do nothing.
    pub fn handle_c0_control_code(&mut self, c: char)
        requires
            old(self).wf(),
        ensures
            final(self)@ == old(self)@.control(c),
            final(self).wf(),
    {
        let x: isize = self.cursor_pos.x;
        let y: isize = self.cursor_pos.y;
        if c == BACKSPACE {
            self.set_cursor_pos(x - 1, y);
        } else if c == CARRIAGE_RETURN {
            self.set_cursor_pos(0, y);
        } else if c == HORIZONTAL_TAB {
            // The next column that is a multiple of 8.
            self.set_cursor_pos(add_saturating(x, 8 - (x % 8)), y);
        }
        assert(self@ == old(self)@.control(c)) by {
            reveal(TtyModel::control);
        }
    }

    /// Moves the cursor to the first column of the next row, or scrolls the
    /// window where the cursor is on the last row.
    fn to_next_row(&mut self)
        requires
            old(self).wf(),
            old(self).scrollback_buffer@.len() > old(self)@.row(),
        ensures
            final(self)@ == (if old(self)@.y + 1 >= old(self)@.rows {
                TtyModel {
                    x: 0,
                    stomp: false,
                    scrollback_start: old(self)@.scrollback_start + 1,
                    ..old(self)@
                }
            } else {
                TtyModel { x: 0, y: old(self)@.y + 1, stomp: false, ..old(self)@ }
            }),
            final(self).wf(),
    {
        let lines: usize = self.scrollback_buffer.len();
        assert(self.scrollback_start < lines);
        let y: isize = self.cursor_pos.y;
        let start: usize = self.scrollback_start;
        // If we're pushed too low, scroll
        let scrolls: bool = y as usize + 1 >= self.size.rows;
        let next_y: isize = if scrolls {
            y
        } else {
            y + 1
        };
        let next_start: usize = if scrolls {
            start + 1
        } else {
            start
        };
        self.stomp = false;
        self.cursor_pos = CursorPosition { x: 0, y: next_y };
        self.scrollback_start = next_start;
    }

    /// Moves the cursor to the first column of the next row, scrolling the window
    /// where the cursor is on the last row, and makes the new line exist.
    fn line_feed(&mut self)
        requires
            old(self).wf(),
            old(self).scrollback_buffer@.len() > old(self)@.row(),
        ensures
            final(self)@ == old(self)@.line_feed(),
            final(self).wf(),
            final(self).scrollback_buffer@.len() > final(self)@.row(),
    {
        self.to_next_row();
        self.ensure_backing_store_for_current_line();
        assert(self@ == old(self)@.line_feed()) by {
            reveal(TtyModel::line_feed);
        }
    }

    /// Puts a character into the cursor's line at the cursor.
    fn write_at_cursor(&mut self, c: char)
        requires
            old(self).wf(),
            old(self).scrollback_buffer@.len() > old(self)@.row(),
        ensures
            final(self)@ == old(self)@.with_current_line(old(self)@.line_with(c)),
    {
        let row: usize = self.row_index();
        let x: usize = self.cursor_pos.x as usize;
        let ghost before = self.scrollback_buffer;
        write_into_line(
            element_mut(&mut self.scrollback_buffer, row),
            x,
            self.size.cols,
            c,
            self.text_style,
            self.insertion_mode,
        );
        proof {
            lemma_grid_update(before, self.scrollback_buffer, row as int);
        }
    }

    /// Puts a character at the cursor and moves the cursor on, or sets `stomp` in
    /// the last column.
    fn put_char(&mut self, c: char)
        requires
            old(self).wf(),
            old(self).scrollback_buffer@.len() > old(self)@.row(),
        ensures
            final(self)@ == old(self)@.put(c),
            final(self).wf(),
            final(self).scrollback_buffer@.len() > final(self)@.row(),
    {
        let x: isize = self.cursor_pos.x;
        let at_last_column: bool = x as usize == self.size.cols - 1;
        self.write_at_cursor(c);
        // In the last column the cursor waits for the next character.
        let next_x: isize = if at_last_column {
            x
        } else {
            x + 1
        };
        self.stomp = self.stomp || at_last_column;
        self.cursor_pos.x = next_x;
        assert(self@ == old(self)@.put(c)) by {
            reveal(TtyModel::put);
        }
        assert(self.wf() && self.scrollback_buffer@.len() > self@.row()) by {
            old(self)@.lemma_put(c);
        }
    }

    /// Prints a character that is no control character: a newline is a line feed;
    /// any other character is put at the cursor, after a line feed where the
    /// cursor waited in the last column and wrapping is on.
    fn print_char(&mut self, c: char)
        requires
            old(self).wf(),
            old(self).scrollback_buffer@.len() > old(self)@.row(),
        ensures
            final(self)@ == old(self)@.print(c),
            final(self).wf(),
            final(self).scrollback_buffer@.len() > final(self)@.row(),
    {
        let cursor_needs_to_wrap: bool = self.cursor_pos.x as usize >= self.size.cols - 1
            && self.stomp;
        if c == NEWLINE || (cursor_needs_to_wrap && self.autowrap) {
            self.line_feed();
            if c == NEWLINE {
                return ;
            }
        }
        self.put_char(c);
    }

    /// Handles a character outside an escape sequence. `ESC` begins a sequence.
    /// A control character moves the cursor. A newline is a line feed. Any other
    /// character is printed at the cursor in the current style, on the next line
    /// where the cursor waited in the last column and wrapping is on.
    pub fn standard_insert_char(&mut self, c: char)
        requires
            old(self).wf(),
        ensures
            final(self)@ == old(self)@.standard_insert(c),
            final(self).wf(),
            c != ESCAPE ==> final(self).scrollback_buffer@.len() > final(self)@.row(),
    {
        if c == ESCAPE {
            self.escape_sequence_parser = EscapeSequenceParser::new();
            self.am_parsing_escape_sequence = true;
            assert(self@ == old(self)@.standard_insert(c)) by {
                reveal(TtyModel::standard_insert);
            }
            assert(self.wf()) by {
                old(self)@.lemma_standard_insert(c);
            }
            return ;
        }
        self.ensure_backing_store_for_current_line();
        self.previously_inserted_character = c;
        assert(self.wf()) by {
            assert(self@.lines == old(self)@.with_backing_line().lines);
        }
        if c == BACKSPACE || c == CARRIAGE_RETURN || c == HORIZONTAL_TAB || c == BELL || c
            == FORMFEED {
            self.handle_c0_control_code(c);
        } else {
            self.print_char(c);
        }
        assert(self@ == old(self)@.standard_insert(c)) by {
            reveal(TtyModel::standard_insert);
        }
        assert(self.scrollback_buffer@.len() > self@.row()) by {
            old(self)@.lemma_standard_insert(c);
        }
    }

    /// Erases part of the cursor's line, which is made to exist first.
    pub fn apply_sequence_erase_in_line(&mut self, erase_type: &EraseInLineType)
        requires
            old(self).wf(),
        ensures
            final(self)@ == old(self)@.erase_in_line(*erase_type),
            final(self).wf(),
            final(self).scrollback_buffer@.len() > final(self)@.row(),
    {
        let cursor_x: usize = self.cursor_pos.x as usize;
        let line = self.get_current_line_ref();
        erase_line(line, cursor_x, erase_type);
        assert(self@ == old(self)@.erase_in_line(*erase_type)) by {
            reveal(TtyModel::erase_in_line);
        }
        assert(self.wf() && self.scrollback_buffer@.len() > self@.row()) by {
            old(self)@.lemma_erase_in_line(*erase_type);
        }
    }

    /// Removes the lines after the cursor's line.
    fn remove_lines_below(&mut self)
        requires
            old(self).wf(),
            old(self).scrollback_buffer@.len() > old(self)@.row(),
        ensures
            final(self)@ == old(self)@.without_lines_below(),
            final(self).wf(),
            final(self).scrollback_buffer@.len() > final(self)@.row(),
    {
        let lines: usize = self.scrollback_buffer.len();
        let keep: usize = self.row_index() + 1;
        self.scrollback_buffer.truncate(keep);
        assert(self@ == old(self)@.without_lines_below()) by {
            assert(self@.lines =~= old(self)@.without_lines_below().lines);
        }
        assert(self.wf()) by {
            old(self)@.lemma_without_lines_below();
        }
    }

    /// Empties the lines of the window above the cursor's line.
    fn clear_lines_above(&mut self)
        requires
            old(self).wf(),
            old(self).scrollback_buffer@.len() > old(self)@.row(),
        ensures
            final(self)@ == old(self)@.with_lines_above_cleared(),
            final(self).wf(),
    {
        let row: usize = self.row_index();
        let mut i: usize = self.scrollback_start;
        while i < row
            invariant
                old(self).scrollback_start <= i <= row == old(self)@.row(),
                self.scrollback_buffer@.len() == old(self).scrollback_buffer@.len() > row,
                forall|k: int|
                    0 <= k < self.scrollback_buffer@.len() ==> #[trigger] self.scrollback_buffer@[k]@
                        == (if old(self).scrollback_start <= k < i {
                        Seq::<DecoratedChar>::empty()
                    } else {
                        old(self).scrollback_buffer@[k]@
                    }),
                self@ == (TtyModel { lines: self@.lines, ..old(self)@ }),
            decreases row - i,
        {
            element_mut(&mut self.scrollback_buffer, i).clear();
            i += 1;
        }
        assert(self@ == old(self)@.with_lines_above_cleared()) by {
            assert(self@.lines =~= old(self)@.with_lines_above_cleared().lines);
        }
        assert(self.wf()) by {
            old(self)@.lemma_with_lines_above_cleared();
        }
    }

    /// Removes every line and lets the window begin at the first line again.
    fn clear_scrollback(&mut self)
        requires
            old(self).wf(),
        ensures
            final(self)@ == (TtyModel {
                lines: Seq::empty(),
                scrollback_start: 0,
                ..old(self)@
            }),
            final(self).wf(),
    {
        self.scrollback_buffer.clear();
        self.scrollback_start = 0;
        assert(self@.lines =~= Seq::<Seq<DecoratedChar>>::empty());
        assert(self.wf()) by {
            reveal(all_fit);
        }
    }

    /// Erases part of the screen: from the cursor to the end, from the start to
    /// the cursor, all of the window, or every line with the scrollback.
    pub fn apply_sequence_erase_in_display(&mut self, erase_type: &EraseInDisplayType)
        requires
            old(self).wf(),
        ensures
            final(self)@ == old(self)@.erase_in_display(*erase_type),
            final(self).wf(),
    {
        match erase_type {
            EraseInDisplayType::ToEndOfScreen => {
                self.apply_sequence_erase_in_line(&EraseInLineType::ToEndOfLine);
                self.remove_lines_below();
            },
            EraseInDisplayType::ToStartOfScreen => {
                self.apply_sequence_erase_in_line(&EraseInLineType::ToStartOfLine);
                self.clear_lines_above();
            },
            EraseInDisplayType::EntireScreen => {
                self.apply_sequence_erase_in_line(&EraseInLineType::ToEndOfLine);
                self.remove_lines_below();
                self.apply_sequence_erase_in_line(&EraseInLineType::ToStartOfLine);
                self.clear_lines_above();
            },
            EraseInDisplayType::EntireScreenAndScrollbackBuffer => {
                self.clear_scrollback();
            },
        }
        assert(self@ == old(self)@.erase_in_display(*erase_type)) by {
            reveal(TtyModel::erase_in_display);
        }
    }

    /// Removes `count` characters at the cursor from the cursor's line, or as
    /// many as stand there. A negative count does nothing.
    pub fn apply_sequence_delete_characters(&mut self, count: isize)
        requires
            old(self).wf(),
        ensures
            final(self)@ == old(self)@.delete_characters(count as int),
            final(self).wf(),
    {
        if count >= 0 {
            let cursor_x: usize = self.cursor_pos.x as usize;
            let line = self.get_current_line_ref();
            delete_from_line(line, cursor_x, count as usize);
        }
        assert(self@ == old(self)@.delete_characters(count as int)) by {
            reveal(TtyModel::delete_characters);
        }
        assert(self.wf()) by {
            old(self)@.lemma_delete_characters(count as int);
        }
    }

    /// Inserts the character that was inserted last `count` more times.
    pub fn apply_sequence_repeat_previous_character(&mut self, count: isize)
        requires
            old(self).wf(),
        ensures
            final(self)@ == old(self)@.repeat_previous(count as int),
            final(self).wf(),
    {
        if count <= 0 {
            return ;
        }
        let mut done: isize = 0;
        while done < count
            invariant
                0 <= done <= count,
                self@ == old(self)@.repeat_previous(done as int),
                self.wf(),
            decreases count - done,
        {
            self.standard_insert_char(self.previously_inserted_character);
            done += 1;
        }
    }

    /// Sets a mode: the insertion mode that goes with it.
    pub fn apply_sequence_set_mode(&mut self, mode: &SetOrResetModeType)
        requires
            old(self).wf(),
        ensures
            final(self)@ == (TtyModel {
                insertion_mode: TtyModel::mode_when_set(*mode),
                ..old(self)@
            }),
            final(self).wf(),
    {
        self.insertion_mode =
        match mode {
            SetOrResetModeType::AutomaticNewline => InsertionMode::Replace,
            SetOrResetModeType::InsertionReplacement => InsertionMode::Insert,
        };
    }

    /// Resets a mode: the other insertion mode than the one that goes with it.
    pub fn apply_sequence_reset_mode(&mut self, mode: &SetOrResetModeType)
        requires
            old(self).wf(),
        ensures
            final(self)@ == (TtyModel {
                insertion_mode: TtyModel::mode_when_reset(*mode),
                ..old(self)@
            }),
            final(self).wf(),
    {
        self.insertion_mode =
        match mode {
            SetOrResetModeType::AutomaticNewline => InsertionMode::Insert,
            SetOrResetModeType::InsertionReplacement => InsertionMode::Replace,
        };
    }

    /// Empties the grid and puts the cursor, the style and the modes of printing
    /// back to nothing. The decoder and the parser are left as they are.
    pub fn apply_sequence_full_reset(&mut self)
        requires
            old(self).wf(),
        ensures
            final(self)@ == old(self)@.full_reset(),
            final(self).wf(),
    {
        self.cursor_pos = CursorPosition { x: 0, y: 0 };
        self.scrollback_start = 0;
        self.scrollback_buffer = VecDeque::new();
        self.bracketed_paste_mode = false;
        self.text_style = TextStyle::new();
        self.stomp = false;
        self.autowrap = false;
        assert(self@ == old(self)@.full_reset()) by {
            reveal(TtyModel::full_reset);
            assert(self@.lines =~= Seq::<Seq<DecoratedChar>>::empty());
        }
        assert(self.wf()) by {
            old(self)@.lemma_full_reset();
        }
    }

    /// Moves the cursor up one row; on the top row the window moves up one line
    /// and the last line is dropped, unless the window is at the first line.
    pub fn apply_sequence_move_cursor_up_scrolling_if_necessary(&mut self)
        requires
            old(self).wf(),
        ensures
            final(self)@ == old(self)@.reverse_index(),
            final(self).wf(),
    {
        if self.cursor_pos.y == 0 {
            if self.scrollback_start != 0 {
                self.scrollback_start -= 1;
                self.scrollback_buffer.pop_back();
            }
        } else {
            let x: isize = self.cursor_pos.x;
            let y: isize = self.cursor_pos.y;
            self.set_cursor_pos(x, y - 1);
        }
        assert(self@ == old(self)@.reverse_index()) by {
            reveal(TtyModel::reverse_index);
            assert(self@.lines =~= old(self)@.reverse_index().lines);
        }
        assert(self.wf()) by {
            old(self)@.lemma_reverse_index();
        }
    }

    /// Moves the cursor to a row and a column that are counted from 1.
    pub fn apply_sequence_set_cursor_position(&mut self, args: &SetCursorPositionArgs)
        requires
            old(self).wf(),
        ensures
            final(self)@ == old(self)@.move_cursor(args.x - 1, args.y - 1),
            final(self).wf(),
    {
        self.set_cursor_pos(to_signed(args.x) - 1, to_signed(args.y) - 1)
    }

    /// Applies a sequence that does nothing but move the cursor.
    fn apply_motion(&mut self, seq: &EscapeSequence)
        requires
            old(self).wf(),
            TtyModel::is_motion(seq@),
        ensures
            final(self)@ == old(self)@.apply(seq@),
            final(self).wf(),
    {
        let x: isize = self.cursor_pos.x;
        let y: isize = self.cursor_pos.y;
        match seq {
            EscapeSequence::MoveCursorUp(n) => self.set_cursor_pos(x, sub_saturating(y, *n)),
            EscapeSequence::MoveCursorDown(n) => self.set_cursor_pos(x, add_saturating(y, *n)),
            EscapeSequence::MoveCursorForward(n) => self.set_cursor_pos(add_saturating(x, *n), y),
            EscapeSequence::MoveCursorBack(n) => self.set_cursor_pos(sub_saturating(x, *n), y),
            EscapeSequence::MoveCursorToNextLine(n) => self.set_cursor_pos(
                0,
                add_saturating(y, *n),
            ),
            EscapeSequence::MoveCursorToPreviousLine(n) => self.set_cursor_pos(
                0,
                sub_saturating(y, *n),
            ),
            EscapeSequence::MoveCursorHorizontalAbsolute(n) => self.set_cursor_pos(*n, y),
            EscapeSequence::SetCursorPosition(p) => self.apply_sequence_set_cursor_position(p),
            _ => {},
        }
        assert(self@ == old(self)@.apply(seq@)) by {
            reveal(TtyModel::apply);
        }
    }

    fn set_bracketed_paste_mode(&mut self, on: bool)
        requires
            old(self).wf(),
        ensures
            final(self)@ == (TtyModel { bracketed_paste_mode: on, ..old(self)@ }),
            final(self).wf(),
    {
        self.bracketed_paste_mode = on;
    }

    fn set_autowrap(&mut self, on: bool)
        requires
            old(self).wf(),
        ensures
            final(self)@ == (TtyModel { autowrap: on, ..old(self)@ }),
            final(self).wf(),
    {
        self.autowrap = on;
    }

    fn set_application_cursor_keys(&mut self, on: bool)
        requires
            old(self).wf(),
        ensures
            final(self)@ == (TtyModel { application_cursor_keys: on, ..old(self)@ }),
            final(self).wf(),
    {
        self.application_cursor_keys = on;
    }

    fn set_cursor_visible(&mut self, on: bool)
        requires
            old(self).wf(),
        ensures
            final(self)@ == (TtyModel { cursor_visible: on, ..old(self)@ }),
            final(self).wf(),
    {
        self.cursor_visible = on;
    }

    fn set_character_set(&mut self, set: CharacterSet)
        requires
            old(self).wf(),
        ensures
            final(self)@ == (TtyModel { character_set: set, ..old(self)@ }),
            final(self).wf(),
    {
        self.character_set = set;
    }

    fn apply_rendition(&mut self, seq: &EscapeSequence)
        requires
            old(self).wf(),
        ensures
            final(self)@ == (TtyModel {
                style: old(self)@.style.with_sequence(seq@),
                ..old(self)@
            }),
            final(self).wf(),
    {
        self.text_style.apply_escape_sequence(seq);
    }

    /// Applies a sequence that switches a flag on or off.
    fn apply_flag(&mut self, seq: &EscapeSequence)
        requires
            old(self).wf(),
            TtyModel::is_flag(seq@),
        ensures
            final(self)@ == old(self)@.apply(seq@),
            final(self).wf(),
    {
        match seq {
            EscapeSequence::PrivateEnableBracketedPasteMode => self.set_bracketed_paste_mode(true),
            EscapeSequence::PrivateDisableBracketedPasteMode => self.set_bracketed_paste_mode(
                false,
            ),
            EscapeSequence::EnableAutoWrapMode => self.set_autowrap(true),
            EscapeSequence::DisableAutoWrapMode => self.set_autowrap(false),
            EscapeSequence::SwitchToApplicationCursorKeys => self.set_application_cursor_keys(
                true,
            ),
            EscapeSequence::SwitchToNormalCursorKeys => self.set_application_cursor_keys(false),
            EscapeSequence::ShowCursor => self.set_cursor_visible(true),
            EscapeSequence::HideCursor => self.set_cursor_visible(false),
            _ => {},
        }
        assert(self@ == old(self)@.apply(seq@)) by {
            reveal(TtyModel::apply);
        }
    }

    /// Applies a sequence that sets the style or a mode.
    fn apply_switch(&mut self, seq: &EscapeSequence)
        requires
            old(self).wf(),
            !TtyModel::is_motion(seq@),
            !TtyModel::is_edit(seq@),
        ensures
            final(self)@ == old(self)@.apply(seq@),
            final(self).wf(),
    {
        match seq {
            EscapeSequence::SelectGraphicRendition(_) => {
                self.apply_rendition(seq);
                assert(self@ == old(self)@.apply(seq@)) by {
                    reveal(TtyModel::apply);
                }
            },
            EscapeSequence::SetMode(m) => {
                self.apply_sequence_set_mode(m);
                assert(self@ == old(self)@.apply(seq@)) by {
                    reveal(TtyModel::apply);
                }
            },
            EscapeSequence::ResetMode(m) => {
                self.apply_sequence_reset_mode(m);
                assert(self@ == old(self)@.apply(seq@)) by {
                    reveal(TtyModel::apply);
                }
            },
            EscapeSequence::DesignateG0CharacterSet(cs) => {
                self.set_character_set(*cs);
                assert(self@ == old(self)@.apply(seq@)) by {
                    reveal(TtyModel::apply);
                }
            },
            _ => self.apply_flag(seq),
        }
    }

    /// Applies a sequence that changes the grid.
    fn apply_edit(&mut self, seq: &EscapeSequence)
        requires
            old(self).wf(),
            TtyModel::is_edit(seq@),
        ensures
            final(self)@ == old(self)@.apply(seq@),
            final(self).wf(),
    {
        match seq {
            EscapeSequence::EraseInDisplay(e) => self.apply_sequence_erase_in_display(e),
            EscapeSequence::EraseInLine(e) => self.apply_sequence_erase_in_line(e),
            EscapeSequence::FullReset => self.apply_sequence_full_reset(),
            EscapeSequence::MoveCursorUpScrollingIfNecessary => {
                self.apply_sequence_move_cursor_up_scrolling_if_necessary()
            },
            EscapeSequence::DeleteCharacters(n) => self.apply_sequence_delete_characters(*n),
            EscapeSequence::RepeatPreviousCharacter(n) => {
                self.apply_sequence_repeat_previous_character(*n)
            },
            _ => {},
        }
        assert(self@ == old(self)@.apply(seq@)) by {
            old(self)@.lemma_apply_edit_unfolds(seq@);
        }
    }

    /// Applies a complete escape sequence to the terminal.
    pub fn apply_escape_sequence(&mut self, seq: &EscapeSequence)
        requires
            old(self).wf(),
        ensures
            final(self)@ == old(self)@.apply(seq@),
            final(self).wf(),
    {
        match seq {
            EscapeSequence::MoveCursorUp(_)
            | EscapeSequence::MoveCursorDown(_)
            | EscapeSequence::MoveCursorForward(_)
            | EscapeSequence::MoveCursorBack(_)
            | EscapeSequence::MoveCursorToNextLine(_)
            | EscapeSequence::MoveCursorToPreviousLine(_)
            | EscapeSequence::MoveCursorHorizontalAbsolute(_)
            | EscapeSequence::SetCursorPosition(_) => self.apply_motion(seq),
            EscapeSequence::EraseInDisplay(_)
            | EscapeSequence::EraseInLine(_)
            | EscapeSequence::FullReset
            | EscapeSequence::MoveCursorUpScrollingIfNecessary
            | EscapeSequence::DeleteCharacters(_)
            | EscapeSequence::RepeatPreviousCharacter(_) => self.apply_edit(seq),
            _ => self.apply_switch(seq),
        }
    }

    /// Hands a character of an escape sequence to the parser, and applies the
    /// sequence when the parser has it complete.
    pub fn escape_insert_char(&mut self, c: char)
        requires
            old(self).wf(),
        ensures
            final(self)@ == old(self)@.escape_insert(c),
            final(self).wf(),
    {
        match self.escape_sequence_parser.parse_character(c) {
            SequenceFinished::No => {
                self.am_parsing_escape_sequence = true;
            },
            SequenceFinished::Yes(parse_result) => {
                if let Some(sequence) = parse_result {
                    self.apply_escape_sequence(&sequence);
                }
                self.am_parsing_escape_sequence = false;
            },
        }
        assert(self.wf()) by {
            old(self)@.lemma_escape_insert(c);
        }
    }

    /// Hands a byte to the decoder and returns the character that it completes,
    /// if it completes one.
    pub fn parse_partial_unicode(&mut self, b: u8) -> (completed: Option<char>)
        requires
            old(self).wf(),
        ensures
            (final(self)@.decoder, completed) == old(self)@.decoder.step(b),
            final(self)@ == (TtyModel { decoder: final(self)@.decoder, ..old(self)@ }),
            final(self).wf(),
    {
        self.decoder.decode_byte(b)
    }

    /// Takes one byte from the shell: decodes it, and lets the character that it
    /// completes act on the terminal.
    pub fn insert_byte(&mut self, next_byte: u8)
        requires
            old(self).wf(),
        ensures
            final(self)@ == old(self)@.insert_byte(next_byte),
            final(self).wf(),
    {
        if let Some(parsed_char) = self.parse_partial_unicode(next_byte) {
            if self.am_parsing_escape_sequence {
                self.escape_insert_char(parsed_char);
            } else {
                self.standard_insert_char(parsed_char);
            }
        }
    }

    /// Takes a run of bytes from the shell, in order.
    pub fn insert_bytes(&mut self, bytes: &[u8])
        requires
            old(self).wf(),
        ensures
            final(self)@ == old(self)@.feed(bytes@),
            final(self).wf(),
    {
        let mut i: usize = 0;
        while i < bytes.len()
            invariant
                i <= bytes.len(),
                self@ == old(self)@.feed(bytes@.take(i as int)),
                self.wf(),
            decreases bytes.len() - i,
        {
            proof {
                assert(bytes@.take(i + 1).drop_last() == bytes@.take(i as int));
            }
            self.insert_byte(bytes[i]);
            i += 1;
        }
        proof {
            assert(bytes@.take(i as int) == bytes@);
        }
    }

    /// Reads once from the shell and takes the bytes that came. Whatever the
    /// shell layer hands back, the terminal afterwards is the terminal before fed
    /// with the bytes that the read left in the read buffer.
    pub fn read(&mut self)
        requires
            old(self).wf(),
        ensures
            final(self)@ == old(self)@.after_read(
                final(self).read_buffer@,
                final(self).read_buffer_length as int,
            ),
            final(self).wf(),
    {
        self.shell_layer.read(&mut self.read_buffer, &mut self.read_buffer_length);
        let ghost filled = self@;
        let ghost bytes = filled.last_read();
        let length: usize = if self.read_buffer_length < FD_BUFFER_SIZE_BYTES {
            self.read_buffer_length
        } else {
            FD_BUFFER_SIZE_BYTES
        };
        let mut i: usize = 0;
        while i < length
            invariant
                i <= length <= FD_BUFFER_SIZE_BYTES,
                filled.wf(),
                filled.read_buffer.len() == FD_BUFFER_SIZE_BYTES,
                bytes == filled.read_buffer.take(length as int),
                self@ == filled.feed(bytes.take(i as int)),
                self.wf(),
            decreases length - i,
        {
            proof {
                assert(bytes.take(i + 1).drop_last() == bytes.take(i as int));
                filled.lemma_feed(bytes.take(i as int));
            }
            self.insert_byte(self.read_buffer[i]);
            i += 1;
        }
        proof {
            assert(bytes.take(i as int) == bytes);
            filled.lemma_feed(bytes);
            assert(filled == (TtyModel {
                read_buffer: self.read_buffer@,
                read_buffer_length: self.read_buffer_length as int,
                ..old(self)@
            }));
        }
    }

    /// Sends what the user typed to the shell. The terminal itself does not
    /// change.
    pub fn write(&mut self, data: &[u8])
        requires
            old(self).wf(),
        ensures
            final(self)@ == old(self)@,
            final(self).wf(),
    {
        self.shell_layer.write(data);
    }
}

} // verus!
