use crate::constants::FD_BUFFER_SIZE_BYTES;
use crate::constants::special_characters::{
    BACKSPACE, BELL, CARRIAGE_RETURN, ESCAPE, FORMFEED, HORIZONTAL_TAB, NEWLINE, SPACE,
};
use crate::escape_sequence::parser::{FinishedModel, ParserModel};
use crate::escape_sequence::sequence::{
    CharacterSet, EraseInDisplayType, EraseInLineType, SGRCode, SequenceModel, SetOrResetModeType,
};
use crate::text_styles::decorated_char::DecoratedChar;
use crate::text_styles::text_style::TextStyle;
use crate::unicode::DecoderModel;
use vstd::prelude::*;

verus! {

/// What a printed character does to the line under the cursor.
#[derive(Clone, Copy, Debug, PartialEq, Eq, Structural)]
pub enum InsertionMode {
    /// The character takes the place of the one under the cursor.
    Replace,
    /// The character is put in before the one under the cursor and pushes the
    /// rest of the line right; what is pushed past the last column is lost.
    Insert,
}

/// The number nearest to `value` that is at least `low` and at most `high`.
pub open spec fn clamp(value: int, low: int, high: int) -> int {
    if value < low {
        low
    } else if value > high {
        high
    } else {
        value
    }
}

/// The smaller of two numbers.
pub open spec fn least(a: int, b: int) -> int {
    if a <= b {
        a
    } else {
        b
    }
}

/// A run of `count` empty lines.
pub open spec fn empty_lines(count: int) -> Seq<Seq<DecoratedChar>> {
    Seq::new(count as nat, |i: int| Seq::<DecoratedChar>::empty())
}

/// A run of `count` spaces in the given style.
pub open spec fn spaces(count: int, style: TextStyle) -> Seq<DecoratedChar> {
    Seq::new(count as nat, |i: int| DecoratedChar { char: SPACE, style })
}

/// A line after `c` is put at column `x`: the line is first padded with spaces in
/// the given style up to `x`; then `c`, in that style, replaces what stands at `x`
/// or is inserted before it, and a line into which it was inserted is cut to
/// `cols` characters.
#[verifier::opaque]
pub open spec fn written_line(
    line: Seq<DecoratedChar>,
    x: int,
    cols: int,
    c: char,
    style: TextStyle,
    mode: InsertionMode,
) -> Seq<DecoratedChar> {
    let padded = if line.len() <= x {
        line + spaces(x + 1 - line.len(), style)
    } else {
        line
    };
    let decorated = DecoratedChar { char: c, style };
    match mode {
        InsertionMode::Replace => padded.update(x, decorated),
        InsertionMode::Insert => {
            let inserted = padded.insert(x, decorated);
            inserted.take(least(inserted.len() as int, cols))
        },
    }
}

/// What is left of a line of which part is erased at column `x`: the characters
/// before `x`, those after `x`, or none.
#[verifier::opaque]
pub open spec fn erased_line(line: Seq<DecoratedChar>, x: int, erase: EraseInLineType) -> Seq<
    DecoratedChar,
> {
    match erase {
        EraseInLineType::ToEndOfLine => line.take(least(x, line.len() as int)),
        EraseInLineType::ToStartOfLine => line.skip(least(x + 1, line.len() as int)),
        EraseInLineType::EntireLine => Seq::empty(),
    }
}

/// A line from which `count` characters are removed beginning at column `x`, or
/// as many as stand there.
#[verifier::opaque]
pub open spec fn shortened_line(line: Seq<DecoratedChar>, x: int, count: int) -> Seq<
    DecoratedChar,
> {
    line.take(least(x, line.len() as int)) + line.skip(least(x + count, line.len() as int))
}

/// Whether none of the lines is longer than `cols` characters.
#[verifier::opaque]
pub open spec fn all_fit(lines: Seq<Seq<DecoratedChar>>, cols: int) -> bool {
    forall|i: int| 0 <= i < lines.len() ==> (#[trigger] lines[i]).len() <= cols
}

/// Whether a character is one of the control characters that move the cursor or
/// do nothing, and are never printed.
pub open spec fn is_c0_control(c: char) -> bool {
    c == BACKSPACE || c == CARRIAGE_RETURN || c == HORIZONTAL_TAB || c == BELL || c == FORMFEED
}

/// The terminal as contracts see it: the grid with its scrollback, the cursor,
/// the modes, and the states of the decoder and of the parser.
pub struct TtyModel {
    /// The width of the window, in columns.
    pub cols: int,
    /// The height of the window, in rows.
    pub rows: int,
    /// The column of the cursor, counted from 0.
    pub x: int,
    /// The row of the cursor inside the window, counted from 0.
    pub y: int,
    pub cursor_visible: bool,
    /// The index of the line that is shown in the top row of the window.
    pub scrollback_start: int,
    /// All lines, those scrolled out of the window and those in it.
    pub lines: Seq<Seq<DecoratedChar>>,
    pub bracketed_paste_mode: bool,
    pub character_set: CharacterSet,
    pub decoder: DecoderModel,
    /// The character that was inserted last.
    pub previous: char,
    pub insertion_mode: InsertionMode,
    pub parser: ParserModel,
    /// Whether the characters that arrive belong to an escape sequence.
    pub parsing: bool,
    /// The style in which the next character is printed.
    pub style: TextStyle,
    /// Set when a character was printed in the last column: the cursor waits
    /// there, and the next printed character wraps first.
    pub stomp: bool,
    pub autowrap: bool,
    pub application_cursor_keys: bool,
    /// What the last read from the shell left in the read buffer.
    pub read_buffer: Seq<u8>,
    /// How many bytes the last read from the shell reported.
    pub read_buffer_length: int,
}

impl TtyModel {
    /// The terminal as it starts: an empty grid, the cursor in the top left
    /// corner, replacing, wrapping, nothing read.
    pub open spec fn fresh(cols: int, rows: int) -> TtyModel {
        TtyModel {
            cols,
            rows,
            x: 0,
            y: 0,
            cursor_visible: true,
            scrollback_start: 0,
            lines: Seq::empty(),
            bracketed_paste_mode: false,
            character_set: CharacterSet::UnitedStatesASCII,
            decoder: DecoderModel::idle(),
            previous: SPACE,
            insertion_mode: InsertionMode::Replace,
            parser: ParserModel::fresh(),
            parsing: false,
            style: TextStyle::initial(),
            stomp: false,
            autowrap: true,
            application_cursor_keys: false,
            read_buffer: Seq::new(FD_BUFFER_SIZE_BYTES as nat, |i: int| 0u8),
            read_buffer_length: 0,
        }
    }

    /// The cursor is inside the window.
    pub open spec fn cursor_in_range(self) -> bool {
        0 <= self.x < self.cols && 0 <= self.y < self.rows
    }

    /// No line is longer than the window is wide.
    pub open spec fn lines_fit(self) -> bool {
        all_fit(self.lines, self.cols)
    }

    /// What holds of the terminal between any two operations: the window is not
    /// empty, the cursor is inside it, the window does not begin before the first
    /// line, no line is wider than the window, the cursor waits in the last
    /// column while `stomp` is set, and the decoder is well formed.
    pub open spec fn wf(self) -> bool {
        &&& 1 <= self.cols
        &&& 1 <= self.rows
        &&& self.cursor_in_range()
        &&& 0 <= self.scrollback_start
        &&& self.lines_fit()
        &&& (self.stomp ==> self.x == self.cols - 1)
        &&& self.decoder.wf()
    }

    /// The index, among all lines, of the line that the cursor is on.
    pub open spec fn row(self) -> int {
        self.scrollback_start + self.y
    }

    /// The terminal with the cursor moved to the place nearest to `(x, y)` inside
    /// the window. Moving the cursor clears `stomp`.
    pub open spec fn move_cursor(self, x: int, y: int) -> TtyModel {
        TtyModel {
            x: clamp(x, 0, self.cols - 1),
            y: clamp(y, 0, self.rows - 1),
            stomp: false,
            ..self
        }
    }

    /// The terminal with empty lines added at the end until the cursor's line
    /// exists.
    pub open spec fn with_backing_line(self) -> TtyModel {
        if self.lines.len() > self.row() {
            self
        } else {
            TtyModel {
                lines: self.lines + empty_lines(self.row() + 1 - self.lines.len()),
                ..self
            }
        }
    }

    /// The terminal with the cursor's line replaced.
    pub open spec fn with_current_line(self, line: Seq<DecoratedChar>) -> TtyModel {
        TtyModel { lines: self.lines.update(self.row(), line), ..self }
    }

    /// What a control character does: backspace moves the cursor one column
    /// left, carriage return to the first column, a tab to the next column that
    /// is a multiple of 8, each inside the window; bell and form feed do nothing.
    #[verifier::opaque]
    pub open spec fn control(self, c: char) -> TtyModel {
        if c == BACKSPACE {
            self.move_cursor(self.x - 1, self.y)
        } else if c == CARRIAGE_RETURN {
            self.move_cursor(0, self.y)
        } else if c == HORIZONTAL_TAB {
            self.move_cursor(self.x + (8 - self.x % 8), self.y)
        } else {
            self
        }
    }

    /// The cursor goes to the first column of the next row. On the last row the
    /// window moves down one line instead. The line that the cursor comes to is
    /// made to exist, and `stomp` is cleared.
    #[verifier::opaque]
    pub open spec fn line_feed(self) -> TtyModel {
        let moved = if self.y + 1 >= self.rows {
            TtyModel { x: 0, stomp: false, scrollback_start: self.scrollback_start + 1, ..self }
        } else {
            TtyModel { x: 0, y: self.y + 1, stomp: false, ..self }
        };
        moved.with_backing_line()
    }

    /// The cursor's line after `c` is put at the cursor, in the current style and
    /// insertion mode.
    pub open spec fn line_with(self, c: char) -> Seq<DecoratedChar> {
        written_line(
            self.lines[self.row()],
            self.x,
            self.cols,
            c,
            self.style,
            self.insertion_mode,
        )
    }

    /// `c` is put at the cursor, and the cursor moves one column right; in the
    /// last column it stays and `stomp` is set.
    #[verifier::opaque]
    pub open spec fn put(self, c: char) -> TtyModel {
        let written = self.with_current_line(self.line_with(c));
        if self.x == self.cols - 1 {
            TtyModel { stomp: true, ..written }
        } else {
            TtyModel { x: self.x + 1, ..written }
        }
    }

    /// Whether the next printed character goes to the next line first: the
    /// cursor waits in the last column after a character was printed there, and
    /// wrapping is on.
    pub open spec fn wraps(self) -> bool {
        self.x >= self.cols - 1 && self.stomp && self.autowrap
    }

    /// What a character that is no control character does: a newline is a line
    /// feed; any other character is put at the cursor, after a line feed where
    /// the cursor has to wrap.
    pub open spec fn print(self, c: char) -> TtyModel {
        if c == NEWLINE {
            self.line_feed()
        } else if self.wraps() {
            self.line_feed().put(c)
        } else {
            self.put(c)
        }
    }

    /// What a character does outside an escape sequence. `ESC` begins a sequence
    /// with a parser that has seen nothing. Any other character is remembered as
    /// the one inserted last, the cursor's line is made to exist, and the
    /// character acts as a control character or is printed.
    #[verifier::opaque]
    pub open spec fn standard_insert(self, c: char) -> TtyModel {
        if c == ESCAPE {
            TtyModel { parser: ParserModel::fresh(), parsing: true, ..self }
        } else {
            let ready = TtyModel { previous: c, ..self.with_backing_line() };
            if is_c0_control(c) {
                ready.control(c)
            } else {
                ready.print(c)
            }
        }
    }

    /// Part of the cursor's line is erased: from the cursor to the end, or from
    /// the start up to and including the cursor, or all of it. The line is made
    /// to exist first.
    #[verifier::opaque]
    pub open spec fn erase_in_line(self, erase: EraseInLineType) -> TtyModel {
        let ready = self.with_backing_line();
        ready.with_current_line(erased_line(ready.lines[ready.row()], self.x, erase))
    }

    /// The lines after the cursor's line are removed.
    pub open spec fn without_lines_below(self) -> TtyModel {
        TtyModel { lines: self.lines.take(least(self.row() + 1, self.lines.len() as int)), ..self }
    }

    /// The lines of the window above the cursor's line are emptied.
    pub open spec fn with_lines_above_cleared(self) -> TtyModel {
        TtyModel {
            lines: Seq::new(
                self.lines.len(),
                |i: int|
                    if self.scrollback_start <= i < self.row() {
                        Seq::empty()
                    } else {
                        self.lines[i]
                    },
            ),
            ..self
        }
    }

    /// Part of the screen is erased. To the end: the rest of the cursor's line,
    /// and every line after it is removed. To the start: the cursor's line up to
    /// and including the cursor, and every line of the window above it is
    /// emptied. The entire screen: both. With the scrollback: no line is left and
    /// the window begins at the first line again.
    #[verifier::opaque]
    pub open spec fn erase_in_display(self, erase: EraseInDisplayType) -> TtyModel {
        match erase {
            EraseInDisplayType::ToEndOfScreen => self.erase_in_line(
                EraseInLineType::ToEndOfLine,
            ).without_lines_below(),
            EraseInDisplayType::ToStartOfScreen => self.erase_in_line(
                EraseInLineType::ToStartOfLine,
            ).with_lines_above_cleared(),
            EraseInDisplayType::EntireScreen => self.erase_in_line(
                EraseInLineType::ToEndOfLine,
            ).without_lines_below().erase_in_line(
                EraseInLineType::ToStartOfLine,
            ).with_lines_above_cleared(),
            EraseInDisplayType::EntireScreenAndScrollbackBuffer => TtyModel {
                lines: Seq::empty(),
                scrollback_start: 0,
                ..self
            },
        }
    }

    /// `count` characters are removed from the cursor's line, beginning with the
    /// one under the cursor, or as many as there are; what stood right of them
    /// moves left, and the cursor stays. A negative count does nothing.
    #[verifier::opaque]
    pub open spec fn delete_characters(self, count: int) -> TtyModel {
        if count < 0 {
            self
        } else {
            let ready = self.with_backing_line();
            ready.with_current_line(shortened_line(ready.lines[ready.row()], self.x, count))
        }
    }

    /// The character that was inserted last is inserted `count` more times.
    pub open spec fn repeat_previous(self, count: int) -> TtyModel
        decreases count,
    {
        if count <= 0 {
            self
        } else {
            let before = self.repeat_previous(count - 1);
            before.standard_insert(before.previous)
        }
    }

    /// The cursor moves up one row. On the top row the window moves up one line
    /// instead and the last line is dropped, unless the window is at the first
    /// line, where nothing happens.
    #[verifier::opaque]
    pub open spec fn reverse_index(self) -> TtyModel {
        if self.y == 0 {
            if self.scrollback_start == 0 {
                self
            } else {
                TtyModel {
                    scrollback_start: self.scrollback_start - 1,
                    lines: if self.lines.len() > 0 {
                        self.lines.drop_last()
                    } else {
                        self.lines
                    },
                    ..self
                }
            }
        } else {
            self.move_cursor(self.x, self.y - 1)
        }
    }

    /// The grid, the cursor, the style, bracketed paste, `stomp` and wrapping go
    /// back to nothing; the decoder and the parser are left as they are.
    #[verifier::opaque]
    pub open spec fn full_reset(self) -> TtyModel {
        TtyModel {
            x: 0,
            y: 0,
            scrollback_start: 0,
            lines: Seq::empty(),
            bracketed_paste_mode: false,
            style: TextStyle::initial(),
            stomp: false,
            autowrap: false,
            ..self
        }
    }

    /// The insertion mode that goes with a mode when the mode is set.
    pub open spec fn mode_when_set(mode: SetOrResetModeType) -> InsertionMode {
        match mode {
            SetOrResetModeType::AutomaticNewline => InsertionMode::Replace,
            SetOrResetModeType::InsertionReplacement => InsertionMode::Insert,
        }
    }

    /// The insertion mode that goes with a mode when the mode is reset: the
    /// other one.
    pub open spec fn mode_when_reset(mode: SetOrResetModeType) -> InsertionMode {
        match mode {
            SetOrResetModeType::AutomaticNewline => InsertionMode::Insert,
            SetOrResetModeType::InsertionReplacement => InsertionMode::Replace,
        }
    }

    /// What a complete escape sequence does.
    #[verifier::opaque]
    pub open spec fn apply(self, sequence: SequenceModel) -> TtyModel {
        match sequence {
            SequenceModel::MoveCursorUp(n) => self.move_cursor(self.x, self.y - n),
            SequenceModel::MoveCursorDown(n) => self.move_cursor(self.x, self.y + n),
            SequenceModel::MoveCursorForward(n) => self.move_cursor(self.x + n, self.y),
            SequenceModel::MoveCursorBack(n) => self.move_cursor(self.x - n, self.y),
            SequenceModel::MoveCursorToNextLine(n) => self.move_cursor(0, self.y + n),
            SequenceModel::MoveCursorToPreviousLine(n) => self.move_cursor(0, self.y - n),
            SequenceModel::MoveCursorHorizontalAbsolute(n) => self.move_cursor(n as int, self.y),
            SequenceModel::SetCursorPosition(position) => self.move_cursor(
                position.x - 1,
                position.y - 1,
            ),
            SequenceModel::SelectGraphicRendition(codes) => TtyModel {
                style: self.style.with_rendition(codes),
                ..self
            },
            SequenceModel::EraseInLine(erase) => self.erase_in_line(erase),
            SequenceModel::EraseInDisplay(erase) => self.erase_in_display(erase),
            SequenceModel::DeleteCharacters(n) => self.delete_characters(n as int),
            SequenceModel::RepeatPreviousCharacter(n) => self.repeat_previous(n as int),
            SequenceModel::SetMode(mode) => TtyModel {
                insertion_mode: TtyModel::mode_when_set(mode),
                ..self
            },
            SequenceModel::ResetMode(mode) => TtyModel {
                insertion_mode: TtyModel::mode_when_reset(mode),
                ..self
            },
            SequenceModel::FullReset => self.full_reset(),
            SequenceModel::MoveCursorUpScrollingIfNecessary => self.reverse_index(),
            SequenceModel::DesignateG0CharacterSet(set) => TtyModel { character_set: set, ..self },
            SequenceModel::PrivateEnableBracketedPasteMode => TtyModel {
                bracketed_paste_mode: true,
                ..self
            },
            SequenceModel::PrivateDisableBracketedPasteMode => TtyModel {
                bracketed_paste_mode: false,
                ..self
            },
            SequenceModel::EnableAutoWrapMode => TtyModel { autowrap: true, ..self },
            SequenceModel::DisableAutoWrapMode => TtyModel { autowrap: false, ..self },
            SequenceModel::SwitchToApplicationCursorKeys => TtyModel {
                application_cursor_keys: true,
                ..self
            },
            SequenceModel::SwitchToNormalCursorKeys => TtyModel {
                application_cursor_keys: false,
                ..self
            },
            SequenceModel::ShowCursor => TtyModel { cursor_visible: true, ..self },
            SequenceModel::HideCursor => TtyModel { cursor_visible: false, ..self },
        }
    }

    /// What a character does inside an escape sequence: it goes to the parser.
    /// While the parser asks for more, nothing else happens. When the sequence is
    /// complete it is applied, if it is a known one, and the sequence is over.
    pub open spec fn escape_insert(self, c: char) -> TtyModel {
        let (parser, finished) = self.parser.step(c);
        let parsed = TtyModel { parser, ..self };
        match finished {
            FinishedModel::No => TtyModel { parsing: true, ..parsed },
            FinishedModel::Yes(Some(sequence)) => TtyModel {
                parsing: false,
                ..parsed.apply(sequence)
            },
            FinishedModel::Yes(None) => TtyModel { parsing: false, ..parsed },
        }
    }

    /// What a decoded character does: inside an escape sequence it goes to the
    /// parser, outside it is inserted.
    pub open spec fn insert_scalar(self, c: char) -> TtyModel {
        if self.parsing {
            self.escape_insert(c)
        } else {
            self.standard_insert(c)
        }
    }

    /// What one byte from the shell does: it goes to the decoder, and the
    /// character that it completes, if any, is handled.
    pub open spec fn insert_byte(self, b: u8) -> TtyModel {
        let (decoder, completed) = self.decoder.step(b);
        let decoded = TtyModel { decoder, ..self };
        match completed {
            Some(c) => decoded.insert_scalar(c),
            None => decoded,
        }
    }

    /// The bytes that the last read from the shell brought: as many of the read
    /// buffer as the read reported, and no more than the buffer holds.
    pub open spec fn last_read(self) -> Seq<u8> {
        self.read_buffer.take(least(self.read_buffer_length, self.read_buffer.len() as int))
    }

    /// What a read from the shell does that left `buffer` in the read buffer and
    /// reported `written` bytes: those bytes are taken in order.
    pub open spec fn after_read(self, buffer: Seq<u8>, written: int) -> TtyModel {
        let filled = TtyModel { read_buffer: buffer, read_buffer_length: written, ..self };
        filled.feed(filled.last_read())
    }

    /// What a run of bytes from the shell does, taken in the order of arrival.
    pub open spec fn feed(self, bytes: Seq<u8>) -> TtyModel
        decreases bytes.len(),
    {
        if bytes.len() == 0 {
            self
        } else {
            self.feed(bytes.drop_last()).insert_byte(bytes.last())
        }
    }
}

} // verus!

verus! {

impl TtyModel {
    /// Whether another terminal has the window and the read buffer of this one.
    pub open spec fn same_frame(self, other: TtyModel) -> bool {
        &&& other.cols == self.cols
        &&& other.rows == self.rows
        &&& other.read_buffer == self.read_buffer
        &&& other.read_buffer_length == self.read_buffer_length
    }

    /// Wherever the cursor is sent, it ends inside the window, and `stomp` is
    /// cleared; nothing else changes.
    pub proof fn lemma_move_cursor(self, x: int, y: int)
        requires
            self.wf(),
        ensures
            self.move_cursor(x, y).wf(),
            self.move_cursor(x, y).cursor_in_range(),
            !self.move_cursor(x, y).stomp,
            self.move_cursor(x, y).lines == self.lines,
            self.move_cursor(x, y).scrollback_start == self.scrollback_start,
            self.same_frame(self.move_cursor(x, y)),
    {
    }

    /// Making the cursor's line exist adds empty lines only, and as few as are
    /// needed.
    pub proof fn lemma_with_backing_line(self)
        requires
            self.wf(),
        ensures
            self.with_backing_line().wf(),
            self.same_frame(self.with_backing_line()),
            self.with_backing_line().lines.len() > self.row(),
            self.with_backing_line().lines.len() >= self.lines.len(),
            self.with_backing_line().lines.len() == self.lines.len()
                || self.with_backing_line().lines.len() == self.row() + 1,
            forall|i: int|
                0 <= i < self.lines.len() ==> #[trigger] self.with_backing_line().lines[i]
                    == self.lines[i],
            forall|i: int|
                self.lines.len() <= i < self.with_backing_line().lines.len()
                    ==> #[trigger] self.with_backing_line().lines[i] == Seq::<
                    DecoratedChar,
                >::empty(),
    {
        reveal(all_fit);
    }

    /// A control character keeps the terminal well formed and the grid as it is.
    pub proof fn lemma_control(self, c: char)
        requires
            self.wf(),
        ensures
            self.control(c).wf(),
            self.same_frame(self.control(c)),
            self.control(c).lines == self.lines,
            self.control(c).row() == self.row(),
    {
        reveal(TtyModel::control);
    }

    /// After a line feed the terminal is well formed and the cursor's line exists.
    pub proof fn lemma_line_feed(self)
        requires
            self.wf(),
        ensures
            self.line_feed().wf(),
            self.same_frame(self.line_feed()),
            self.line_feed().lines.len() > self.line_feed().row(),
            self.line_feed().x == 0,
            !self.line_feed().stomp,
    {
        reveal(TtyModel::line_feed);
        let moved = if self.y + 1 >= self.rows {
            TtyModel { x: 0, stomp: false, scrollback_start: self.scrollback_start + 1, ..self }
        } else {
            TtyModel { x: 0, y: self.y + 1, stomp: false, ..self }
        };
        assert(moved.wf());
        moved.lemma_with_backing_line();
    }

    /// The line that a character is put into is no wider than the window, and
    /// holds the character, in the style of that moment, at the cursor.
    pub proof fn lemma_line_with(self, c: char)
        requires
            self.wf(),
            self.lines.len() > self.row(),
        ensures
            self.line_with(c).len() <= self.cols,
            self.line_with(c).len() > self.x,
            self.line_with(c)[self.x] == (DecoratedChar { char: c, style: self.style }),
    {
        reveal(all_fit);
        reveal(written_line);
        assert(self.lines[self.row()].len() <= self.cols);
    }

    /// Replacing the cursor's line by one that is no wider than the window keeps
    /// the terminal well formed.
    pub proof fn lemma_with_current_line(self, line: Seq<DecoratedChar>)
        requires
            self.wf(),
            self.lines.len() > self.row(),
            line.len() <= self.cols,
        ensures
            self.with_current_line(line).wf(),
            self.same_frame(self.with_current_line(line)),
            self.with_current_line(line).lines.len() == self.lines.len(),
    {
        reveal(all_fit);
        let written = self.with_current_line(line);
        assert forall|i: int| 0 <= i < written.lines.len() implies (#[trigger] written.lines[i]).len()
            <= written.cols by {
            if i != self.row() {
                assert(written.lines[i] == self.lines[i]);
            }
        }
    }

    /// Putting a character keeps the terminal well formed and the number of
    /// lines, and the character stands at the cursor in the style of that moment.
    pub proof fn lemma_put(self, c: char)
        requires
            self.wf(),
            self.lines.len() > self.row(),
        ensures
            self.put(c).wf(),
            self.same_frame(self.put(c)),
            self.put(c).lines.len() == self.lines.len(),
            self.put(c).scrollback_start == self.scrollback_start,
            self.put(c).y == self.y,
            self.put(c).lines[self.row()][self.x] == (DecoratedChar { char: c, style: self.style }),
    {
        reveal(TtyModel::put);
        self.lemma_line_with(c);
        self.lemma_with_current_line(self.line_with(c));
    }

    /// Printing keeps the terminal well formed, and the cursor's line exists
    /// afterwards.
    pub proof fn lemma_print(self, c: char)
        requires
            self.wf(),
            self.lines.len() > self.row(),
        ensures
            self.print(c).wf(),
            self.same_frame(self.print(c)),
            self.print(c).lines.len() > self.print(c).row(),
    {
        self.lemma_line_feed();
        if c == NEWLINE {
        } else if self.wraps() {
            self.line_feed().lemma_put(c);
        } else {
            self.lemma_put(c);
        }
    }

    /// Inserting a character keeps the terminal well formed, and unless the
    /// character is `ESC` the cursor's line exists afterwards.
    pub proof fn lemma_standard_insert(self, c: char)
        requires
            self.wf(),
        ensures
            self.standard_insert(c).wf(),
            self.same_frame(self.standard_insert(c)),
            c != ESCAPE ==> self.standard_insert(c).lines.len() > self.standard_insert(c).row(),
    {
        reveal(TtyModel::standard_insert);
        if c != ESCAPE {
            self.lemma_with_backing_line();
            let ready = TtyModel { previous: c, ..self.with_backing_line() };
            assert(ready.wf());
            if is_c0_control(c) {
                ready.lemma_control(c);
            } else {
                ready.lemma_print(c);
            }
        }
    }

    /// Erasing in the line keeps the terminal well formed and the number of
    /// lines that there are once the cursor's line exists.
    pub proof fn lemma_erase_in_line(self, erase: EraseInLineType)
        requires
            self.wf(),
        ensures
            self.erase_in_line(erase).wf(),
            self.same_frame(self.erase_in_line(erase)),
            self.erase_in_line(erase).row() == self.row(),
            self.erase_in_line(erase).lines.len() > self.row(),
            self.erase_in_line(erase).lines.len() == self.with_backing_line().lines.len(),
    {
        reveal(all_fit);
        reveal(TtyModel::erase_in_line);
        reveal(erased_line);
        self.lemma_with_backing_line();
        let ready = self.with_backing_line();
        let line = ready.lines[ready.row()];
        assert(line.len() <= self.cols);
        ready.lemma_with_current_line(erased_line(line, self.x, erase));
    }

    /// Removing the lines below the cursor keeps the terminal well formed.
    pub proof fn lemma_without_lines_below(self)
        requires
            self.wf(),
        ensures
            self.without_lines_below().wf(),
            self.same_frame(self.without_lines_below()),
            self.lines.len() > self.row() ==> self.without_lines_below().lines.len() > self.row(),
    {
        reveal(all_fit);
        let cut = self.without_lines_below();
        assert forall|i: int| 0 <= i < cut.lines.len() implies (#[trigger] cut.lines[i]).len()
            <= cut.cols by {
            assert(cut.lines[i] == self.lines[i]);
        }
    }

    /// Emptying the lines above the cursor keeps the terminal well formed.
    pub proof fn lemma_with_lines_above_cleared(self)
        requires
            self.wf(),
        ensures
            self.with_lines_above_cleared().wf(),
            self.same_frame(self.with_lines_above_cleared()),
    {
        reveal(all_fit);
        let cleared = self.with_lines_above_cleared();
        assert forall|i: int| 0 <= i < cleared.lines.len() implies (
        #[trigger] cleared.lines[i]).len() <= cleared.cols by {
            if !(self.scrollback_start <= i < self.row()) {
                assert(cleared.lines[i] == self.lines[i]);
            }
        }
    }

    /// Erasing in the display keeps the terminal well formed.
    pub proof fn lemma_erase_in_display(self, erase: EraseInDisplayType)
        requires
            self.wf(),
        ensures
            self.erase_in_display(erase).wf(),
            self.same_frame(self.erase_in_display(erase)),
    {
        reveal(all_fit);
        reveal(TtyModel::erase_in_display);
        match erase {
            EraseInDisplayType::ToEndOfScreen => {
                self.lemma_erase_in_line(EraseInLineType::ToEndOfLine);
                self.erase_in_line(EraseInLineType::ToEndOfLine).lemma_without_lines_below();
            },
            EraseInDisplayType::ToStartOfScreen => {
                self.lemma_erase_in_line(EraseInLineType::ToStartOfLine);
                self.erase_in_line(EraseInLineType::ToStartOfLine).lemma_with_lines_above_cleared();
            },
            EraseInDisplayType::EntireScreen => {
                self.lemma_erase_in_line(EraseInLineType::ToEndOfLine);
                let first = self.erase_in_line(EraseInLineType::ToEndOfLine);
                first.lemma_without_lines_below();
                let second = first.without_lines_below();
                second.lemma_erase_in_line(EraseInLineType::ToStartOfLine);
                second.erase_in_line(
                    EraseInLineType::ToStartOfLine,
                ).lemma_with_lines_above_cleared();
            },
            EraseInDisplayType::EntireScreenAndScrollbackBuffer => {},
        }
    }

    /// Deleting characters keeps the terminal well formed.
    pub proof fn lemma_delete_characters(self, count: int)
        requires
            self.wf(),
        ensures
            self.delete_characters(count).wf(),
            self.same_frame(self.delete_characters(count)),
    {
        reveal(all_fit);
        reveal(TtyModel::delete_characters);
        reveal(shortened_line);
        if count >= 0 {
            self.lemma_with_backing_line();
            let ready = self.with_backing_line();
            let line = ready.lines[ready.row()];
            assert(line.len() <= self.cols);
            ready.lemma_with_current_line(shortened_line(line, self.x, count));
        }
    }

    /// Repeating the last character keeps the terminal well formed.
    pub proof fn lemma_repeat_previous(self, count: int)
        requires
            self.wf(),
        ensures
            self.repeat_previous(count).wf(),
            self.same_frame(self.repeat_previous(count)),
        decreases count,
    {
        if count > 0 {
            self.lemma_repeat_previous(count - 1);
            let before = self.repeat_previous(count - 1);
            before.lemma_standard_insert(before.previous);
        }
    }

    /// Moving up with scrolling keeps the terminal well formed.
    pub proof fn lemma_reverse_index(self)
        requires
            self.wf(),
        ensures
            self.reverse_index().wf(),
            self.same_frame(self.reverse_index()),
    {
        reveal(all_fit);
        reveal(TtyModel::reverse_index);
        let after = self.reverse_index();
        if self.y == 0 && self.scrollback_start != 0 && self.lines.len() > 0 {
            assert forall|i: int| 0 <= i < after.lines.len() implies (#[trigger] after.lines[i]).len()
                <= after.cols by {
                assert(after.lines[i] == self.lines[i]);
            }
        }
    }

    /// A full reset keeps the terminal well formed.
    pub proof fn lemma_full_reset(self)
        requires
            self.wf(),
        ensures
            self.full_reset().wf(),
            self.same_frame(self.full_reset()),
    {
        reveal(all_fit);
        reveal(TtyModel::full_reset);
    }

    /// Whether a sequence does nothing but move the cursor.
    pub open spec fn is_motion(sequence: SequenceModel) -> bool {
        sequence is MoveCursorUp || sequence is MoveCursorDown || sequence is MoveCursorForward
            || sequence is MoveCursorBack || sequence is MoveCursorToNextLine
            || sequence is MoveCursorToPreviousLine || sequence is MoveCursorHorizontalAbsolute
            || sequence is SetCursorPosition
    }

    /// Whether a sequence changes the grid, or may change it.
    pub open spec fn is_edit(sequence: SequenceModel) -> bool {
        sequence is EraseInLine || sequence is EraseInDisplay || sequence is DeleteCharacters
            || sequence is RepeatPreviousCharacter || sequence is FullReset
            || sequence is MoveCursorUpScrollingIfNecessary
    }

    /// Whether a sequence switches one of the flags of the terminal on or off.
    pub open spec fn is_flag(sequence: SequenceModel) -> bool {
        sequence is PrivateEnableBracketedPasteMode || sequence is PrivateDisableBracketedPasteMode
            || sequence is EnableAutoWrapMode || sequence is DisableAutoWrapMode
            || sequence is SwitchToApplicationCursorKeys || sequence is SwitchToNormalCursorKeys
            || sequence is ShowCursor || sequence is HideCursor
    }

    /// A sequence that moves the cursor keeps the terminal well formed and the
    /// grid as it is.
    pub proof fn lemma_apply_motion(self, sequence: SequenceModel)
        requires
            self.wf(),
            TtyModel::is_motion(sequence),
        ensures
            self.apply(sequence).wf(),
            self.same_frame(self.apply(sequence)),
            self.apply(sequence).lines == self.lines,
    {
        reveal(TtyModel::apply);
    }

    /// A sequence that sets a mode or the style keeps the terminal well formed,
    /// and the grid and the cursor as they are.
    pub proof fn lemma_apply_switch(self, sequence: SequenceModel)
        requires
            self.wf(),
            !TtyModel::is_motion(sequence),
            !TtyModel::is_edit(sequence),
        ensures
            self.apply(sequence).wf(),
            self.same_frame(self.apply(sequence)),
            self.apply(sequence).lines == self.lines,
            self.apply(sequence).x == self.x,
            self.apply(sequence).y == self.y,
            self.apply(sequence).scrollback_start == self.scrollback_start,
    {
        reveal(TtyModel::apply);
    }

    /// A sequence that edits the grid keeps the terminal well formed.
    pub proof fn lemma_apply_edit(self, sequence: SequenceModel)
        requires
            self.wf(),
            TtyModel::is_edit(sequence),
        ensures
            self.apply(sequence).wf(),
            self.same_frame(self.apply(sequence)),
    {
        reveal(all_fit);
        reveal(TtyModel::apply);
        match sequence {
            SequenceModel::EraseInLine(erase) => self.lemma_erase_in_line(erase),
            SequenceModel::EraseInDisplay(erase) => self.lemma_erase_in_display(erase),
            SequenceModel::DeleteCharacters(n) => self.lemma_delete_characters(n as int),
            SequenceModel::RepeatPreviousCharacter(n) => self.lemma_repeat_previous(n as int),
            SequenceModel::FullReset => self.lemma_full_reset(),
            _ => self.lemma_reverse_index(),
        }
    }

    /// What a sequence that edits the grid does, case by case.
    pub proof fn lemma_apply_edit_unfolds(self, sequence: SequenceModel)
        requires
            TtyModel::is_edit(sequence),
        ensures
            self.apply(sequence) == (match sequence {
                SequenceModel::EraseInLine(erase) => self.erase_in_line(erase),
                SequenceModel::EraseInDisplay(erase) => self.erase_in_display(erase),
                SequenceModel::DeleteCharacters(n) => self.delete_characters(n as int),
                SequenceModel::RepeatPreviousCharacter(n) => self.repeat_previous(n as int),
                SequenceModel::FullReset => self.full_reset(),
                _ => self.reverse_index(),
            }),
    {
        reveal(TtyModel::apply);
    }

    /// Whatever the escape sequence, applying it keeps the terminal well formed:
    /// the cursor inside the window, every line no wider than the window, the
    /// window not before the first line.
    pub proof fn lemma_apply(self, sequence: SequenceModel)
        requires
            self.wf(),
        ensures
            self.apply(sequence).wf(),
            self.apply(sequence).cursor_in_range(),
            self.apply(sequence).lines_fit(),
            self.apply(sequence).scrollback_start >= 0,
            self.same_frame(self.apply(sequence)),
    {
        if TtyModel::is_motion(sequence) {
            self.lemma_apply_motion(sequence);
        } else if TtyModel::is_edit(sequence) {
            self.lemma_apply_edit(sequence);
        } else {
            self.lemma_apply_switch(sequence);
        }
    }

    /// Whatever the character, handing it to the parser keeps the terminal well
    /// formed.
    pub proof fn lemma_escape_insert(self, c: char)
        requires
            self.wf(),
        ensures
            self.escape_insert(c).wf(),
            self.same_frame(self.escape_insert(c)),
    {
        let (parser, finished) = self.parser.step(c);
        let parsed = TtyModel { parser, ..self };
        assert(parsed.wf());
        match finished {
            FinishedModel::Yes(Some(sequence)) => parsed.lemma_apply(sequence),
            _ => {},
        }
    }

    /// Whatever the character, handling it keeps the terminal well formed.
    pub proof fn lemma_insert_scalar(self, c: char)
        requires
            self.wf(),
        ensures
            self.insert_scalar(c).wf(),
            self.same_frame(self.insert_scalar(c)),
    {
        if self.parsing {
            self.lemma_escape_insert(c);
        } else {
            self.lemma_standard_insert(c);
        }
    }

    /// Whatever the byte, taking it keeps the terminal well formed.
    pub proof fn lemma_insert_byte(self, b: u8)
        requires
            self.wf(),
        ensures
            self.insert_byte(b).wf(),
            self.same_frame(self.insert_byte(b)),
    {
        let (decoder, completed) = self.decoder.step(b);
        let decoded = TtyModel { decoder, ..self };
        assert(decoded.wf());
        match completed {
            Some(c) => decoded.lemma_insert_scalar(c),
            None => {},
        }
    }

    /// The invariants of the terminal hold after every run of bytes: whatever the
    /// shell sends, the cursor stays inside the window, no line grows wider than
    /// the window, the window does not begin before the first line, and the
    /// cursor is in the last column while `stomp` is set.
    pub proof fn lemma_feed(self, bytes: Seq<u8>)
        requires
            self.wf(),
        ensures
            self.feed(bytes).wf(),
            self.feed(bytes).cursor_in_range(),
            self.feed(bytes).lines_fit(),
            self.feed(bytes).scrollback_start >= 0,
            self.feed(bytes).stomp ==> self.feed(bytes).x == self.cols - 1,
            self.same_frame(self.feed(bytes)),
        decreases bytes.len(),
    {
        if bytes.len() > 0 {
            self.lemma_feed(bytes.drop_last());
            self.feed(bytes.drop_last()).lemma_insert_byte(bytes.last());
        }
    }

    /// Taking two runs of bytes one after the other is taking them as one run.
    pub proof fn lemma_feed_concat(self, first: Seq<u8>, second: Seq<u8>)
        ensures
            self.feed(first + second) == self.feed(first).feed(second),
        decreases second.len(),
    {
        if second.len() == 0 {
            assert(first + second == first);
        } else {
            self.lemma_feed_concat(first, second.drop_last());
            assert((first + second).drop_last() == first + second.drop_last());
        }
    }

    /// Where the cursor is sent does not depend on where it was: from any state
    /// of a terminal, a move to `(x, y)` leaves the cursor where the same move
    /// leaves it on a fresh terminal of the same size.
    pub proof fn lemma_move_cursor_forgets(self, x: int, y: int)
        ensures
            self.move_cursor(x, y).x == TtyModel::fresh(self.cols, self.rows).move_cursor(x, y).x,
            self.move_cursor(x, y).y == TtyModel::fresh(self.cols, self.rows).move_cursor(x, y).y,
            self.move_cursor(x, y).stomp == TtyModel::fresh(self.cols, self.rows).move_cursor(
                x,
                y,
            ).stomp,
    {
    }

    /// A printed character keeps the style in which it was printed: it stands in
    /// the grid with the style of the moment of printing, and a change of style
    /// afterwards changes no character of the grid.
    pub proof fn lemma_style_is_kept(self, c: char, codes: Seq<SGRCode>)
        requires
            self.wf(),
            self.lines.len() > self.row(),
        ensures
            self.put(c).lines[self.row()][self.x] == (DecoratedChar { char: c, style: self.style }),
            self.put(c).apply(SequenceModel::SelectGraphicRendition(codes)).lines == self.put(
                c,
            ).lines,
    {
        self.lemma_put(c);
        self.put(c).lemma_apply_switch(SequenceModel::SelectGraphicRendition(codes));
    }
}

} // verus!
