//! The text screen: 25 rows of 80 character cells, a cursor, and a writer
//! that puts bytes at the cursor, wraps at the end of a row and scrolls at
//! the end of the screen.
//!
//! The writer keeps the cells itself. To show them, its owner copies them to
//! the memory of the display (`Writer::cell`) and makes the writes that move
//! the cursor (`Writer::refresh_cursor`).

use vstd::prelude::*;
use vstd::string::StringSliceAdditionalSpecFns;
use crate::port::{PortWidth, PortWrite, UnsafePort};

verus! {

/// The sixteen colors of the text mode.
#[derive(Debug, Clone, Copy, PartialEq, Eq, Structural)]
pub enum Color {
    Black,
    Blue,
    Green,
    Cyan,
    Red,
    Magenta,
    Brown,
    LightGray,
    DarkGray,
    LightBlue,
    LightGreen,
    LightCyan,
    LightRed,
    Pink,
    Yellow,
    White,
}

impl Color {
    /// Number of the color, from 0 for black to 15 for white.
    pub open spec fn number(self) -> u8 {
        match self {
            Color::Black => 0,
            Color::Blue => 1,
            Color::Green => 2,
            Color::Cyan => 3,
            Color::Red => 4,
            Color::Magenta => 5,
            Color::Brown => 6,
            Color::LightGray => 7,
            Color::DarkGray => 8,
            Color::LightBlue => 9,
            Color::LightGreen => 10,
            Color::LightCyan => 11,
            Color::LightRed => 12,
            Color::Pink => 13,
            Color::Yellow => 14,
            Color::White => 15,
        }
    }

    /// Number of the color, from 0 for black to 15 for white.
    pub fn code(self) -> (code: u8)
        ensures
            code == self.number(),
    {
        match self {
            Color::Black => 0,
            Color::Blue => 1,
            Color::Green => 2,
            Color::Cyan => 3,
            Color::Red => 4,
            Color::Magenta => 5,
            Color::Brown => 6,
            Color::LightGray => 7,
            Color::DarkGray => 8,
            Color::LightBlue => 9,
            Color::LightGreen => 10,
            Color::LightCyan => 11,
            Color::LightRed => 12,
            Color::Pink => 13,
            Color::Yellow => 14,
            Color::White => 15,
        }
    }
}

/// The color byte of a cell: the background in the high four bits, the
/// foreground in the low four.
#[derive(Debug, Clone, Copy, PartialEq, Eq, Structural)]
pub struct ColorCode(pub u8);

impl ColorCode {
    pub fn new(foreground: Color, background: Color) -> (code: ColorCode)
        ensures
            code.0 == background.number() * 16 + foreground.number(),
    {
        ColorCode(background.code() * 16 + foreground.code())
    }
}

/// One cell of the screen.
#[derive(Debug, Clone, Copy, PartialEq, Eq, Structural)]
pub struct ScreenChar {
    pub ascii_character: u8,
    pub color_code: ColorCode,
}

/// Number of rows of the screen.
pub const BUFFER_HEIGHT: usize = 25;

/// Number of cells in a row.
pub const BUFFER_WIDTH: usize = 80;

/// Port that selects a register of the display controller.
pub const CRT_INDEX_PORT: u16 = 0x03d4;

/// Port through which the selected register is written.
pub const CRT_DATA_PORT: u16 = 0x03d5;

/// Number of the register that holds the high byte of the cursor's cell.
pub const CURSOR_HIGH: u8 = 0x0e;

/// Number of the register that holds the low byte of the cursor's cell.
pub const CURSOR_LOW: u8 = 0x0f;

/// The space character.
pub const SPACE: u8 = 0x20;

/// The line feed character.
pub const LINE_FEED: u8 = 0x0a;

/// The byte that is shown for a byte that cannot be printed.
pub const UNPRINTABLE: u8 = 0xfe;

/// The cells of the screen, row by row.
#[derive(Debug, Clone, Copy)]
pub struct Buffer {
    chars: [[ScreenChar; BUFFER_WIDTH]; BUFFER_HEIGHT],
}

/// What is on the screen and where the cursor stands.
pub struct Screen {
    pub rows: Seq<Seq<ScreenChar>>,
    pub row: int,
    pub column: int,
}

/// A space in the given colors.
pub open spec fn blank(color_code: ColorCode) -> ScreenChar {
    ScreenChar { ascii_character: SPACE, color_code }
}

/// A row of spaces.
pub open spec fn blank_row(color_code: ColorCode) -> Seq<ScreenChar> {
    Seq::new(BUFFER_WIDTH as nat, |column: int| blank(color_code))
}

/// The screen after the cursor has gone to the start of the next row. That
/// row is cleared. From the last row the cursor does not move down: the
/// rows move up by one, the first row is lost, and the last row is cleared.
pub open spec fn after_new_line(screen: Screen, color_code: ColorCode) -> Screen {
    if screen.row + 1 >= BUFFER_HEIGHT {
        Screen {
            rows: screen.rows.skip(1).push(blank_row(color_code)),
            row: BUFFER_HEIGHT - 1,
            column: 0,
        }
    } else {
        Screen {
            rows: screen.rows.update(screen.row + 1, blank_row(color_code)),
            row: screen.row + 1,
            column: 0,
        }
    }
}

/// The screen after one byte has been written. A line feed goes to the next
/// row. Any other byte is put at the cursor, in the given colors, and the
/// cursor moves one cell on, and on to the next row from the end of a row.
pub open spec fn after_byte(screen: Screen, color_code: ColorCode, byte: u8) -> Screen {
    if byte == LINE_FEED {
        after_new_line(screen, color_code)
    } else {
        let put = Screen {
            rows: screen.rows.update(
                screen.row,
                screen.rows[screen.row].update(
                    screen.column,
                    ScreenChar { ascii_character: byte, color_code },
                ),
            ),
            row: screen.row,
            column: screen.column,
        };
        if screen.column + 1 >= BUFFER_WIDTH {
            after_new_line(put, color_code)
        } else {
            Screen { rows: put.rows, row: put.row, column: screen.column + 1 }
        }
    }
}

/// What is written for a byte of a string: the byte itself where it is a
/// printable character (0x20 to 0x7f) or a line feed, else the mark for an
/// unprintable byte.
pub open spec fn shown_byte(byte: u8) -> u8 {
    if (0x20 <= byte <= 0x7f) || byte == LINE_FEED {
        byte
    } else {
        UNPRINTABLE
    }
}

/// The screen after the bytes of a string have been written, one after the
/// other.
pub open spec fn after_bytes(screen: Screen, color_code: ColorCode, bytes: Seq<u8>) -> Screen
    decreases bytes.len(),
{
    if bytes.len() == 0 {
        screen
    } else {
        after_byte(
            after_bytes(screen, color_code, bytes.drop_last()),
            color_code,
            shown_byte(bytes.last()),
        )
    }
}

/// The writes that show the cursor in the cell with the given number: the
/// high byte of the number goes to the one cursor register, the low byte to
/// the other.
pub open spec fn cursor_writes(index: u16) -> Seq<PortWrite> {
    seq![
        PortWrite { port: CRT_INDEX_PORT, width: PortWidth::Byte, value: CURSOR_HIGH as u32 },
        PortWrite { port: CRT_DATA_PORT, width: PortWidth::Byte, value: (index / 0x100) as u32 },
        PortWrite { port: CRT_INDEX_PORT, width: PortWidth::Byte, value: CURSOR_LOW as u32 },
        PortWrite { port: CRT_DATA_PORT, width: PortWidth::Byte, value: (index % 0x100) as u32 },
    ]
}

/// The cleared screen: spaces everywhere, the cursor in the first cell.
pub open spec fn cleared(color_code: ColorCode) -> Screen {
    Screen {
        rows: Seq::new(BUFFER_HEIGHT as nat, |row: int| blank_row(color_code)),
        row: 0,
        column: 0,
    }
}

/// The screen has 25 rows of 80 cells and the cursor stands in one of them.
pub open spec fn screen_wf(screen: Screen) -> bool {
    &&& screen.rows.len() == BUFFER_HEIGHT
    &&& forall|row: int|
        0 <= row < BUFFER_HEIGHT ==> (#[trigger] screen.rows[row]).len() == BUFFER_WIDTH
    &&& 0 <= screen.row < BUFFER_HEIGHT
    &&& 0 <= screen.column < BUFFER_WIDTH
}

/// The writer to the screen.
pub struct Writer {
    row_position: usize,
    column_position: usize,
    color_code: ColorCode,
    buffer: Buffer,
}

impl View for Writer {
    type V = Screen;

    closed spec fn view(&self) -> Screen {
        Screen {
            rows: Seq::new(
                BUFFER_HEIGHT as nat,
                |row: int| self.buffer.chars@[row]@,
            ),
            row: self.row_position as int,
            column: self.column_position as int,
        }
    }
}

impl Writer {
    #[verifier::type_invariant]
    spec fn cursor_on_screen(self) -> bool {
        self.row_position < BUFFER_HEIGHT && self.column_position < BUFFER_WIDTH
    }

    /// The colors in which the writer writes.
    pub closed spec fn colors(&self) -> ColorCode {
        self.color_code
    }

    /// A writer in the given colors to a cleared screen.
    pub fn new(color_code: ColorCode) -> (writer: Writer)
        ensures
            writer.colors() == color_code,
            writer@ == cleared(color_code),
    {
        let space = ScreenChar { ascii_character: SPACE, color_code };
        let writer = Writer {
            row_position: 0,
            column_position: 0,
            color_code,
            buffer: Buffer { chars: [[space;BUFFER_WIDTH];BUFFER_HEIGHT] },
        };
        proof {
            assert forall|row: int| 0 <= row < BUFFER_HEIGHT implies #[trigger] writer@.rows[row]
                =~= blank_row(color_code) by {}
            assert(writer@.rows =~= cleared(color_code).rows);
        }
        writer
    }

    /// Fills the row of the cursor with spaces.
    fn clear_line(&mut self)
        ensures
            final(self).colors() == old(self).colors(),
            final(self)@.row == old(self)@.row,
            final(self)@.column == old(self)@.column,
            final(self)@.rows == old(self)@.rows.update(
                old(self)@.row,
                blank_row(old(self).colors()),
            ),
    {
        proof {
            use_type_invariant(&*self);
        }
        let blank = ScreenChar { ascii_character: SPACE, color_code: self.color_code };
        let row: usize = self.row_position;
        let mut col: usize = 0;
        while col < BUFFER_WIDTH
            invariant
                col <= BUFFER_WIDTH,
                row == self.row_position,
                row < BUFFER_HEIGHT,
                self.column_position < BUFFER_WIDTH,
                self.column_position == old(self).column_position,
                self.row_position == old(self).row_position,
                self.color_code == old(self).color_code,
                blank == (ScreenChar { ascii_character: SPACE, color_code: self.color_code }),
                forall|r: int|
                    0 <= r < BUFFER_HEIGHT && r != row ==> #[trigger] self.buffer.chars@[r]
                        == old(self).buffer.chars@[r],
                forall|c: int|
                    0 <= c < col ==> #[trigger] self.buffer.chars@[row as int]@[c] == blank,
            decreases BUFFER_WIDTH - col,
        {
            self.buffer.chars[row][col] = blank;
            col += 1;
        }
        proof {
            assert(self.buffer.chars@[row as int]@ =~= blank_row(self.color_code));
            assert(self@.rows =~= old(self)@.rows.update(
                old(self)@.row,
                blank_row(old(self).colors()),
            ));
        }
    }

    /// Moves every row but the first up by one. The last row stays as it
    /// is.
    fn scroll_screen(&mut self)
        ensures
            final(self).colors() == old(self).colors(),
            final(self)@.row == old(self)@.row,
            final(self)@.column == old(self)@.column,
            final(self)@.rows == old(self)@.rows.skip(1).push(
                old(self)@.rows[BUFFER_HEIGHT - 1],
            ),
    {
        proof {
            use_type_invariant(&*self);
        }
        let mut row: usize = 1;
        while row < BUFFER_HEIGHT
            invariant
                1 <= row <= BUFFER_HEIGHT,
                self.row_position < BUFFER_HEIGHT,
                self.column_position < BUFFER_WIDTH,
                self.column_position == old(self).column_position,
                self.row_position == old(self).row_position,
                self.color_code == old(self).color_code,
                forall|r: int|
                    0 <= r < row - 1 ==> #[trigger] self.buffer.chars@[r] == old(
                        self,
                    ).buffer.chars@[r + 1],
                forall|r: int|
                    row - 1 <= r < BUFFER_HEIGHT ==> #[trigger] self.buffer.chars@[r] == old(
                        self,
                    ).buffer.chars@[r],
            decreases BUFFER_HEIGHT - row,
        {
            let mut col: usize = 0;
            let ghost before = self.buffer.chars@;
            while col < BUFFER_WIDTH
                invariant
                    1 <= row < BUFFER_HEIGHT,
                    col <= BUFFER_WIDTH,
                    self.row_position < BUFFER_HEIGHT,
                    self.column_position < BUFFER_WIDTH,
                    self.column_position == old(self).column_position,
                    self.row_position == old(self).row_position,
                    self.color_code == old(self).color_code,
                    forall|r: int|
                        0 <= r < BUFFER_HEIGHT && r != row - 1 ==> #[trigger] self.buffer.chars@[r]
                            == before[r],
                    forall|c: int|
                        0 <= c < col ==> #[trigger] self.buffer.chars@[row - 1]@[c]
                            == before[row as int]@[c],
                decreases BUFFER_WIDTH - col,
            {
                let character: ScreenChar = self.buffer.chars[row][col];
                self.buffer.chars[row - 1][col] = character;
                col += 1;
            }
            proof {
                assert(self.buffer.chars@[row - 1]@ =~= before[row as int]@);
                assert(self.buffer.chars@[row - 1] =~= before[row as int]);
            }
            row += 1;
        }
        proof {
            assert(self@.rows =~= old(self)@.rows.skip(1).push(old(self)@.rows[BUFFER_HEIGHT - 1]));
        }
    }

    /// Goes to the start of the next row.
    fn new_line(&mut self)
        ensures
            final(self).colors() == old(self).colors(),
            final(self)@ == after_new_line(old(self)@, old(self).colors()),
    {
        proof {
            use_type_invariant(&*self);
        }
        if self.row_position + 1 >= BUFFER_HEIGHT {
            self.scroll_screen();
            self.clear_line();
        } else {
            self.row_position += 1;
            self.clear_line();
        }
        self.column_position = 0;
        proof {
            assert(self@.rows =~= after_new_line(old(self)@, old(self).colors()).rows);
        }
    }

    /// Writes one byte at the cursor.
    pub fn write_byte(&mut self, byte: u8)
        ensures
            final(self).colors() == old(self).colors(),
            final(self)@ == after_byte(old(self)@, old(self).colors(), byte),
    {
        proof {
            use_type_invariant(&*self);
        }
        if byte == LINE_FEED {
            self.new_line();
        } else {
            let row: usize = self.row_position;
            let col: usize = self.column_position;
            self.buffer.chars[row][col] = ScreenChar {
                ascii_character: byte,
                color_code: self.color_code,
            };
            proof {
                assert(self@.rows =~= old(self)@.rows.update(
                    row as int,
                    old(self)@.rows[row as int].update(
                        col as int,
                        ScreenChar { ascii_character: byte, color_code: self.color_code },
                    ),
                ));
            }
            if col + 1 >= BUFFER_WIDTH {
                self.new_line();
            } else {
                self.column_position = col + 1;
            }
        }
    }

    /// Writes the bytes of a string. A byte that is neither a printable
    /// character nor a line feed is written as the mark for an unprintable
    /// byte.
    pub fn write_string(&mut self, s: &str)
        ensures
            final(self).colors() == old(self).colors(),
            final(self)@ == after_bytes(old(self)@, old(self).colors(), s.spec_bytes()),
    {
        let bytes: &[u8] = s.as_bytes();
        let mut at: usize = 0;
        while at < bytes.len()
            invariant
                at <= bytes.len(),
                bytes@ == s.spec_bytes(),
                self.colors() == old(self).colors(),
                self@ == after_bytes(old(self)@, old(self).colors(), bytes@.take(at as int)),
            decreases bytes.len() - at,
        {
            let byte: u8 = bytes[at];
            proof {
                assert(bytes@.take(at + 1).drop_last() =~= bytes@.take(at as int));
            }
            if (0x20 <= byte && byte <= 0x7f) || byte == LINE_FEED {
                self.write_byte(byte);
            } else {
                self.write_byte(UNPRINTABLE);
            }
            at += 1;
        }
        proof {
            assert(bytes@.take(at as int) =~= bytes@);
        }
    }

    /// Fills the screen with spaces and puts the cursor in the first cell.
    pub fn clear_screen(&mut self)
        ensures
            final(self).colors() == old(self).colors(),
            final(self)@ == cleared(old(self).colors()),
    {
        proof {
            use_type_invariant(&*self);
        }
        let blank = ScreenChar { ascii_character: SPACE, color_code: self.color_code };
        let mut row: usize = 0;
        while row < BUFFER_HEIGHT
            invariant
                row <= BUFFER_HEIGHT,
                self.row_position < BUFFER_HEIGHT,
                self.column_position < BUFFER_WIDTH,
                self.color_code == old(self).color_code,
                blank == (ScreenChar { ascii_character: SPACE, color_code: self.color_code }),
                forall|r: int, c: int|
                    0 <= r < row && 0 <= c < BUFFER_WIDTH ==> #[trigger] self.buffer.chars@[r]@[c]
                        == blank,
            decreases BUFFER_HEIGHT - row,
        {
            let mut col: usize = 0;
            while col < BUFFER_WIDTH
                invariant
                    row < BUFFER_HEIGHT,
                    col <= BUFFER_WIDTH,
                    self.row_position < BUFFER_HEIGHT,
                    self.column_position < BUFFER_WIDTH,
                    self.color_code == old(self).color_code,
                    blank == (ScreenChar { ascii_character: SPACE, color_code: self.color_code }),
                    forall|r: int, c: int|
                        0 <= r < row && 0 <= c < BUFFER_WIDTH
                            ==> #[trigger] self.buffer.chars@[r]@[c] == blank,
                    forall|c: int|
                        0 <= c < col ==> #[trigger] self.buffer.chars@[row as int]@[c] == blank,
                decreases BUFFER_WIDTH - col,
            {
                self.buffer.chars[row][col] = blank;
                col += 1;
            }
            row += 1;
        }
        self.column_position = 0;
        self.row_position = 0;
        proof {
            assert forall|r: int| 0 <= r < BUFFER_HEIGHT implies #[trigger] self@.rows[r]
                =~= blank_row(self.color_code) by {}
            assert(self@.rows =~= cleared(self.color_code).rows);
        }
    }

    /// Number of the cell in which the cursor stands, counted row by row
    /// from the first cell: what the cursor registers of the display take.
    pub fn cursor_index(&self) -> (index: u16)
        ensures
            index == self@.row * BUFFER_WIDTH + self@.column,
    {
        proof {
            use_type_invariant(self);
        }
        (self.row_position * BUFFER_WIDTH + self.column_position) as u16
    }

    /// The writes that make the display show the cursor where it stands.
    pub fn refresh_cursor(&self) -> (writes: [PortWrite; 4])
        ensures
            writes@ == cursor_writes((self@.row * BUFFER_WIDTH + self@.column) as u16),
    {
        let index: u16 = self.cursor_index();
        let index_port: UnsafePort<u8> = UnsafePort::new(CRT_INDEX_PORT);
        let data_port: UnsafePort<u8> = UnsafePort::new(CRT_DATA_PORT);
        let writes: [PortWrite; 4] = [
            index_port.write(CURSOR_HIGH),
            data_port.write((index / 0x100) as u8),
            index_port.write(CURSOR_LOW),
            data_port.write((index % 0x100) as u8),
        ];
        assert(writes@ =~= cursor_writes(index));
        writes
    }

    /// The cell in the given row and column.
    pub fn cell(&self, row: usize, column: usize) -> (cell: ScreenChar)
        requires
            row < BUFFER_HEIGHT,
            column < BUFFER_WIDTH,
        ensures
            cell == self@.rows[row as int][column as int],
    {
        self.buffer.chars[row][column]
    }
}

/// Writes a string to the screen.
pub fn print(writer: &mut Writer, text: &str)
    ensures
        final(writer).colors() == old(writer).colors(),
        final(writer)@ == after_bytes(old(writer)@, old(writer).colors(), text.spec_bytes()),
{
    writer.write_string(text);
}

/// Every screen of a writer has 25 rows of 80 cells with the cursor in one of
/// them, and writing keeps it so.
pub proof fn lemma_screens_are_well_formed(screen: Screen, color_code: ColorCode, byte: u8)
    requires
        screen_wf(screen),
    ensures
        screen_wf(cleared(color_code)),
        screen_wf(after_new_line(screen, color_code)),
        screen_wf(after_byte(screen, color_code, byte)),
{
}

} // verus!
