//! Colours and the text-mode screen: a writer that lays bytes out on a grid
//! of 25 rows of 80 cells, wrapping to a fresh row at the right edge and back
//! to the top below the last row. The hardware side (the memory-mapped grid
//! and the cursor registers) takes the values computed here.

use vstd::prelude::*;
use vstd::string::StringSliceAdditionalSpecFns;

verus! {

pub const BUFFER_HEIGHT: usize = 25;

pub const BUFFER_WIDTH: usize = 80;

/// The byte shown in place of one the screen's code page cannot show.
pub const REPLACEMENT_BYTE: u8 = 0xfe;

/// The sixteen text-mode colours, in hardware order.
#[derive(Clone, Copy, PartialEq, Eq, Structural, Debug)]
pub enum Colour {
    Black,
    Blue,
    Green,
    Cyan,
    Red,
    Magenta,
    Brown,
    LightGray,
    DarkGray,
    LightBlue,
    LightGreen,
    LightCyan,
    LightRed,
    Pink,
    Yellow,
    White,
}

impl Colour {
    /// The colour's four-bit hardware number.
    pub open spec fn spec_index(self) -> u8 {
        match self {
            Colour::Black => 0,
            Colour::Blue => 1,
            Colour::Green => 2,
            Colour::Cyan => 3,
            Colour::Red => 4,
            Colour::Magenta => 5,
            Colour::Brown => 6,
            Colour::LightGray => 7,
            Colour::DarkGray => 8,
            Colour::LightBlue => 9,
            Colour::LightGreen => 10,
            Colour::LightCyan => 11,
            Colour::LightRed => 12,
            Colour::Pink => 13,
            Colour::Yellow => 14,
            Colour::White => 15,
        }
    }

    pub fn index(self) -> (r: u8)
        ensures
            r == self.spec_index(),
            r < 16,
    {
        match self {
            Colour::Black => 0,
            Colour::Blue => 1,
            Colour::Green => 2,
            Colour::Cyan => 3,
            Colour::Red => 4,
            Colour::Magenta => 5,
            Colour::Brown => 6,
            Colour::LightGray => 7,
            Colour::DarkGray => 8,
            Colour::LightBlue => 9,
            Colour::LightGreen => 10,
            Colour::LightCyan => 11,
            Colour::LightRed => 12,
            Colour::Pink => 13,
            Colour::Yellow => 14,
            Colour::White => 15,
        }
    }
}

/// A cell's attribute byte: background colour in the high nibble, foreground
/// in the low one.
#[derive(Clone, Copy, PartialEq, Eq, Structural, Debug)]
pub struct ColourCode(pub u8);

pub open spec fn colour_code_of(foreground: Colour, background: Colour) -> ColourCode {
    ColourCode((background.spec_index() * 16 + foreground.spec_index()) as u8)
}

impl ColourCode {
    pub fn new(foreground: Colour, background: Colour) -> (r: Self)
        ensures
            r == colour_code_of(foreground, background),
    {
        let b = background.index();
        let f = foreground.index();
        assert((b << 4u8) | f == b * 16 + f) by (bit_vector)
            requires
                b < 16u8,
                f < 16u8,
        ;
        ColourCode((b << 4u8) | f)
    }

    /// A foreground colour on black.
    pub fn new_fg(foreground: Colour) -> (r: Self)
        ensures
            r == colour_code_of(foreground, Colour::Black),
    {
        Self::new(foreground, Colour::Black)
    }
}

impl From<Colour> for ColourCode {
    fn from(foreground: Colour) -> (r: ColourCode) {
        ColourCode::new_fg(foreground)
    }
}

impl vstd::std_specs::convert::FromSpecImpl<Colour> for ColourCode {
    open spec fn obeys_from_spec() -> bool {
        true
    }

    open spec fn from_spec(v: Colour) -> ColourCode {
        colour_code_of(v, Colour::Black)
    }
}

/// One cell of the screen: a byte of the code page and its attribute.
#[derive(Clone, Copy, PartialEq, Eq, Structural, Debug)]
pub struct ScreenChar {
    pub ascii_character: u8,
    pub colour_code: ColourCode,
}

pub open spec fn blank(colour: ColourCode) -> ScreenChar {
    ScreenChar { ascii_character: 0x20, colour_code: colour }
}

/// The row a line feed moves to: the next one, or the top after the last.
pub open spec fn next_row(row: int) -> int {
    if row + 1 >= BUFFER_HEIGHT {
        0
    } else {
        row + 1
    }
}

/// The screen with row `line` blanked in `colour`.
pub open spec fn cleared(screen: Seq<ScreenChar>, line: int, colour: ColourCode) -> Seq<ScreenChar> {
    Seq::new(
        screen.len(),
        |i: int|
            if i / (BUFFER_WIDTH as int) == line {
                blank(colour)
            } else {
                screen[i]
            },
    )
}

/// The byte a string's byte is shown as: printable ASCII and the line feed as
/// they are, anything else as the replacement byte.
pub open spec fn shown_byte(b: u8) -> u8 {
    if (0x20 <= b && b <= 0x7e) || b == 0x0a {
        b
    } else {
        REPLACEMENT_BYTE
    }
}

/// Row, column and screen after a line feed.
pub open spec fn new_line_spec(row: int, screen: Seq<ScreenChar>, colour: ColourCode) -> (int, int, Seq<ScreenChar>) {
    (next_row(row), 0, cleared(screen, next_row(row), colour))
}

/// Row, column and screen after one byte is written: a line feed starts a new
/// row; any other byte fills the cell under the cursor, after a new row when
/// the cursor stands past the right edge.
pub open spec fn write_byte_spec(
    row: int,
    col: int,
    screen: Seq<ScreenChar>,
    colour: ColourCode,
    b: u8,
) -> (int, int, Seq<ScreenChar>) {
    if b == 0x0a {
        new_line_spec(row, screen, colour)
    } else {
        let (r, c, s) = if col >= BUFFER_WIDTH {
            new_line_spec(row, screen, colour)
        } else {
            (row, col, screen)
        };
        (r, c + 1, s.update(r * BUFFER_WIDTH + c, ScreenChar { ascii_character: b, colour_code: colour }))
    }
}

/// Row, column and screen after each byte of `bytes` is shown in turn.
pub open spec fn write_bytes_spec(
    row: int,
    col: int,
    screen: Seq<ScreenChar>,
    colour: ColourCode,
    bytes: Seq<u8>,
) -> (int, int, Seq<ScreenChar>)
    decreases bytes.len(),
{
    if bytes.len() == 0 {
        (row, col, screen)
    } else {
        let (r, c, s) = write_bytes_spec(row, col, screen, colour, bytes.drop_last());
        write_byte_spec(r, c, s, colour, shown_byte(bytes.last()))
    }
}

/// The text screen: cursor, current and stashed attribute, and the cells row
/// after row.
pub struct Writer {
    pub col_position: usize,
    pub row_position: usize,
    pub colour_code: ColourCode,
    stashed_colour_code: ColourCode,
    chars: Vec<ScreenChar>,
}

impl Writer {
    pub closed spec fn screen(&self) -> Seq<ScreenChar> {
        self.chars@
    }

    pub closed spec fn row(&self) -> usize {
        self.row_position
    }

    pub closed spec fn col(&self) -> usize {
        self.col_position
    }

    pub closed spec fn colour(&self) -> ColourCode {
        self.colour_code
    }

    pub closed spec fn stashed(&self) -> ColourCode {
        self.stashed_colour_code
    }

    pub open spec fn wf(&self) -> bool {
        &&& self.screen().len() == BUFFER_HEIGHT * BUFFER_WIDTH
        &&& self.row() < BUFFER_HEIGHT
        &&& self.col() <= BUFFER_WIDTH
    }

    /// A blank screen in `colour_code` with the cursor at the top left.
    pub fn new(colour_code: ColourCode) -> (r: Self)
        ensures
            r.wf(),
            r.row() == 0,
            r.col() == 0,
            r.colour() == colour_code,
            r.stashed() == colour_code,
            r.screen() == Seq::new((BUFFER_HEIGHT * BUFFER_WIDTH) as nat, |i: int| blank(colour_code)),
    {
        let mut chars: Vec<ScreenChar> = Vec::new();
        let n: usize = BUFFER_HEIGHT * BUFFER_WIDTH;
        while chars.len() < n
            invariant
                chars.len() <= n,
                n == BUFFER_HEIGHT * BUFFER_WIDTH,
                forall|i: int| 0 <= i < chars.len() ==> #[trigger] chars@[i] == blank(colour_code),
            decreases n - chars.len(),
        {
            chars.push(ScreenChar { ascii_character: 0x20, colour_code });
        }
        proof {
            assert(chars@ =~= Seq::new((BUFFER_HEIGHT * BUFFER_WIDTH) as nat, |i: int| blank(colour_code)));
        }
        Writer { col_position: 0, row_position: 0, colour_code, stashed_colour_code: colour_code, chars }
    }

    /// The cell at `row`, `col`.
    pub fn char_at(&self, row: usize, col: usize) -> (r: ScreenChar)
        requires
            self.wf(),
            row < BUFFER_HEIGHT,
            col < BUFFER_WIDTH,
        ensures
            r == self.screen()[row * BUFFER_WIDTH + col],
    {
        self.chars[row * BUFFER_WIDTH + col]
    }

    fn clear_line(&mut self, line: usize)
        requires
            old(self).wf(),
            line < BUFFER_HEIGHT,
        ensures
            final(self).wf(),
            final(self).row() == old(self).row(),
            final(self).col() == old(self).col(),
            final(self).colour() == old(self).colour(),
            final(self).stashed() == old(self).stashed(),
            final(self).screen() == cleared(old(self).screen(), line as int, old(self).colour()),
    {
        let start: usize = line * BUFFER_WIDTH;
        let mut col: usize = 0;
        while col < BUFFER_WIDTH
            invariant
                self.wf(),
                line < BUFFER_HEIGHT,
                start == line * BUFFER_WIDTH,
                col <= BUFFER_WIDTH,
                self.row_position == old(self).row(),
                self.col_position == old(self).col(),
                self.colour_code == old(self).colour(),
                self.stashed() == old(self).stashed(),
                forall|i: int|
                    0 <= i < self.screen().len() ==> #[trigger] self.screen()[i] == (if i / (BUFFER_WIDTH as int)
                        == line && i % (BUFFER_WIDTH as int) < col {
                        blank(self.colour_code)
                    } else {
                        old(self).screen()[i]
                    }),
            decreases BUFFER_WIDTH - col,
        {
            let colour_code = self.colour_code;
            self.chars.set(start + col, ScreenChar { ascii_character: 0x20, colour_code });
            col += 1;
        }
        proof {
            assert(self.screen() =~= cleared(old(self).screen(), line as int, old(self).colour()));
        }
    }

    fn new_line(&mut self)
        requires
            old(self).wf(),
        ensures
            final(self).wf(),
            final(self).colour() == old(self).colour(),
            final(self).stashed() == old(self).stashed(),
            (final(self).row() as int, final(self).col() as int, final(self).screen())
                == new_line_spec(old(self).row() as int, old(self).screen(), old(self).colour()),
    {
        self.col_position = 0;
        self.row_position = self.row_position + 1;
        if self.row_position >= BUFFER_HEIGHT {
            self.row_position = 0;
        }
        let row = self.row_position;
        self.clear_line(row);
    }

    /// Writes one byte as it is: a line feed starts a new row, any other byte
    /// fills the cell under the cursor.
    pub fn write_byte(&mut self, byte: u8)
        requires
            old(self).wf(),
        ensures
            final(self).wf(),
            final(self).colour() == old(self).colour(),
            final(self).stashed() == old(self).stashed(),
            (final(self).row() as int, final(self).col() as int, final(self).screen())
                == write_byte_spec(
                old(self).row() as int,
                old(self).col() as int,
                old(self).screen(),
                old(self).colour(),
                byte,
            ),
    {
        if byte == 0x0a {
            self.new_line();
        } else {
            if self.col_position >= BUFFER_WIDTH {
                self.new_line();
            }
            let row = self.row_position;
            let col = self.col_position;
            let colour_code = self.colour_code;
            self.chars.set(row * BUFFER_WIDTH + col, ScreenChar { ascii_character: byte, colour_code });
            self.col_position = col + 1;
        }
    }

    /// Writes a string, each byte as `shown_byte` says.
    pub fn write_string(&mut self, s: &str)
        requires
            old(self).wf(),
        ensures
            final(self).wf(),
            final(self).colour() == old(self).colour(),
            final(self).stashed() == old(self).stashed(),
            (final(self).row() as int, final(self).col() as int, final(self).screen())
                == write_bytes_spec(
                old(self).row() as int,
                old(self).col() as int,
                old(self).screen(),
                old(self).colour(),
                s.spec_bytes(),
            ),
    {
        let bytes = s.as_bytes();
        let mut i: usize = 0;
        while i < bytes.len()
            invariant
                self.wf(),
                bytes@ == s.spec_bytes(),
                i <= bytes.len(),
                self.colour_code == old(self).colour(),
                self.stashed() == old(self).stashed(),
                (self.row_position as int, self.col_position as int, self.screen()) == write_bytes_spec(
                    old(self).row() as int,
                    old(self).col() as int,
                    old(self).screen(),
                    old(self).colour(),
                    bytes@.subrange(0, i as int),
                ),
            decreases bytes.len() - i,
        {
            let b = bytes[i];
            let shown = if (0x20 <= b && b <= 0x7e) || b == 0x0a {
                b
            } else {
                REPLACEMENT_BYTE
            };
            self.write_byte(shown);
            proof {
                assert(bytes@.subrange(0, i + 1).drop_last() =~= bytes@.subrange(0, i as int));
            }
            i += 1;
        }
        proof {
            assert(bytes@.subrange(0, i as int) =~= bytes@);
        }
    }

    /// Sets the attribute for what follows, stashing the current one.
    pub fn set_temp_colour_code(&mut self, colour_code: ColourCode)
        ensures
            temp_colour_step(*old(self), *final(self), colour_code),
    {
        self.stashed_colour_code = self.colour_code;
        self.colour_code = colour_code;
    }

    /// Goes back to the attribute stashed by `set_temp_colour_code`.
    pub fn release_temp_colour_code(&mut self)
        ensures
            release_colour_step(*old(self), *final(self)),
    {
        self.colour_code = self.stashed_colour_code;
    }
}

/// What `set_temp_colour_code` does: the new attribute is current, the old
/// one stashed, and nothing else changes.
pub open spec fn temp_colour_step(pre: Writer, post: Writer, colour_code: ColourCode) -> bool {
    &&& post.colour() == colour_code
    &&& post.stashed() == pre.colour()
    &&& post.row() == pre.row()
    &&& post.col() == pre.col()
    &&& post.screen() == pre.screen()
}

/// What `release_temp_colour_code` does: the stashed attribute is current
/// again, and nothing else changes.
pub open spec fn release_colour_step(pre: Writer, post: Writer) -> bool {
    &&& post.colour() == pre.stashed()
    &&& post.stashed() == pre.stashed()
    &&& post.row() == pre.row()
    &&& post.col() == pre.col()
    &&& post.screen() == pre.screen()
}

/// A temporary attribute, with any writes made under it, gives way to the
/// attribute that was current before it once released.
pub proof fn lemma_temp_colour_restored(
    before: Writer,
    tinted: Writer,
    colour_code: ColourCode,
    written: Writer,
    after: Writer,
)
    requires
        temp_colour_step(before, tinted, colour_code),
        written.colour() == tinted.colour(),
        written.stashed() == tinted.stashed(),
        release_colour_step(written, after),
    ensures
        after.colour() == before.colour(),
        tinted.colour() == colour_code,
{
}

/// The cursor register offset of a screen position: cells counted row after
/// row from the top left.
pub fn cursor_offset(row: usize, col: usize) -> (r: u16)
    requires
        row < BUFFER_HEIGHT,
        col <= BUFFER_WIDTH,
    ensures
        r == row * BUFFER_WIDTH + col,
{
    (row * BUFFER_WIDTH + col) as u16
}

/// The low and the high byte of a cursor offset, in the order the cursor
/// location registers 0x0f and 0x0e take them.
pub fn cursor_offset_bytes(pos: u16) -> (r: (u8, u8))
    ensures
        r.0 == pos % 256,
        r.1 == pos / 256,
{
    let lo = (pos & 0xff) as u8;
    let hi = ((pos >> 8u16) & 0xff) as u8;
    assert(pos & 0xff == pos % 256 && (pos >> 8u16) & 0xff == pos / 256) by (bit_vector);
    (lo, hi)
}

/// The cursor-start register value with the cursor turned off (bit 5 set).
pub fn hidden_cursor_setting(value: u8) -> (r: u8)
    ensures
        r == value | 0x20,
{
    value | 0x20
}

/// The cursor-start register value with the cursor turned on (bit 5 clear).
pub fn shown_cursor_setting(value: u8) -> (r: u8)
    ensures
        r == value & 0xdf,
{
    let mask: u8 = 0xff ^ 0x20;
    assert(0xffu8 ^ 0x20u8 == 0xdfu8) by (bit_vector);
    value & mask
}

/// The cursor-start register value for a cursor `shape` scan lines high: the
/// high nibble kept, the start line `0xf - shape` in the low one.
pub fn cursor_height_setting(value: u8, shape: u8) -> (r: u8)
    ensures
        r == (value & 0xf0) | (0xf - (shape & 0x0f)) as u8,
{
    let low: u8 = shape & 0x0f;
    assert(shape & 0x0f <= 0xf) by (bit_vector);
    (value & 0xf0) | (0xf - low)
}

} // verus!
