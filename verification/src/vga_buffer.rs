//! Text console driver: a fixed 80x25 character-cell grid written from the
//! bottom row, with implicit line wrap and scroll-on-overflow.
//!
//! The `Writer` here owns a plain in-memory image of the grid; the hardware
//! binding (the volatile cell writes to the memory-mapped buffer) mirrors
//! this image cell for cell.

use vstd::prelude::*;
use vstd::string::StringSliceAdditionalSpecFns;

verus! {

pub const BUFFER_HEIGHT: usize = 25;

pub const BUFFER_WIDTH: usize = 80;

pub const LAST_LINE: usize = 24;

/// Code stored in place of a byte outside the printable range.
pub const UNKNOWN_GLYPH: u8 = 0xFE;

#[allow(dead_code)]
#[derive(Clone, Copy, PartialEq, Eq, Structural, Debug)]
pub enum VGAColour {
    Black,
    Blue,
    Green,
    Cyan,
    Red,
    Magenta,
    Brown,
    LightGray,
    DarkGray,
    LightBlue,
    LightGreen,
    LightCyan,
    LightRed,
    Pink,
    Yellow,
    White,
}

/// The 4-bit hardware code of a colour.
pub open spec fn colour_num(c: VGAColour) -> u8 {
    match c {
        VGAColour::Black => 0,
        VGAColour::Blue => 1,
        VGAColour::Green => 2,
        VGAColour::Cyan => 3,
        VGAColour::Red => 4,
        VGAColour::Magenta => 5,
        VGAColour::Brown => 6,
        VGAColour::LightGray => 7,
        VGAColour::DarkGray => 8,
        VGAColour::LightBlue => 9,
        VGAColour::LightGreen => 10,
        VGAColour::LightCyan => 11,
        VGAColour::LightRed => 12,
        VGAColour::Pink => 13,
        VGAColour::Yellow => 14,
        VGAColour::White => 15,
    }
}

/// The colour a 4-bit hardware code names.
pub open spec fn spec_colour_of(n: u8) -> VGAColour {
    if n == 0 {
        VGAColour::Black
    } else if n == 1 {
        VGAColour::Blue
    } else if n == 2 {
        VGAColour::Green
    } else if n == 3 {
        VGAColour::Cyan
    } else if n == 4 {
        VGAColour::Red
    } else if n == 5 {
        VGAColour::Magenta
    } else if n == 6 {
        VGAColour::Brown
    } else if n == 7 {
        VGAColour::LightGray
    } else if n == 8 {
        VGAColour::DarkGray
    } else if n == 9 {
        VGAColour::LightBlue
    } else if n == 10 {
        VGAColour::LightGreen
    } else if n == 11 {
        VGAColour::LightCyan
    } else if n == 12 {
        VGAColour::LightRed
    } else if n == 13 {
        VGAColour::Pink
    } else if n == 14 {
        VGAColour::Yellow
    } else {
        VGAColour::White
    }
}

impl VGAColour {
    /// The 4-bit code of this colour.
    pub fn code(self) -> (r: u8)
        ensures
            r == colour_num(self),
    {
        match self {
            VGAColour::Black => 0,
            VGAColour::Blue => 1,
            VGAColour::Green => 2,
            VGAColour::Cyan => 3,
            VGAColour::Red => 4,
            VGAColour::Magenta => 5,
            VGAColour::Brown => 6,
            VGAColour::LightGray => 7,
            VGAColour::DarkGray => 8,
            VGAColour::LightBlue => 9,
            VGAColour::LightGreen => 10,
            VGAColour::LightCyan => 11,
            VGAColour::LightRed => 12,
            VGAColour::Pink => 13,
            VGAColour::Yellow => 14,
            VGAColour::White => 15,
        }
    }

    /// The colour named by a 4-bit code.
    pub fn from_code(n: u8) -> (r: VGAColour)
        requires
            n < 16,
        ensures
            r == spec_colour_of(n),
            colour_num(r) == n,
    {
        let r = if n == 0 {
            VGAColour::Black
        } else if n == 1 {
            VGAColour::Blue
        } else if n == 2 {
            VGAColour::Green
        } else if n == 3 {
            VGAColour::Cyan
        } else if n == 4 {
            VGAColour::Red
        } else if n == 5 {
            VGAColour::Magenta
        } else if n == 6 {
            VGAColour::Brown
        } else if n == 7 {
            VGAColour::LightGray
        } else if n == 8 {
            VGAColour::DarkGray
        } else if n == 9 {
            VGAColour::LightBlue
        } else if n == 10 {
            VGAColour::LightGreen
        } else if n == 11 {
            VGAColour::LightCyan
        } else if n == 12 {
            VGAColour::LightRed
        } else if n == 13 {
            VGAColour::Pink
        } else if n == 14 {
            VGAColour::Yellow
        } else {
            VGAColour::White
        };
        r
    }
}

/// A colour attribute byte: the high nibble is the background colour, the
/// low nibble the foreground colour.
#[derive(Clone, Copy, PartialEq, Eq, Structural, Debug)]
pub struct ColourCode(pub u8);

/// The attribute byte that encodes a background/foreground pair.
pub open spec fn colour_code_byte(background_col: VGAColour, foreground_col: VGAColour) -> u8 {
    (colour_num(background_col) << 4) | colour_num(foreground_col)
}

impl ColourCode {
    /// Pack a background/foreground pair into one attribute byte.
    pub fn new(background_col: VGAColour, foreground_col: VGAColour) -> (r: ColourCode)
        ensures
            r.0 == colour_code_byte(background_col, foreground_col),
    {
        ColourCode((background_col.code() << 4) | foreground_col.code())
    }

    /// The background colour held in the high nibble.
    pub fn background(self) -> (r: VGAColour)
        ensures
            r == spec_colour_of(self.0 >> 4),
    {
        let n = self.0;
        proof {
            assert((n >> 4) < 16) by (bit_vector);
        }
        VGAColour::from_code(n >> 4)
    }

    /// The foreground colour held in the low nibble.
    pub fn foreground(self) -> (r: VGAColour)
        ensures
            r == spec_colour_of(self.0 & 0x0F),
    {
        let n = self.0;
        proof {
            assert((n & 0x0F) < 16) by (bit_vector);
        }
        VGAColour::from_code(n & 0x0F)
    }
}

/// Encoding a background/foreground pair and decoding the two nibbles of the
/// attribute byte recovers the original pair, for every pair of colours.
pub proof fn lemma_colour_code_round_trip(background_col: VGAColour, foreground_col: VGAColour)
    ensures
        spec_colour_of(colour_code_byte(background_col, foreground_col) >> 4) == background_col,
        spec_colour_of(colour_code_byte(background_col, foreground_col) & 0x0F) == foreground_col,
{
    let b = colour_num(background_col);
    let f = colour_num(foreground_col);
    assert(b < 16 && f < 16);
    assert(((b << 4) | f) >> 4 == b && ((b << 4) | f) & 0x0F == f) by (bit_vector)
        requires
            b < 16 && f < 16,
    ;
    assert(spec_colour_of(b) == background_col);
    assert(spec_colour_of(f) == foreground_col);
}

/// One cell of the grid: a printable byte and its colour attribute.
#[derive(Clone, Copy, PartialEq, Eq, Structural, Debug)]
pub struct ScreenChar {
    pub ascii_char: u8,
    pub colour_byte: ColourCode,
}

/// The mathematical state of the console: the column the next byte lands in,
/// the current colour, and the grid contents, row by row.
#[verifier::ext_equal]
pub ghost struct ConsoleState {
    pub col: nat,
    pub colour: ColourCode,
    pub grid: Seq<Seq<ScreenChar>>,
}

pub open spec fn state_wf(s: ConsoleState) -> bool {
    &&& s.col <= BUFFER_WIDTH
    &&& s.grid.len() == BUFFER_HEIGHT
    &&& forall|r: int| 0 <= r < BUFFER_HEIGHT ==> (#[trigger] s.grid[r]).len() == BUFFER_WIDTH
}

pub open spec fn blank_char(colour: ColourCode) -> ScreenChar {
    ScreenChar { ascii_char: 0x20, colour_byte: colour }
}

pub open spec fn blank_row(colour: ColourCode) -> Seq<ScreenChar> {
    Seq::new(BUFFER_WIDTH as nat, |c: int| blank_char(colour))
}

pub open spec fn blank_grid(colour: ColourCode) -> Seq<Seq<ScreenChar>> {
    Seq::new(BUFFER_HEIGHT as nat, |r: int| blank_row(colour))
}

/// Every row overwritten with the row below it; the bottom row cleared to
/// blanks in the given colour. Row 0's original content is discarded.
pub open spec fn scroll_grid(g: Seq<Seq<ScreenChar>>, colour: ColourCode) -> Seq<Seq<ScreenChar>> {
    Seq::new(
        BUFFER_HEIGHT as nat,
        |r: int| if r < LAST_LINE { g[r + 1] } else { blank_row(colour) },
    )
}

/// The grid with one cell of the bottom row replaced.
pub open spec fn put_cell(g: Seq<Seq<ScreenChar>>, col: int, ch: ScreenChar) -> Seq<
    Seq<ScreenChar>,
> {
    g.update(LAST_LINE as int, g[LAST_LINE as int].update(col, ch))
}

/// What one byte does to the console: newline scrolls; a full row scrolls
/// before the byte is placed; otherwise the byte lands at the current column
/// of the bottom row and the column advances.
pub open spec fn step(s: ConsoleState, b: u8) -> ConsoleState {
    if b == 0x0A {
        ConsoleState { col: 0, colour: s.colour, grid: scroll_grid(s.grid, s.colour) }
    } else if s.col >= BUFFER_WIDTH {
        ConsoleState {
            col: 1,
            colour: s.colour,
            grid: put_cell(
                scroll_grid(s.grid, s.colour),
                0,
                ScreenChar { ascii_char: b, colour_byte: s.colour },
            ),
        }
    } else {
        ConsoleState {
            col: s.col + 1,
            colour: s.colour,
            grid: put_cell(s.grid, s.col as int, ScreenChar { ascii_char: b, colour_byte: s.colour }),
        }
    }
}

/// A sequence of bytes applied in order.
pub open spec fn steps(s: ConsoleState, bs: Seq<u8>) -> ConsoleState
    decreases bs.len(),
{
    if bs.len() == 0 {
        s
    } else {
        step(steps(s, bs.drop_last()), bs.last())
    }
}

pub open spec fn printable(b: u8) -> bool {
    0x20 <= b && b <= 0x7E
}

/// The byte actually stored for a byte of input: printable bytes and newline
/// pass through, anything else is substituted with the unknown glyph.
pub open spec fn vga_byte(b: u8) -> u8 {
    if printable(b) || b == 0x0A {
        b
    } else {
        UNKNOWN_GLYPH
    }
}

pub open spec fn vga_bytes(bs: Seq<u8>) -> Seq<u8> {
    bs.map_values(|b: u8| vga_byte(b))
}

/// The console driver. It owns the grid image; `column_position` is the only
/// addressing state: output always lands on the bottom row and only the
/// scroll path shifts content upward.
pub struct Writer {
    column_position: usize,
    colour_code: ColourCode,
    buffer: Vec<ScreenChar>,
}

impl View for Writer {
    type V = ConsoleState;

    closed spec fn view(&self) -> ConsoleState {
        ConsoleState {
            col: self.column_position as nat,
            colour: self.colour_code,
            grid: Seq::new(
                BUFFER_HEIGHT as nat,
                |r: int| Seq::new(BUFFER_WIDTH as nat, |c: int| self.buffer@[r * 80 + c]),
            ),
        }
    }
}

impl Writer {
    pub open spec fn wf(&self) -> bool {
        &&& state_wf(self@)
        &&& self.inv()
    }

    #[verifier::opaque]
    pub closed spec fn inv(&self) -> bool {
        self.buffer@.len() == 2000
    }

    /// A fresh writer: column 0, the given colour, a grid of blanks.
    pub fn new(colour: ColourCode) -> (w: Writer)
        ensures
            w.wf(),
            w@.col == 0,
            w@.colour == colour,
            w@.grid =~~= blank_grid(colour),
    {
        let mut buffer: Vec<ScreenChar> = Vec::new();
        let mut i: usize = 0;
        while i < 2000
            invariant
                i <= 2000,
                buffer@.len() == i,
                forall|j: int| 0 <= j < i ==> buffer@[j] == blank_char(colour),
            decreases 2000 - i,
        {
            buffer.push(ScreenChar { ascii_char: 0x20, colour_byte: colour });
            i += 1;
        }
        let w = Writer { column_position: 0, colour_code: colour, buffer };
        proof {
            reveal(Writer::inv);
            assert(w@.grid =~~= blank_grid(colour));
        }
        w
    }

    pub fn column_position(&self) -> (r: usize)
        ensures
            r == self@.col,
    {
        self.column_position
    }

    pub fn colour_code(&self) -> (r: ColourCode)
        ensures
            r == self@.colour,
    {
        self.colour_code
    }

    /// The cell at the given row and column of the grid image.
    pub fn char_at(&self, row: usize, col: usize) -> (r: ScreenChar)
        requires
            self.wf(),
            row < BUFFER_HEIGHT,
            col < BUFFER_WIDTH,
        ensures
            r == self@.grid[row as int][col as int],
    {
        proof {
            reveal(Writer::inv);
        }
        self.buffer[row * 80 + col]
    }

    /// Scroll: every row except the first is overwritten with the row above
    /// it, the bottom row is cleared to blanks, and the column resets to 0.
    fn new_line(&mut self)
        requires
            old(self).wf(),
        ensures
            final(self).wf(),
            final(self)@.col == 0,
            final(self)@.colour == old(self)@.colour,
            final(self)@.grid =~~= scroll_grid(old(self)@.grid, old(self)@.colour),
    {
        proof {
            reveal(Writer::inv);
        }
        let ghost orig: Seq<ScreenChar> = self.buffer@;
        let mut i: usize = 80;
        while i < 2000
            invariant
                80 <= i <= 2000,
                self.buffer@.len() == 2000,
                orig.len() == 2000,
                self.colour_code == old(self).colour_code,
                self.column_position == old(self).column_position,
                forall|j: int| 0 <= j < i - 80 ==> self.buffer@[j] == orig[j + 80],
                forall|j: int| i - 80 <= j < 2000 ==> self.buffer@[j] == orig[j],
            decreases 2000 - i,
        {
            let ch = self.buffer[i];
            self.buffer.set(i - 80, ch);
            i += 1;
        }
        proof {
            reveal(Writer::inv);
        }
        self.clear_row_cells();
        self.column_position = 0;
        proof {
            assert(self@.grid =~~= scroll_grid(old(self)@.grid, old(self)@.colour));
        }
    }

    /// Overwrite the bottom row with blanks in the current colour.
    fn clear_row_cells(&mut self)
        requires
            old(self).inv(),
        ensures
            final(self).inv(),
            final(self).buffer@.len() == old(self).buffer@.len(),
            final(self).column_position == old(self).column_position,
            final(self).colour_code == old(self).colour_code,
            forall|j: int|
                0 <= j < 1920 ==> final(self).buffer@[j] == old(self).buffer@[j],
            forall|j: int|
                1920 <= j < 2000 ==> final(self).buffer@[j] == blank_char(
                    old(self).colour_code,
                ),
    {
        proof {
            reveal(Writer::inv);
        }
        let blank_ch = ScreenChar { ascii_char: 0x20, colour_byte: self.colour_code };
        let mut i: usize = 1920;
        while i < 2000
            invariant
                1920 <= i <= 2000,
                self.buffer@.len() == 2000,
                self.colour_code == old(self).colour_code,
                self.column_position == old(self).column_position,
                blank_ch == blank_char(old(self).colour_code),
                forall|j: int| 0 <= j < 1920 ==> self.buffer@[j] == old(self).buffer@[j],
                forall|j: int| 1920 <= j < i ==> self.buffer@[j] == blank_ch,
                forall|j: int| i <= j < 2000 ==> self.buffer@[j] == old(self).buffer@[j],
            decreases 2000 - i,
        {
            self.buffer.set(i, blank_ch);
            i += 1;
        }
    }

    /// Write one byte at the bottom row's current column, scrolling first on
    /// newline or when the row is full. A byte outside the printable range
    /// that is not a newline is substituted with the unknown glyph rather
    /// than written raw or rejected, so no input can corrupt the display
    /// encoding.
    pub fn write_byte(&mut self, byte: u8)
        requires
            old(self).wf(),
        ensures
            final(self).wf(),
            final(self)@ =~~= step(old(self)@, vga_byte(byte)),
    {
        let byte = if (0x20 <= byte && byte <= 0x7E) || byte == 0x0A {
            byte
        } else {
            UNKNOWN_GLYPH
        };
        if byte == 0x0A {
            self.new_line();
        } else {
            if self.column_position >= BUFFER_WIDTH {
                self.new_line();
            }
            proof {
                reveal(Writer::inv);
            }
            let ghost mid: ConsoleState = self@;
            let ch = ScreenChar { ascii_char: byte, colour_byte: self.colour_code };
            self.buffer.set(1920 + self.column_position, ch);
            self.column_position = self.column_position + 1;
            proof {
                assert(self@.grid =~~= put_cell(mid.grid, mid.col as int, ch));
            }
        }
    }

    /// Apply `write_byte` to each byte of the string in order, with its
    /// substitution policy for every byte outside the printable range. Not
    /// atomic across the whole string with respect to other writers: callers
    /// share one instance behind a lock.
    pub fn write_string(&mut self, s: &str)
        requires
            old(self).wf(),
        ensures
            final(self).wf(),
            final(self)@ == steps(old(self)@, vga_bytes(s.spec_bytes())),
    {
        let bytes: &[u8] = s.as_bytes();
        let ghost fs: Seq<u8> = vga_bytes(s.spec_bytes());
        let n = bytes.len();
        let mut i: usize = 0;
        while i < n
            invariant
                i <= n,
                n == bytes@.len(),
                fs == vga_bytes(bytes@),
                self.wf(),
                self@ == steps(old(self)@, fs.take(i as int)),
            decreases n - i,
        {
            let b = bytes[i];
            self.write_byte(b);
            proof {
                assert(fs.take(i + 1).drop_last() =~= fs.take(i as int));
                assert(fs.take(i + 1).last() == fs[i as int]);
            }
            i += 1;
        }
        proof {
            assert(fs.take(n as int) =~= fs);
        }
    }
}

/// Writing to the console never changes the colour and keeps the state well
/// formed, whatever the bytes are.
pub proof fn lemma_steps_preserve(s: ConsoleState, bs: Seq<u8>)
    requires
        state_wf(s),
    ensures
        state_wf(steps(s, bs)),
        steps(s, bs).colour == s.colour,
    decreases bs.len(),
{
    if bs.len() > 0 {
        lemma_steps_preserve(s, bs.drop_last());
    }
}

/// A single byte applied alone is one step.
pub proof fn lemma_steps_one(s: ConsoleState, b: u8)
    ensures
        steps(s, seq![b]) == step(s, b),
{
    let bs = seq![b];
    assert(bs.drop_last() =~= Seq::<u8>::empty());
    assert(steps(s, Seq::<u8>::empty()) == s);
    assert(steps(s, bs) == step(steps(s, bs.drop_last()), bs.last()));
}

/// Printable bytes that fit in the current row land in order on the bottom
/// row, advance the column by the byte count, and scroll nothing: every other
/// cell of the grid is left as it was.
pub proof fn lemma_write_no_scroll(s: ConsoleState, bs: Seq<u8>)
    requires
        state_wf(s),
        forall|i: int| 0 <= i < bs.len() ==> printable(#[trigger] bs[i]),
        s.col + bs.len() <= BUFFER_WIDTH,
    ensures
        state_wf(steps(s, bs)),
        steps(s, bs).col == s.col + bs.len(),
        steps(s, bs).colour == s.colour,
        forall|r: int| 0 <= r < LAST_LINE ==> #[trigger] steps(s, bs).grid[r] == s.grid[r],
        forall|c: int|
            0 <= c < BUFFER_WIDTH && !(s.col <= c < s.col + bs.len()) ==> #[trigger] steps(
                s,
                bs,
            ).grid[LAST_LINE as int][c] == s.grid[LAST_LINE as int][c],
        forall|c: int|
            s.col <= c < s.col + bs.len() ==> #[trigger] steps(s, bs).grid[LAST_LINE as int][c]
                == (ScreenChar { ascii_char: bs[c - s.col], colour_byte: s.colour }),
    decreases bs.len(),
{
    if bs.len() > 0 {
        let pre = steps(s, bs.drop_last());
        lemma_write_no_scroll(s, bs.drop_last());
        let b = bs.last();
        assert(printable(b));
        assert(b != 0x0A);
        assert(pre.col < BUFFER_WIDTH);
        assert(steps(s, bs) == step(pre, b));
    }
}

/// Writing one more printable byte after the bottom row has been filled
/// scrolls exactly once: the filled row moves up one row, the rows above it
/// shift up once, the extra byte lands at column 0 of the freshly cleared
/// bottom row, and the column counter ends at 1.
pub proof fn lemma_fill_row_and_scroll(s: ConsoleState, bs: Seq<u8>)
    requires
        state_wf(s),
        s.col == 0,
        forall|i: int| 0 <= i < bs.len() ==> printable(#[trigger] bs[i]),
        bs.len() == BUFFER_WIDTH + 1,
    ensures
        state_wf(steps(s, bs)),
        steps(s, bs).col == 1,
        steps(s, bs).colour == s.colour,
        forall|r: int| 0 <= r < LAST_LINE - 1 ==> #[trigger] steps(s, bs).grid[r] == s.grid[r + 1],
        forall|c: int|
            0 <= c < BUFFER_WIDTH ==> #[trigger] steps(s, bs).grid[LAST_LINE - 1][c]
                == (ScreenChar { ascii_char: bs[c], colour_byte: s.colour }),
        steps(s, bs).grid[LAST_LINE as int][0] == (ScreenChar {
            ascii_char: bs[BUFFER_WIDTH as int],
            colour_byte: s.colour,
        }),
        forall|c: int|
            1 <= c < BUFFER_WIDTH ==> #[trigger] steps(s, bs).grid[LAST_LINE as int][c]
                == blank_char(s.colour),
    decreases bs.len(),
{
    let filled = steps(s, bs.drop_last());
    lemma_write_no_scroll(s, bs.drop_last());
    let b = bs.last();
    assert(b != 0x0A);
    assert(filled.col == BUFFER_WIDTH);
    assert(steps(s, bs) == step(filled, b));
}

/// A byte outside the printable range that is not a newline is stored as the
/// unknown glyph, never raw: after writing it, the cell at the old column of
/// the bottom row holds the sentinel.
pub proof fn lemma_unprintable_substituted(s: ConsoleState, b: u8)
    requires
        state_wf(s),
        s.col < BUFFER_WIDTH,
        !printable(b),
        b != 0x0A,
    ensures
        vga_byte(b) == UNKNOWN_GLYPH,
        steps(s, vga_bytes(seq![b])).grid[LAST_LINE as int][s.col as int] == (ScreenChar {
            ascii_char: UNKNOWN_GLYPH,
            colour_byte: s.colour,
        }),
{
    let fs = vga_bytes(seq![b]);
    assert(fs =~= seq![UNKNOWN_GLYPH]);
    assert(fs.drop_last() =~= Seq::<u8>::empty());
    assert(steps(s, Seq::<u8>::empty()) == s);
    assert(fs.last() == UNKNOWN_GLYPH);
    assert(steps(s, fs) == step(steps(s, fs.drop_last()), fs.last()));
    assert(steps(s, fs) == step(s, UNKNOWN_GLYPH));
}

/// Write a string to the given writer. The global writer instance is shared
/// between normal execution and the keyboard handler behind a lock held by
/// the caller for the span of this call.
pub fn _print(writer: &mut Writer, s: &str)
    requires
        old(writer).wf(),
    ensures
        final(writer).wf(),
        final(writer)@ == steps(old(writer)@, vga_bytes(s.spec_bytes())),
{
    writer.write_string(s);
}

/// Build a writer with white-on-black colour and print a demonstration line.
pub fn print_something() -> (w: Writer)
    ensures
        w.wf(),
        w@ == steps(
            (ConsoleState {
                col: 0,
                colour: ColourCode(0x0F),
                grid: blank_grid(ColourCode(0x0F)),
            }),
            vga_bytes(("The answer to life, the universe, and everything is 42\n").spec_bytes()),
        ),
{
    let colour = ColourCode::new(VGAColour::Black, VGAColour::White);
    proof {
        assert((0u8 << 4) | 15u8 == 0x0Fu8) by (bit_vector);
    }
    let mut w = Writer::new(colour);
    proof {
        assert(w@ =~~= (ConsoleState {
            col: 0,
            colour: ColourCode(0x0F),
            grid: blank_grid(ColourCode(0x0F)),
        }));
    }
    w.write_string("The answer to life, the universe, and everything is 42\n");
    w
}

} // verus!
