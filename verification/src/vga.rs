//! The 80x25 VGA text console: colours, the screen's cells and the cursor
//! that writes bytes into them, line by line, scrolling at the bottom.
use vstd::prelude::*;

verus! {

/// Virtual address at which the VGA text buffer is mapped.
pub const VGA_BUFFER: u64 = 0xffff8000fd000000;

/// Columns of the text screen.
pub const VGA_WIDTH: usize = 80;

/// Rows of the text screen.
pub const VGA_HEIGHT: usize = 25;

/// The line feed byte.
pub const LINE_FEED: u8 = 10;

/// The carriage return byte.
pub const CARRIAGE_RETURN: u8 = 13;

/// The space byte that blank cells hold.
pub const SPACE: u8 = 32;

/// Number of cells on the screen.
pub const VGA_CELLS: usize = 2000;

/// The sixteen colours of the VGA text mode palette.
#[derive(Debug, Clone, Copy, PartialEq, Eq, Structural)]
pub enum Color {
    Black,
    Blue,
    Green,
    Cyan,
    Red,
    Magenta,
    Brown,
    LightGray,
    DarkGray,
    LightBlue,
    LightGreen,
    LightCyan,
    LightRed,
    Pink,
    Yellow,
    White,
}

impl Color {
    /// The palette number of the colour.
    pub open spec fn code(self) -> u8 {
        match self {
            Color::Black => 0,
            Color::Blue => 1,
            Color::Green => 2,
            Color::Cyan => 3,
            Color::Red => 4,
            Color::Magenta => 5,
            Color::Brown => 6,
            Color::LightGray => 7,
            Color::DarkGray => 8,
            Color::LightBlue => 9,
            Color::LightGreen => 10,
            Color::LightCyan => 11,
            Color::LightRed => 12,
            Color::Pink => 13,
            Color::Yellow => 14,
            Color::White => 15,
        }
    }

    /// The palette number of the colour, from 0 to 15.
    pub fn as_u8(self) -> (r: u8)
        ensures
            r == self.code(),
            r < 16,
    {
        match self {
            Color::Black => 0,
            Color::Blue => 1,
            Color::Green => 2,
            Color::Cyan => 3,
            Color::Red => 4,
            Color::Magenta => 5,
            Color::Brown => 6,
            Color::LightGray => 7,
            Color::DarkGray => 8,
            Color::LightBlue => 9,
            Color::LightGreen => 10,
            Color::LightCyan => 11,
            Color::LightRed => 12,
            Color::Pink => 13,
            Color::Yellow => 14,
            Color::White => 15,
        }
    }
}

/// Attribute byte of a cell: background colour in the high nibble,
/// foreground colour in the low nibble.
#[derive(Debug, Clone, Copy, PartialEq, Eq, Structural)]
pub struct ColorCode(pub u8);

impl ColorCode {
    /// Packs a foreground and a background colour into one attribute byte.
    pub fn new(foreground: Color, background: Color) -> (r: ColorCode)
        ensures
            r.0 == background.code() * 16 + foreground.code(),
            r.0 & 0x0f == foreground.code(),
            r.0 >> 4u8 == background.code(),
    {
        let f = foreground.as_u8();
        let b = background.as_u8();
        let v: u8 = (b << 4u8) | f;
        assert(v == b * 16 + f && v & 0x0f == f && v >> 4u8 == b) by (bit_vector)
            requires
                f < 16,
                b < 16,
                v == (b << 4u8) | f,
        ;
        ColorCode(v)
    }
}

/// One cell of the text screen: a byte of text and its attribute.
#[derive(Debug, Clone, Copy, PartialEq, Eq, Structural)]
pub struct VgaChar {
    pub ascii_character: u8,
    pub color_code: ColorCode,
}

/// A blank cell in the given colours.
pub open spec fn blank(color_code: ColorCode) -> VgaChar {
    VgaChar { ascii_character: 32, color_code }
}

/// Position of cell (`row`, `col`) in the row-major cell sequence.
pub open spec fn cell_at(row: int, col: int) -> int {
    row * VGA_WIDTH + col
}

/// Contents of the screen, row after row: `VGA_HEIGHT` rows of `VGA_WIDTH` cells.
pub struct VgaBuffer {
    chars: Vec<VgaChar>,
}

impl VgaBuffer {
    /// There is a cell for every position of the screen.
    #[verifier::type_invariant]
    spec fn inv(self) -> bool {
        self.chars.len() == VGA_CELLS
    }

    pub closed spec fn view(&self) -> Seq<VgaChar> {
        self.chars@
    }

    /// A screen whose every cell is blank in the given colours.
    pub fn blank(color_code: ColorCode) -> (r: VgaBuffer)
        ensures
            r@ == Seq::new(VGA_CELLS as nat, |i: int| blank(color_code)),
    {
        let mut chars: Vec<VgaChar> = Vec::new();
        let c = VgaChar { ascii_character: SPACE, color_code };
        while chars.len() < VGA_CELLS
            invariant
                chars.len() <= VGA_CELLS,
                c == blank(color_code),
                forall|i: int| 0 <= i < chars.len() ==> chars@[i] == blank(color_code),
            decreases VGA_CELLS - chars.len(),
        {
            chars.push(c);
        }
        let r = VgaBuffer { chars };
        assert(r@ =~= Seq::new(VGA_CELLS as nat, |i: int| blank(color_code)));
        r
    }

    /// A screen holding the given cells, row after row; `None` unless there
    /// are exactly `VGA_WIDTH * VGA_HEIGHT` of them.
    pub fn from_cells(cells: Vec<VgaChar>) -> (r: Option<VgaBuffer>)
        ensures
            r matches Some(b) <==> cells@.len() == VGA_CELLS,
            r matches Some(b) ==> b@ == cells@,
    {
        if cells.len() == VGA_CELLS {
            Some(VgaBuffer { chars: cells })
        } else {
            None
        }
    }

    /// The cell at row `row`, column `col`.
    pub fn cell(&self, row: usize, col: usize) -> (r: VgaChar)
        requires
            row < VGA_HEIGHT,
            col < VGA_WIDTH,
        ensures
            r == self@[cell_at(row as int, col as int)],
    {
        proof {
            use_type_invariant(self);
        }
        self.chars[row * VGA_WIDTH + col]
    }
}

/// What the console holds: the cursor, the colours it writes in, and the cells.
pub ghost struct Screen {
    pub x: int,
    pub y: int,
    pub color_code: ColorCode,
    pub cells: Seq<VgaChar>,
}

impl Screen {
    /// The cursor is on a column of the screen, its row is at most two past
    /// the last one (the console lets it run one row past the bottom before
    /// it scrolls), and there is a cell for every position.
    pub open spec fn valid(self) -> bool {
        &&& 0 <= self.x < VGA_WIDTH
        &&& 0 <= self.y <= VGA_HEIGHT + 1
        &&& self.cells.len() == VGA_CELLS
    }

    /// The cells moved up one row, the top row dropped and the bottom row blank.
    pub open spec fn scrolled_cells(self) -> Seq<VgaChar> {
        Seq::new(
            VGA_CELLS as nat,
            |i: int|
                if i < (VGA_HEIGHT - 1) * VGA_WIDTH {
                    self.cells[i + VGA_WIDTH]
                } else {
                    blank(self.color_code)
                },
        )
    }

    /// Moving to the next line: below the screen's last row plus one, the
    /// screen scrolls and the cursor goes to the start of the last row;
    /// elsewhere it goes to the start of the next row.
    pub open spec fn new_line(self) -> Screen {
        if self.y > VGA_HEIGHT {
            Screen { x: 0, y: VGA_HEIGHT - 1, cells: self.scrolled_cells(), ..self }
        } else {
            Screen { x: 0, y: self.y + 1, ..self }
        }
    }

    /// Whether writing `byte` is defined here: a line feed and a carriage
    /// return always are; any other byte needs the cursor on a screen row.
    pub open spec fn accepts(self, byte: u8) -> bool {
        byte == 10 || byte == 13 || self.y < VGA_HEIGHT
    }

    /// The screen after writing one byte: a line feed moves to the next line,
    /// a carriage return to column 0; any other byte is stored at the cursor
    /// in the current colours and the cursor moves right, staying on the
    /// last column once it reaches it.
    pub open spec fn put_byte(self, byte: u8) -> Screen {
        if byte == 10 {
            self.new_line()
        } else if byte == 13 {
            Screen { x: 0, ..self }
        } else {
            Screen {
                x: if self.x + 1 < VGA_WIDTH { self.x + 1 } else { VGA_WIDTH - 1 },
                cells: self.cells.update(
                    cell_at(self.y, self.x),
                    VgaChar { ascii_character: byte, color_code: self.color_code },
                ),
                ..self
            }
        }
    }

    /// The screen after writing each character's low byte in turn.
    pub open spec fn put_chars(self, s: Seq<char>) -> Screen
        decreases s.len(),
    {
        if s.len() == 0 {
            self
        } else {
            self.put_chars(s.drop_last()).put_byte(s.last() as u8)
        }
    }

    /// Whether every byte of `s` is accepted where it is written.
    pub open spec fn accepts_chars(self, s: Seq<char>) -> bool {
        forall|i: int| 0 <= i < s.len() ==> #[trigger] self.put_chars(s.take(i)).accepts(s[i] as u8)
    }

    /// Every cell blank in the current colours, the cursor where it was.
    pub open spec fn cleared(self) -> Screen {
        Screen { cells: Seq::new(VGA_CELLS as nat, |i: int| blank(self.color_code)), ..self }
    }

    /// The screen after writing the string `s`: the command `cls` clears the
    /// screen, anything else is written character by character.
    pub open spec fn put_str(self, s: Seq<char>) -> Screen {
        if s == seq!['c', 'l', 's'] {
            self.cleared()
        } else {
            self.put_chars(s)
        }
    }

    /// Whether writing the string `s` is defined here.
    pub open spec fn accepts_str(self, s: Seq<char>) -> bool {
        s == seq!['c', 'l', 's'] || self.accepts_chars(s)
    }
}

/// The cell in row `r`, column `c` of a screen: rows of 80 cells, one
/// after the other.
pub open spec fn screen_cell(s: Screen, r: int, c: int) -> VgaChar {
    s.cells[r * 80 + c]
}

/// The sixteen palette numbers of VGA text mode, in palette order.
pub proof fn lemma_palette_numbers()
    ensures
        Color::Black.code() == 0,
        Color::Blue.code() == 1,
        Color::Green.code() == 2,
        Color::Cyan.code() == 3,
        Color::Red.code() == 4,
        Color::Magenta.code() == 5,
        Color::Brown.code() == 6,
        Color::LightGray.code() == 7,
        Color::DarkGray.code() == 8,
        Color::LightBlue.code() == 9,
        Color::LightGreen.code() == 10,
        Color::LightCyan.code() == 11,
        Color::LightRed.code() == 12,
        Color::Pink.code() == 13,
        Color::Yellow.code() == 14,
        Color::White.code() == 15,
        forall|a: Color, b: Color| a.code() == b.code() ==> a == b,
{
}

/// Cell (`r`, `c`) sits at position `r * 80 + c`: rows of 80 cells, one
/// after the other.
pub proof fn lemma_cell_position(r: int, c: int)
    ensures
        cell_at(r, c) == r * 80 + c,
{
}

/// A blank cell is a space (byte 32) in the given colours.
pub proof fn lemma_blank(color_code: ColorCode)
    ensures
        blank(color_code) == (VgaChar { ascii_character: 32, color_code }),
{
}

/// Any string but `cls` is written character by character.
pub proof fn lemma_put_str_writes_text(s: Screen, text: Seq<char>)
    requires
        text != seq!['c', 'l', 's'],
    ensures
        s.put_str(text) == s.put_chars(text),
{
}

/// Which bytes can be written: line feeds and carriage returns anywhere,
/// any other byte only with the cursor on one of the 25 rows.
pub proof fn lemma_accepts(s: Screen, b: u8)
    ensures
        s.accepts(b) <==> (b == 10 || b == 13 || s.y < 25),
{
}

/// A carriage return moves the cursor to column 0 and changes nothing else.
pub proof fn lemma_carriage_return(s: Screen)
    ensures
        s.put_byte(13).x == 0,
        s.put_byte(13).y == s.y,
        s.put_byte(13).color_code == s.color_code,
        s.put_byte(13).cells == s.cells,
{
}

/// A stored byte lands in the cell under the cursor, in the current
/// colours; the cursor moves one column right but not past column 79; no
/// other cell changes.
pub proof fn lemma_stored_byte(s: Screen, b: u8)
    requires
        s.valid(),
        b != 10,
        b != 13,
        s.y < 25,
    ensures
        s.put_byte(b).y == s.y,
        s.put_byte(b).x == if s.x < 79 {
            s.x + 1
        } else {
            79
        },
        s.put_byte(b).color_code == s.color_code,
        s.put_byte(b).cells.len() == 2000,
        screen_cell(s.put_byte(b), s.y, s.x) == (VgaChar {
            ascii_character: b,
            color_code: s.color_code,
        }),
        forall|r: int, c: int|
            0 <= r < 25 && 0 <= c < 80 && !(r == s.y && c == s.x) ==> #[trigger] screen_cell(
                s.put_byte(b),
                r,
                c,
            ) == screen_cell(s, r, c),
{
    let t = s.put_byte(b);
    assert forall|r: int, c: int|
        0 <= r < 25 && 0 <= c < 80 && !(r == s.y && c == s.x) implies #[trigger] screen_cell(
        t,
        r,
        c,
    ) == screen_cell(s, r, c) by {
        assert(r * 80 + c != s.y * 80 + s.x) by (nonlinear_arith)
            requires
                0 <= c < 80,
                0 <= s.x < 80,
                !(r == s.y && c == s.x),
        ;
    }
}

/// A line feed moves the cursor to column 0 of the next row. Once the
/// cursor is more than one row below the last row, it scrolls instead:
/// every row takes the contents of the row below it, the last row (24)
/// becomes blank in the current colours, and the cursor goes to its start.
pub proof fn lemma_line_feed(s: Screen)
    requires
        s.valid(),
    ensures
        s.y <= 25 ==> s.put_byte(10).x == 0 && s.put_byte(10).y == s.y + 1
            && s.put_byte(10).color_code == s.color_code && s.put_byte(10).cells == s.cells,
        s.y > 25 ==> {
            &&& s.put_byte(10).x == 0
            &&& s.put_byte(10).y == 24
            &&& s.put_byte(10).color_code == s.color_code
            &&& s.put_byte(10).cells.len() == 2000
            &&& forall|r: int, c: int|
                0 <= r < 24 && 0 <= c < 80 ==> #[trigger] screen_cell(s.put_byte(10), r, c)
                    == screen_cell(s, r + 1, c)
            &&& forall|c: int|
                0 <= c < 80 ==> #[trigger] screen_cell(s.put_byte(10), 24, c) == (VgaChar {
                    ascii_character: 32,
                    color_code: s.color_code,
                })
        },
{
    if s.y > 25 {
        let t = s.put_byte(10);
        assert forall|r: int, c: int| 0 <= r < 24 && 0 <= c < 80 implies #[trigger] screen_cell(
            t,
            r,
            c,
        ) == screen_cell(s, r + 1, c) by {
            assert(r * 80 + c < 1920) by (nonlinear_arith)
                requires
                    0 <= r < 24,
                    0 <= c < 80,
            ;
            assert(r * 80 + c + 80 == (r + 1) * 80 + c) by (nonlinear_arith);
        }
    }
}

/// The command `cls` turns every cell of every row, the last included,
/// into a space in the current colours, and leaves the cursor where it was:
/// `t` is the screen after writing `cls` on `s`.
pub proof fn lemma_cls_blanks_every_cell(s: Screen, t: Screen)
    requires
        s.valid(),
        t == s.put_str(seq!['c', 'l', 's']),
    ensures
        t.x == s.x,
        t.y == s.y,
        t.color_code == s.color_code,
        t.cells.len() == 2000,
        forall|r: int, c: int|
            0 <= r < 25 && 0 <= c < 80 ==> #[trigger] screen_cell(t, r, c) == (VgaChar {
                ascii_character: 32,
                color_code: s.color_code,
            }),
{
    assert forall|r: int, c: int| 0 <= r < 25 && 0 <= c < 80 implies #[trigger] screen_cell(
        t,
        r,
        c,
    ) == (VgaChar { ascii_character: 32, color_code: s.color_code }) by {
        assert(0 <= r * 80 + c < 2000) by (nonlinear_arith)
            requires
                0 <= r < 25,
                0 <= c < 80,
        ;
    }
}

/// Text without line feeds or carriage returns, written on a screen row from
/// a column where it ends before the last column, lands in consecutive cells
/// from the cursor in the current colours; the cursor ends right after it,
/// and no other cell changes.
pub proof fn lemma_text_lands_in_row(s: Screen, text: Seq<char>)
    requires
        s.valid(),
        s.y < VGA_HEIGHT,
        s.x + text.len() < VGA_WIDTH,
        forall|i: int| 0 <= i < text.len() ==> text[i] as u8 != 10 && text[i] as u8 != 13,
    ensures
        s.put_chars(text).x == s.x + text.len(),
        s.put_chars(text).y == s.y,
        s.put_chars(text).color_code == s.color_code,
        s.put_chars(text).cells.len() == VGA_CELLS,
        forall|i: int|
            0 <= i < text.len() ==> s.put_chars(text).cells[cell_at(s.y, s.x + i)] == (VgaChar {
                ascii_character: text[i] as u8,
                color_code: s.color_code,
            }),
        forall|j: int|
            0 <= j < VGA_CELLS && !(cell_at(s.y, s.x) <= j < cell_at(s.y, s.x + text.len()))
                ==> s.put_chars(text).cells[j] == s.cells[j],
    decreases text.len(),
{
    if text.len() > 0 {
        let p = text.drop_last();
        assert forall|i: int| 0 <= i < p.len() implies p[i] as u8 != 10 && p[i] as u8 != 13 by {
            assert(p[i] == text[i]);
        }
        lemma_text_lands_in_row(s, p);
        let last = text.len() - 1;
        assert(text.last() == text[last]);
        assert forall|i: int| 0 <= i < text.len() implies s.put_chars(text).cells[cell_at(s.y, s.x + i)]
            == (VgaChar { ascii_character: text[i] as u8, color_code: s.color_code }) by {
            if i < last {
                assert(p[i] == text[i]);
            }
        }
    }
}

/// Writing text in two pieces leaves the screen as writing it at once does.
pub proof fn lemma_put_chars_concat(s: Screen, a: Seq<char>, b: Seq<char>)
    ensures
        s.put_chars(a).put_chars(b) == s.put_chars(a + b),
    decreases b.len(),
{
    if b.len() == 0 {
        assert(a + b =~= a);
    } else {
        lemma_put_chars_concat(s, a, b.drop_last());
        assert((a + b).drop_last() =~= a + b.drop_last());
        assert((a + b).last() == b.last());
    }
}

/// Writing a string byte by byte: writing nothing leaves the screen as it
/// is, and writing a non-empty string is writing its first character's low
/// byte, then the rest of the string.
pub proof fn lemma_put_chars_byte_by_byte(s: Screen, c: Seq<char>)
    ensures
        s.put_chars(Seq::empty()) == s,
        c.len() > 0 ==> s.put_chars(c) == s.put_byte(c[0] as u8).put_chars(c.drop_first()),
{
    assert(s.put_chars(Seq::empty()) == s);
    if c.len() > 0 {
        let head = seq![c[0]];
        assert(head.drop_last() =~= Seq::<char>::empty());
        assert(s.put_chars(head) == s.put_chars(Seq::empty()).put_byte(c[0] as u8));
        lemma_put_chars_concat(s, head, c.drop_first());
        assert(head + c.drop_first() =~= c);
    }
}

/// Text written in two pieces is accepted exactly when the first piece is
/// accepted and the second is accepted where the first leaves the cursor.
pub proof fn lemma_accepts_chars_concat(s: Screen, a: Seq<char>, b: Seq<char>)
    ensures
        s.accepts_chars(a + b) <==> s.accepts_chars(a) && s.put_chars(a).accepts_chars(b),
{
    let ab = a + b;
    assert forall|i: int| 0 <= i < a.len() implies ab.take(i) =~= a.take(i) && ab[i] == a[i] by {}
    assert forall|j: int| 0 <= j < b.len() implies ab.take(a.len() + j) =~= a + b.take(j) && ab[a.len()
        + j] == b[j] by {}
    assert forall|j: int| 0 <= j < b.len() implies s.put_chars(ab.take(a.len() + j)) == s.put_chars(
        a,
    ).put_chars(b.take(j)) by {
        assert(ab.take(a.len() + j) =~= a + b.take(j));
        lemma_put_chars_concat(s, a, b.take(j));
    }
    if s.accepts_chars(ab) {
        assert forall|i: int| 0 <= i < a.len() implies #[trigger] s.put_chars(a.take(i)).accepts(
            a[i] as u8,
        ) by {
            assert(s.put_chars(ab.take(i)).accepts(ab[i] as u8));
        }
        assert forall|j: int| 0 <= j < b.len() implies #[trigger] s.put_chars(a).put_chars(
            b.take(j),
        ).accepts(b[j] as u8) by {
            assert(s.put_chars(ab.take(a.len() + j)).accepts(ab[a.len() + j] as u8));
        }
    }
    if s.accepts_chars(a) && s.put_chars(a).accepts_chars(b) {
        assert forall|i: int| 0 <= i < ab.len() implies #[trigger] s.put_chars(ab.take(i)).accepts(
            ab[i] as u8,
        ) by {
            if i < a.len() {
                assert(s.put_chars(a.take(i)).accepts(a[i] as u8));
            } else {
                let j = i - a.len();
                assert(s.put_chars(a).put_chars(b.take(j)).accepts(b[j] as u8));
            }
        }
    }
}

/// The console: a cursor and its colours over the screen's cells.
pub struct ImplWrite {
    pub(crate) x: usize,
    pub(crate) y: usize,
    pub(crate) color_code: ColorCode,
    pub(crate) buffer: VgaBuffer,
}

impl ImplWrite {
    /// The cursor is on a column of the screen and at most two rows below
    /// its last row.
    #[verifier::type_invariant]
    spec fn inv(self) -> bool {
        self.x < VGA_WIDTH && self.y <= VGA_HEIGHT + 1
    }

    pub closed spec fn view(&self) -> Screen {
        Screen {
            x: self.x as int,
            y: self.y as int,
            color_code: self.color_code,
            cells: self.buffer@,
        }
    }

    /// Every console is valid: its cursor is on a column, at most two rows
    /// below the last row, and there is a cell for every position. Calling
    /// this gives a verified caller that fact; it does nothing at run time.
    pub fn screen_valid(&self)
        ensures
            self@.valid(),
    {
        proof {
            use_type_invariant(self);
            use_type_invariant(&self.buffer);
        }
    }

    /// A console over `buffer`, writing in `color_code`, with the cursor at
    /// the top left corner.
    pub fn new(color_code: ColorCode, buffer: VgaBuffer) -> (r: ImplWrite)
        ensures
            r@ == (Screen { x: 0, y: 0, color_code, cells: buffer@ }),
            r@.valid(),
    {
        proof {
            use_type_invariant(&buffer);
        }
        ImplWrite { x: 0, y: 0, color_code, buffer }
    }

    /// Column of the cursor.
    pub fn x(&self) -> (r: usize)
        ensures
            r == self@.x,
    {
        self.x
    }

    /// Row of the cursor.
    pub fn y(&self) -> (r: usize)
        ensures
            r == self@.y,
    {
        self.y
    }

    /// The colours the console writes in.
    pub fn color_code(&self) -> (r: ColorCode)
        ensures
            r == self@.color_code,
    {
        self.color_code
    }

    /// The screen's cells.
    pub fn buffer(&self) -> (r: &VgaBuffer)
        ensures
            r@ == self@.cells,
    {
        &self.buffer
    }

    /// Writes one byte at the cursor (see `Screen::put_byte`). A byte that is
    /// stored, rather than a line feed or a carriage return, needs the cursor
    /// on one of the screen's rows (see `Screen::accepts`).
    pub fn write_byte(&mut self, byte: u8)
        requires
            old(self)@.accepts(byte),
        ensures
            final(self)@ == old(self)@.put_byte(byte),
            final(self)@.valid(),
    {
        proof {
            use_type_invariant(&*self);
            use_type_invariant(&self.buffer);
        }
        if byte == LINE_FEED {
            self.new_line();
        } else if byte == CARRIAGE_RETURN {
            self.x = 0;
        } else {
            if self.x > VGA_WIDTH {
                self.new_line();
            }
            let row = self.y;
            let col = self.x;
            let color = self.color_code;
            self.buffer.chars[row * VGA_WIDTH + col] = VgaChar { ascii_character: byte, color_code: color };
            let next = self.x + 1;
            self.x = if next < VGA_WIDTH - 1 { next } else { VGA_WIDTH - 1 };
        }
    }

    /// Whether `s` is exactly the command `cls`.
    fn is_clear_command(s: &str) -> (r: bool)
        ensures
            r == (s@ == seq!['c', 'l', 's']),
    {
        if s.unicode_len() != 3 {
            return false;
        }
        let a = s.get_char(0);
        let b = s.get_char(1);
        let c = s.get_char(2);
        let r = a == 'c' && b == 'l' && c == 's';
        if r {
            assert(s@ =~= seq!['c', 'l', 's']);
        }
        r
    }

    /// Whether writing `s` here is defined (see `Screen::accepts_str`).
    pub fn accepts_str(&self, s: &str) -> (r: bool)
        ensures
            r == self@.accepts_str(s@),
    {
        proof {
            use_type_invariant(self);
            use_type_invariant(&self.buffer);
        }
        if Self::is_clear_command(s) {
            return true;
        }
        let n = s.unicode_len();
        let ghost s0 = self@;
        let mut y = self.y;
        let mut i: usize = 0;
        while i < n
            invariant
                n == s@.len(),
                0 <= i <= n,
                s0 == self@,
                s0.valid(),
                s@ != seq!['c', 'l', 's'],
                y == s0.put_chars(s@.take(i as int)).y,
                forall|j: int| 0 <= j < i ==> #[trigger] s0.put_chars(s@.take(j)).accepts(s@[j] as u8),
            decreases n - i,
        {
            proof {
                let p = s@.take(i as int);
                assert forall|j: int| 0 <= j < p.len() implies #[trigger] s0.put_chars(p.take(j)).accepts(p[j] as u8) by {
                    assert(p.take(j) =~= s@.take(j));
                    assert(s0.put_chars(s@.take(j)).accepts(s@[j] as u8));
                }
                Self::lemma_put_chars_valid(s0, p);
            }
            let c = s.get_char(i);
            let byte = #[verifier::truncate] (c as u8);
            if !(byte == LINE_FEED || byte == CARRIAGE_RETURN || y < VGA_HEIGHT) {
                assert(!s0.put_chars(s@.take(i as int)).accepts(s@[i as int] as u8));
                assert(!s0.accepts_chars(s@));
                assert(s@ != seq!['c', 'l', 's']);
                assert(!self@.accepts_str(s@));
                return false;
            }
            assert(s@.take(i + 1).drop_last() =~= s@.take(i as int));
            if byte == LINE_FEED {
                if y > VGA_HEIGHT {
                    y = VGA_HEIGHT - 1;
                } else {
                    y = y + 1;
                }
            }
            i = i + 1;
        }
        assert(s@.take(n as int) =~= s@);
        true
    }

    /// Writes a string (see `Screen::put_str`): `cls` clears the screen, any
    /// other string is written character by character, each character as
    /// its low byte. Every stored byte needs the cursor on one of the
    /// screen's rows when it is written (see `accepts_str`).
    pub fn write_str(&mut self, s: &str)
        requires
            old(self)@.accepts_str(s@),
        ensures
            final(self)@ == old(self)@.put_str(s@),
            final(self)@.valid(),
    {
        proof {
            use_type_invariant(&*self);
            use_type_invariant(&self.buffer);
        }
        if Self::is_clear_command(s) {
            self.clear_screen();
            return;
        }
        let n = s.unicode_len();
        let ghost s0 = self@;
        let mut i: usize = 0;
        while i < n
            invariant
                n == s@.len(),
                0 <= i <= n,
                s0.valid(),
                s0.accepts_chars(s@),
                self@ == s0.put_chars(s@.take(i as int)),
                self@.valid(),
            decreases n - i,
        {
            let c = s.get_char(i);
            assert(s@.take(i + 1).drop_last() =~= s@.take(i as int));
            assert(s0.put_chars(s@.take(i as int)).accepts(s@[i as int] as u8));
            self.write_byte(#[verifier::truncate] (c as u8));
            i = i + 1;
        }
        assert(s@.take(n as int) =~= s@);
    }

    proof fn lemma_put_chars_valid(s0: Screen, s: Seq<char>)
        requires
            s0.valid(),
            forall|j: int| 0 <= j < s.len() ==> #[trigger] s0.put_chars(s.take(j)).accepts(s[j] as u8),
        ensures
            s0.put_chars(s).valid(),
        decreases s.len(),
    {
        if s.len() > 0 {
            let p = s.drop_last();
            assert forall|j: int| 0 <= j < p.len() implies #[trigger] s0.put_chars(p.take(j)).accepts(p[j] as u8) by {
                assert(p.take(j) =~= s.take(j));
                assert(s0.put_chars(s.take(j)).accepts(s[j] as u8));
            }
            Self::lemma_put_chars_valid(s0, p);
            assert(s.take(s.len() - 1) =~= p);
            assert(s0.put_chars(s.take(s.len() - 1)).accepts(s[s.len() - 1] as u8));
        }
    }

    /// Blanks row `row` in the current colours.
    fn clear_row(&mut self, row: usize)
        requires
            old(self)@.valid(),
            row < VGA_HEIGHT,
        ensures
            final(self)@ == (Screen {
                cells: Seq::new(
                    VGA_CELLS as nat,
                    |i: int|
                        if cell_at(row as int, 0) <= i < cell_at(row as int + 1, 0) {
                            blank(old(self)@.color_code)
                        } else {
                            old(self)@.cells[i]
                        },
                ),
                ..old(self)@
            }),
    {
        let blank_char = VgaChar { ascii_character: SPACE, color_code: self.color_code };
        let ghost before = self@;
        let mut col: usize = 0;
        while col < VGA_WIDTH
            invariant
                row < VGA_HEIGHT,
                col <= VGA_WIDTH,
                before.valid(),
                blank_char == blank(before.color_code),
                self@.x == before.x,
                self@.y == before.y,
                self@.color_code == before.color_code,
                self@.cells.len() == VGA_CELLS,
                forall|i: int|
                    0 <= i < VGA_CELLS ==> #[trigger] self@.cells[i] == if cell_at(row as int, 0)
                        <= i < cell_at(row as int, col as int) {
                        blank(before.color_code)
                    } else {
                        before.cells[i]
                    },
            decreases VGA_WIDTH - col,
        {
            self.buffer.chars[row * VGA_WIDTH + col] = blank_char;
            col = col + 1;
        }
        assert(self@.cells =~= Seq::new(
            VGA_CELLS as nat,
            |i: int|
                if cell_at(row as int, 0) <= i < cell_at(row as int + 1, 0) {
                    blank(before.color_code)
                } else {
                    before.cells[i]
                },
        ));
    }

    /// Moves to the next line (see `Screen::new_line`).
    fn new_line(&mut self)
        requires
            old(self)@.valid(),
        ensures
            final(self)@ == old(self)@.new_line(),
            final(self)@.valid(),
    {
        if self.y > VGA_HEIGHT {
            let ghost before = self@;
            let mut row: usize = 1;
            while row < VGA_HEIGHT
                invariant
                    1 <= row <= VGA_HEIGHT,
                    before.valid(),
                    self@ == (Screen { cells: self@.cells, ..before }),
                    self@.cells.len() == VGA_CELLS,
                    forall|i: int|
                        0 <= i < VGA_CELLS ==> #[trigger] self@.cells[i] == if i < cell_at(
                            row as int - 1,
                            0,
                        ) {
                            before.cells[i + VGA_WIDTH]
                        } else {
                            before.cells[i]
                        },
                decreases VGA_HEIGHT - row,
            {
                let mut col: usize = 0;
                while col < VGA_WIDTH
                    invariant
                        1 <= row < VGA_HEIGHT,
                        col <= VGA_WIDTH,
                        before.valid(),
                        self@ == (Screen { cells: self@.cells, ..before }),
                        self@.cells.len() == VGA_CELLS,
                        forall|i: int|
                            0 <= i < VGA_CELLS ==> #[trigger] self@.cells[i] == if i < cell_at(
                                row as int - 1,
                                col as int,
                            ) {
                                before.cells[i + VGA_WIDTH]
                            } else {
                                before.cells[i]
                            },
                    decreases VGA_WIDTH - col,
                {
                    let ch = self.buffer.chars[row * VGA_WIDTH + col];
                    self.buffer.chars[(row - 1) * VGA_WIDTH + col] = ch;
                    col = col + 1;
                }
                row = row + 1;
            }
            self.y = VGA_HEIGHT - 1;
            self.clear_row(self.y);
            self.x = 0;
            assert(self@.cells =~= before.scrolled_cells());
        } else {
            self.y = self.y + 1;
            self.x = 0;
        }
    }

    /// Blanks every cell in the current colours; the cursor stays.
    fn clear_screen(&mut self)
        requires
            old(self)@.valid(),
        ensures
            final(self)@ == old(self)@.cleared(),
            final(self)@.valid(),
    {
        let blank_char = VgaChar { ascii_character: SPACE, color_code: self.color_code };
        let ghost before = self@;
        let mut row: usize = 0;
        while row < VGA_HEIGHT
            invariant
                row <= VGA_HEIGHT,
                before.valid(),
                blank_char == blank(before.color_code),
                self@ == (Screen { cells: self@.cells, ..before }),
                self@.cells.len() == VGA_CELLS,
                forall|i: int|
                    0 <= i < VGA_CELLS ==> #[trigger] self@.cells[i] == if i < cell_at(
                        row as int,
                        0,
                    ) {
                        blank(before.color_code)
                    } else {
                        before.cells[i]
                    },
            decreases VGA_HEIGHT - row,
        {
            let mut col: usize = 0;
            while col < VGA_WIDTH
                invariant
                    row < VGA_HEIGHT,
                    col <= VGA_WIDTH,
                    before.valid(),
                    blank_char == blank(before.color_code),
                    self@ == (Screen { cells: self@.cells, ..before }),
                    self@.cells.len() == VGA_CELLS,
                    forall|i: int|
                        0 <= i < VGA_CELLS ==> #[trigger] self@.cells[i] == if i < cell_at(
                            row as int,
                            col as int,
                        ) {
                            blank(before.color_code)
                        } else {
                            before.cells[i]
                        },
                decreases VGA_WIDTH - col,
            {
                self.buffer.chars[row * VGA_WIDTH + col] = blank_char;
                col = col + 1;
            }
            row = row + 1;
        }
        assert(self@.cells =~= before.cleared().cells);
    }
}

} // verus!
