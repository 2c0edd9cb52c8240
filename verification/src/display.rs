//! Frame buffer for a 128x64 monochrome OLED, in the page layout the
//! display controller wants: each byte holds a vertical strip of eight
//! pixels, pages of 128 bytes stacked top to bottom.  Text is drawn with a
//! built-in 5x7 font on a 6-pixel grid.
//!
//! Everything here is pure buffer arithmetic; pushing the buffer out over
//! the two-wire bus is the embedding program's concern.

use vstd::prelude::*;

use crate::pzconfig::ChannelConfig;

verus! {

/// How many analog channels the panel reads.
pub const ADC_CHANNELS: usize = 8;

/// Everything the panel's display thread renders, produced by the main
/// loop: raw readings, button states, the two transformed outputs and the
/// menu position.
#[derive(Clone, Debug)]
pub struct DisplayData {
    pub adc_values: [u16; ADC_CHANNELS],
    pub button_states: [bool; 6],
    pub buttons_sent: [bool; 4],
    pub rudder_value: u16,
    pub motor_value: u16,
    pub mode: String,
    pub rudder_config: ChannelConfig,
    pub motor_config: ChannelConfig,
    pub current_parameter: Option<String>,
    pub current_value: Option<u16>,
    pub last_event: String,
}

/// The byte of the page layout that holds pixel column `x` of row `y`.
pub open spec fn byte_index(x: int, y: int) -> int {
    (y / 8) * 128 + x
}

/// Whether the pixel at `(x, y)` is lit in a page-layout buffer; everything
/// outside the 128x64 panel counts as unlit.
pub open spec fn spec_pixel(buf: Seq<u8>, x: int, y: int) -> bool {
    &&& 0 <= x < 128
    &&& 0 <= y < 64
    &&& ((buf[byte_index(x, y)] >> ((y % 8) as u8)) & 1) == 1
}

/// Two distinct in-range pixels either live in different bytes or at
/// different bit positions of the same byte.
proof fn lemma_pixel_addressing(x1: int, y1: int, x2: int, y2: int)
    requires
        0 <= x1 < 128,
        0 <= y1 < 64,
        0 <= x2 < 128,
        0 <= y2 < 64,
        !(x1 == x2 && y1 == y2),
    ensures
        byte_index(x1, y1) != byte_index(x2, y2) || (y1 % 8) != (y2 % 8),
{
    if byte_index(x1, y1) == byte_index(x2, y2) {
        assert((y1 / 8) * 128 + x1 == (y2 / 8) * 128 + x2);
        assert(y1 / 8 == y2 / 8 && x1 == x2) by (nonlinear_arith)
            requires
                (y1 / 8) * 128 + x1 == (y2 / 8) * 128 + x2,
                0 <= x1 < 128,
                0 <= x2 < 128,
                0 <= y1 / 8,
                0 <= y2 / 8,
        ;
        assert(y1 == (y1 / 8) * 8 + y1 % 8);
        assert(y2 == (y2 / 8) * 8 + y2 % 8);
    }
}

/// The font: five byte-columns per character, each byte a vertical strip of
/// eight pixels with the top row in the least significant bit.  Characters
/// outside the font render as a filled-bordered box.
pub open spec fn glyph(c: char) -> Seq<u8> {
    match c {
        '0' => seq![0x3E, 0x51, 0x49, 0x45, 0x3E],
        '1' => seq![0x00, 0x42, 0x7F, 0x40, 0x00],
        '2' => seq![0x62, 0x51, 0x49, 0x49, 0x46],
        '3' => seq![0x22, 0x41, 0x49, 0x49, 0x36],
        '4' => seq![0x18, 0x14, 0x12, 0x7F, 0x10],
        '5' => seq![0x27, 0x45, 0x45, 0x45, 0x39],
        '6' => seq![0x3C, 0x4A, 0x49, 0x49, 0x30],
        '7' => seq![0x01, 0x71, 0x09, 0x05, 0x03],
        '8' => seq![0x36, 0x49, 0x49, 0x49, 0x36],
        '9' => seq![0x06, 0x49, 0x49, 0x29, 0x1E],
        'A' => seq![0x7C, 0x12, 0x11, 0x12, 0x7C],
        'B' => seq![0x7F, 0x49, 0x49, 0x49, 0x36],
        'C' => seq![0x3E, 0x41, 0x41, 0x41, 0x22],
        'D' => seq![0x7F, 0x41, 0x41, 0x41, 0x3E],
        'E' => seq![0x7F, 0x49, 0x49, 0x49, 0x41],
        'L' => seq![0x7F, 0x40, 0x40, 0x40, 0x40],
        'M' => seq![0x7F, 0x02, 0x0C, 0x02, 0x7F],
        'N' => seq![0x7F, 0x02, 0x04, 0x08, 0x7F],
        'O' => seq![0x3E, 0x41, 0x41, 0x41, 0x3E],
        'P' => seq![0x7F, 0x09, 0x09, 0x09, 0x06],
        'R' => seq![0x7F, 0x09, 0x19, 0x29, 0x46],
        'S' => seq![0x26, 0x49, 0x49, 0x49, 0x32],
        'T' => seq![0x01, 0x01, 0x7F, 0x01, 0x01],
        'U' => seq![0x3F, 0x40, 0x40, 0x40, 0x3F],
        'V' => seq![0x03, 0x04, 0x78, 0x04, 0x03],
        'X' => seq![0x63, 0x14, 0x08, 0x14, 0x63],
        'K' => seq![0x7F, 0x08, 0x14, 0x22, 0x41],
        'G' => seq![0x3E, 0x41, 0x49, 0x49, 0x3A],
        'I' => seq![0x00, 0x41, 0x7F, 0x41, 0x00],
        ':' => seq![0x00, 0x36, 0x36, 0x00, 0x00],
        ' ' => seq![0x00, 0x00, 0x00, 0x00, 0x00],
        '-' => seq![0x08, 0x08, 0x08, 0x08, 0x08],
        _ => seq![0x7F, 0x41, 0x41, 0x41, 0x7F],
    }
}

/// The five font columns for a character, per [`glyph`].
pub fn get_font_data(c: char) -> (r: [u8; 5])
    ensures
        r@ == glyph(c),
{
    let r: [u8; 5] = match c {
        '0' => [0x3E, 0x51, 0x49, 0x45, 0x3E],
        '1' => [0x00, 0x42, 0x7F, 0x40, 0x00],
        '2' => [0x62, 0x51, 0x49, 0x49, 0x46],
        '3' => [0x22, 0x41, 0x49, 0x49, 0x36],
        '4' => [0x18, 0x14, 0x12, 0x7F, 0x10],
        '5' => [0x27, 0x45, 0x45, 0x45, 0x39],
        '6' => [0x3C, 0x4A, 0x49, 0x49, 0x30],
        '7' => [0x01, 0x71, 0x09, 0x05, 0x03],
        '8' => [0x36, 0x49, 0x49, 0x49, 0x36],
        '9' => [0x06, 0x49, 0x49, 0x29, 0x1E],
        'A' => [0x7C, 0x12, 0x11, 0x12, 0x7C],
        'B' => [0x7F, 0x49, 0x49, 0x49, 0x36],
        'C' => [0x3E, 0x41, 0x41, 0x41, 0x22],
        'D' => [0x7F, 0x41, 0x41, 0x41, 0x3E],
        'E' => [0x7F, 0x49, 0x49, 0x49, 0x41],
        'L' => [0x7F, 0x40, 0x40, 0x40, 0x40],
        'M' => [0x7F, 0x02, 0x0C, 0x02, 0x7F],
        'N' => [0x7F, 0x02, 0x04, 0x08, 0x7F],
        'O' => [0x3E, 0x41, 0x41, 0x41, 0x3E],
        'P' => [0x7F, 0x09, 0x09, 0x09, 0x06],
        'R' => [0x7F, 0x09, 0x19, 0x29, 0x46],
        'S' => [0x26, 0x49, 0x49, 0x49, 0x32],
        'T' => [0x01, 0x01, 0x7F, 0x01, 0x01],
        'U' => [0x3F, 0x40, 0x40, 0x40, 0x3F],
        'V' => [0x03, 0x04, 0x78, 0x04, 0x03],
        'X' => [0x63, 0x14, 0x08, 0x14, 0x63],
        'K' => [0x7F, 0x08, 0x14, 0x22, 0x41],
        'G' => [0x3E, 0x41, 0x49, 0x49, 0x3A],
        'I' => [0x00, 0x41, 0x7F, 0x41, 0x00],
        ':' => [0x00, 0x36, 0x36, 0x00, 0x00],
        ' ' => [0x00, 0x00, 0x00, 0x00, 0x00],
        '-' => [0x08, 0x08, 0x08, 0x08, 0x08],
        _ => [0x7F, 0x41, 0x41, 0x41, 0x7F],
    };
    proof {
        assert(r@ =~= glyph(c));
    }
    r
}

/// Whether drawing character `c` with its top-left corner at `(x, y)` lights
/// the pixel at `(px, py)`: inside the 5x8 cell and the font bit is set.
pub open spec fn char_covers(c: char, x: int, y: int, px: int, py: int) -> bool {
    &&& x <= px < x + 5
    &&& y <= py < y + 8
    &&& ((glyph(c)[px - x] >> ((py - y) as u8)) & 1) == 1
}

/// Whether drawing `text` with its top-left corner at `(x, y)` lights the
/// pixel at `(px, py)`: some character's cell covers it, on the 6-pixel
/// grid.
pub open spec fn text_covers(text: Seq<char>, x: int, y: int, px: int, py: int) -> bool {
    exists|i: int|
        0 <= i < text.len() && #[trigger] char_covers(text[i], x + 6 * i, y, px, py)
}

/// The part of a character cell drawn after `cols` full columns and `rows`
/// pixels of the next column.
spec fn char_covers_upto(c: char, x: int, y: int, px: int, py: int, cols: int, rows: int) -> bool {
    &&& x <= px < x + 5
    &&& y <= py < y + 8
    &&& (px - x < cols || (px - x == cols && py - y < rows))
    &&& ((glyph(c)[px - x] >> ((py - y) as u8)) & 1) == 1
}

/// The 128x64 frame buffer, one byte per eight-pixel vertical strip.
pub struct DisplayBuffer {
    buffer: Vec<u8>,
}

impl DisplayBuffer {
    /// The buffer covers the whole panel: 8 pages of 128 bytes.
    pub open spec fn wf(self) -> bool {
        self.bytes().len() == 1024
    }

    /// The buffer's bytes, in page layout.
    pub closed spec fn bytes(self) -> Seq<u8> {
        self.buffer@
    }

    /// A blank buffer: every pixel unlit.
    pub fn new() -> (r: DisplayBuffer)
        ensures
            r.wf(),
            forall|x: int, y: int| !(#[trigger] spec_pixel(r.bytes(), x, y)),
    {
        let mut buffer: Vec<u8> = Vec::new();
        let mut i: usize = 0;
        while i < 1024
            invariant
                i <= 1024,
                buffer@.len() == i,
                forall|j: int| 0 <= j < i ==> buffer@[j] == 0u8,
            decreases 1024 - i,
        {
            buffer.push(0);
            i = i + 1;
        }
        let r = DisplayBuffer { buffer };
        proof {
            assert forall|x: int, y: int| !(#[trigger] spec_pixel(r.bytes(), x, y)) by {
                if 0 <= x < 128 && 0 <= y < 64 {
                    assert(0 <= byte_index(x, y) < 1024) by (nonlinear_arith)
                        requires
                            0 <= x < 128,
                            0 <= y < 64,
                    ;
                    assert(r.bytes()[byte_index(x, y)] == 0u8);
                    let k = (y % 8) as u8;
                    assert(((0u8 >> k) & 1) == 0) by (bit_vector);
                }
            }
        }
        r
    }

    /// Clear every pixel.
    pub fn clear(&mut self)
        requires
            old(self).wf(),
        ensures
            final(self).wf(),
            forall|x: int, y: int| !(#[trigger] spec_pixel(final(self).bytes(), x, y)),
    {
        let blank = DisplayBuffer::new();
        self.buffer = blank.buffer;
    }

    /// Whether the pixel at `(x, y)` is lit; everything off the panel is
    /// unlit.
    pub fn pixel(&self, x: u8, y: u8) -> (on: bool)
        requires
            self.wf(),
        ensures
            on == spec_pixel(self.bytes(), x as int, y as int),
    {
        if x >= 128 || y >= 64 {
            return false;
        }
        let byte_i = (y / 8) as usize * 128 + x as usize;
        proof {
            assert(0 <= byte_index(x as int, y as int) < 1024) by (nonlinear_arith)
                requires
                    0 <= x < 128,
                    0 <= y < 64,
            ;
        }
        (self.buffer[byte_i] >> (y % 8)) & 1 == 1
    }

    /// One byte of the page layout, for handing the buffer to the display
    /// controller.
    pub fn byte_at(&self, i: usize) -> (b: u8)
        requires
            self.wf(),
            i < 1024,
        ensures
            b == self.bytes()[i as int],
    {
        self.buffer[i]
    }

    /// Light or clear one pixel; coordinates off the panel are ignored.
    pub fn set_pixel(&mut self, x: u8, y: u8, on: bool)
        requires
            old(self).wf(),
        ensures
            final(self).wf(),
            forall|px: int, py: int| #[trigger] spec_pixel(final(self).bytes(), px, py) == (if px
                == x as int && py == y as int && x < 128 && y < 64 {
                on
            } else {
                spec_pixel(old(self).bytes(), px, py)
            }),
    {
        if x >= 128 || y >= 64 {
            return;
        }
        let byte_i = (y / 8) as usize * 128 + x as usize;
        let bit_i = y % 8;
        proof {
            assert(0 <= byte_index(x as int, y as int) < 1024) by (nonlinear_arith)
                requires
                    0 <= x < 128,
                    0 <= y < 64,
            ;
        }
        let b = self.buffer[byte_i];
        let nb = if on {
            b | (1u8 << bit_i)
        } else {
            b & !(1u8 << bit_i)
        };
        self.buffer[byte_i] = nb;
        proof {
            let k = (y % 8) as u8;
            assert(k == bit_i);
            if on {
                assert((((b | (1u8 << k)) >> k) & 1) == 1 && (forall|j: u8|
                    j < 8 && j != k ==> (((b | (1u8 << k)) >> j) & 1) == ((b >> j) & 1)))
                    by (bit_vector)
                    requires
                        k < 8,
                ;
            } else {
                assert((((b & !(1u8 << k)) >> k) & 1) == 0 && (forall|j: u8|
                    j < 8 && j != k ==> (((b & !(1u8 << k)) >> j) & 1) == ((b >> j) & 1)))
                    by (bit_vector)
                    requires
                        k < 8,
                ;
            }
            assert forall|px: int, py: int| #[trigger] spec_pixel(final(self).bytes(), px, py) == (
            if px == x as int && py == y as int {
                on
            } else {
                spec_pixel(old(self).bytes(), px, py)
            }) by {
                if 0 <= px < 128 && 0 <= py < 64 {
                    assert(0 <= byte_index(px, py) < 1024) by (nonlinear_arith)
                        requires
                            0 <= px < 128,
                            0 <= py < 64,
                    ;
                    if !(px == x as int && py == y as int) {
                        lemma_pixel_addressing(px, py, x as int, y as int);
                        if byte_index(px, py) == byte_index(x as int, y as int) {
                            assert(((py % 8) as u8) < 8 && k < 8 && ((py % 8) as u8) != k);
                        }
                    }
                }
            }
        }
    }

    /// Draw one character with its top-left corner at `(x, y)`: the pixels
    /// of the 5x8 cell whose font bits are set are lit, every other pixel
    /// keeps its state.
    #[verifier::loop_isolation(false)]
    pub fn draw_char(&mut self, x: u8, y: u8, c: char)
        requires
            old(self).wf(),
            x <= 251,
            y <= 248,
        ensures
            final(self).wf(),
            forall|px: int, py: int| #[trigger] spec_pixel(final(self).bytes(), px, py) == (
            spec_pixel(old(self).bytes(), px, py) || (char_covers(c, x as int, y as int, px, py)
                && px < 128 && py < 64)),
    {
        let font = get_font_data(c);
        let mut dx: u8 = 0;
        while dx < 5
            invariant
                self.wf(),
                dx <= 5,
                forall|px: int, py: int| #[trigger] spec_pixel(self.bytes(), px, py) == (
                spec_pixel(old(self).bytes(), px, py) || (char_covers_upto(
                    c,
                    x as int,
                    y as int,
                    px,
                    py,
                    dx as int,
                    0,
                ) && px < 128 && py < 64)),
            decreases 5 - dx,
        {
            let column = font[dx as usize];
            let mut dy: u8 = 0;
            while dy < 8
                invariant
                    self.wf(),
                    dx < 5,
                    dy <= 8,
                    column == glyph(c)[dx as int],
                    forall|px: int, py: int| #[trigger] spec_pixel(self.bytes(), px, py) == (
                    spec_pixel(old(self).bytes(), px, py) || (char_covers_upto(
                        c,
                        x as int,
                        y as int,
                        px,
                        py,
                        dx as int,
                        dy as int,
                    ) && px < 128 && py < 64)),
                decreases 8 - dy,
            {
                if (column >> dy) & 1 == 1 {
                    self.set_pixel(x + dx, y + dy, true);
                }
                dy = dy + 1;
            }
            dx = dx + 1;
        }
    }

    /// Draw a text with its top-left corner at `(x, y)`, one character per
    /// six-pixel column: the pixels covered by set font bits are lit, every
    /// other pixel keeps its state.
    #[verifier::loop_isolation(false)]
    pub fn draw_text(&mut self, x: u8, y: u8, text: &str)
        requires
            old(self).wf(),
            y <= 248,
            x + 6 * text@.len() <= 257,
        ensures
            final(self).wf(),
            forall|px: int, py: int| #[trigger] spec_pixel(final(self).bytes(), px, py) == (
            spec_pixel(old(self).bytes(), px, py) || (text_covers(
                text@,
                x as int,
                y as int,
                px,
                py,
            ) && px < 128 && py < 64)),
    {
        let ghost t = text@;
        let n = text.unicode_len();
        let mut i: usize = 0;
        proof {
            assert forall|px: int, py: int|
                !text_covers(t.take(0), x as int, y as int, px, py) by {}
        }
        while i < n
            invariant
                self.wf(),
                i <= n,
                n == t.len(),
                forall|px: int, py: int| #[trigger] spec_pixel(self.bytes(), px, py) == (
                spec_pixel(old(self).bytes(), px, py) || (text_covers(
                    t.take(i as int),
                    x as int,
                    y as int,
                    px,
                    py,
                ) && px < 128 && py < 64)),
            decreases n - i,
        {
            let c = text.get_char(i);
            let cx = x as usize + 6 * i;
            self.draw_char(cx as u8, y, c);
            proof {
                let xx = x as int;
                let yy = y as int;
                assert forall|px: int, py: int|
                    text_covers(t.take(i + 1), xx, yy, px, py) == (text_covers(
                        t.take(i as int),
                        xx,
                        yy,
                        px,
                        py,
                    ) || char_covers(t[i as int], xx + 6 * i, yy, px, py)) by {
                    if text_covers(t.take(i + 1), xx, yy, px, py) {
                        let j = choose|j: int|
                            0 <= j < t.take(i + 1).len() && #[trigger] char_covers(
                                t.take(i + 1)[j],
                                xx + 6 * j,
                                yy,
                                px,
                                py,
                            );
                        if j < i {
                            assert(char_covers(t.take(i as int)[j], xx + 6 * j, yy, px, py));
                        } else {
                            assert(char_covers(t[i as int], xx + 6 * i, yy, px, py));
                        }
                    }
                    if text_covers(t.take(i as int), xx, yy, px, py) {
                        let j = choose|j: int|
                            0 <= j < t.take(i as int).len() && #[trigger] char_covers(
                                t.take(i as int)[j],
                                xx + 6 * j,
                                yy,
                                px,
                                py,
                            );
                        assert(char_covers(t.take(i + 1)[j], xx + 6 * j, yy, px, py));
                    }
                    if char_covers(t[i as int], xx + 6 * i, yy, px, py) {
                        assert(char_covers(t.take(i + 1)[i as int], xx + 6 * i, yy, px, py));
                    }
                }
            }
            i = i + 1;
        }
        proof {
            assert(t.take(n as int) =~= t);
        }
    }
}

} // verus!
