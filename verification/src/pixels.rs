//! Bytes that go to the GPU and come back from it: premultiplication, row pitch, masks and words.

use vstd::prelude::*;

verus! {

/// A color channel multiplied by alpha, rounded to the nearest value.
pub open spec fn premultiplied(channel: u8, alpha: u8) -> u8 {
    ((channel * alpha + 127) / 255) as u8
}

/// The bytes of premultiplied pixels. Bytes after the last whole pixel stay as they are.
pub open spec fn premultiplied_bytes(bytes: Seq<u8>) -> Seq<u8> {
    Seq::new(
        bytes.len(),
        |i: int|
            if i % 4 != 3 && i - i % 4 + 3 < bytes.len() {
                premultiplied(bytes[i], bytes[i - i % 4 + 3])
            } else {
                bytes[i]
            },
    )
}

fn scale_channel(channel: u8, alpha: u8) -> (r: u8)
    ensures
        r == premultiplied(channel, alpha),
{
    assert(channel * alpha <= 255 * 255) by (nonlinear_arith)
        requires
            channel <= 255,
            alpha <= 255,
    ;
    ((channel as u32 * alpha as u32 + 127) / 255) as u8
}

/// Premultiply every RGBA8 pixel: `(r, g, b, a)` becomes `(r*a/255, g*a/255, b*a/255, a)`.
///
/// Uses integer arithmetic to match the GPU's 8-bit rounding behaviour precisely.
pub fn premultiply_rgba8(bytes: &[u8]) -> (out: Vec<u8>)
    ensures
        out@ == premultiplied_bytes(bytes@),
{
    let mut out: Vec<u8> = Vec::new();
    let mut i: usize = 0;
    let n: usize = bytes.len();
    while i < n
        invariant
            i <= n,
            n == bytes@.len(),
            out@ == premultiplied_bytes(bytes@).take(i as int),
        decreases n - i,
    {
        let lane: usize = i % 4;
        let start: usize = i - lane;
        if lane != 3 && n - start > 3 {
            out.push(scale_channel(bytes[i], bytes[start + 3]));
        } else {
            out.push(bytes[i]);
        }
        assert(out@ =~= premultiplied_bytes(bytes@).take(i as int + 1));
        i = i + 1;
    }
    assert(premultiplied_bytes(bytes@).take(n as int) =~= premultiplied_bytes(bytes@));
    out
}

/// An opaque pixel keeps its color, a transparent one becomes black, and no channel exceeds alpha.
pub proof fn premultiplication_bounds(channel: u8, alpha: u8)
    ensures
        premultiplied(channel, 255) == channel,
        premultiplied(channel, 0) == 0,
        premultiplied(channel, alpha) <= alpha,
        premultiplied(channel, alpha) <= channel,
{
    assert(channel * alpha <= 255 * alpha) by (nonlinear_arith)
        requires
            channel <= 255,
            alpha >= 0,
    ;
    assert(channel * alpha <= 255 * channel) by (nonlinear_arith)
        requires
            alpha <= 255,
            channel >= 0,
    ;
}

/// What is in a pitched image after its first `rows` rows: each row of `tight` bytes starts at a
/// multiple of `pitch`. A row that is missing from the source, or that does not fit, is left out.
pub open spec fn pitched_rows(src: Seq<u8>, tight: int, pitch: int, total: int, rows: int) -> Seq<u8>
    decreases rows,
{
    if rows <= 0 {
        Seq::new(total as nat, |i: int| 0u8)
    } else {
        let y = rows - 1;
        let before = pitched_rows(src, tight, pitch, total, y);
        if (y + 1) * tight <= src.len() && y * pitch + tight <= total {
            Seq::new(
                total as nat,
                |i: int|
                    if y * pitch <= i < y * pitch + tight {
                        src[y * tight + (i - y * pitch)]
                    } else {
                        before[i]
                    },
            )
        } else {
            before
        }
    }
}

/// A product of two factors, of which one grows.
proof fn lemma_rows_below(y: int, rows: int, width: int)
    requires
        0 <= y < rows,
        0 <= width,
    ensures
        0 <= y * width,
        y * width + width <= rows * width,
        (y + 1) * width == y * width + width,
{
    assert(0 <= y * width && y * width + width <= rows * width && (y + 1) * width == y * width + width)
        by (nonlinear_arith)
        requires
            0 <= y < rows,
            0 <= width,
    ;
}

/// The rows of an image can be counted in bytes, tightly packed as well as at the pitch.
pub open spec fn rows_fit_memory(width: u32, height: u32, row_pitch: u32) -> bool {
    &&& 4 * width <= usize::MAX
    &&& 4 * width * height <= usize::MAX
    &&& row_pitch * height <= usize::MAX
}

/// Pack tightly-packed RGBA rows into a footprint-pitched staging layout.
pub fn pack_rgba_to_pitch(src: &[u8], width: u32, height: u32, row_pitch: u32) -> (out: Vec<u8>)
    requires
        rows_fit_memory(width, height, row_pitch),
    ensures
        out@ == pitched_rows(src@, 4 * width, row_pitch as int, row_pitch * height, height as int),
{
    let tight: usize = (width as usize) * 4;
    let pitch: usize = row_pitch as usize;
    let rows: usize = height as usize;
    assert(pitch * rows == row_pitch * height);
    assert(0 <= pitch * rows) by (nonlinear_arith)
        requires
            0 <= pitch,
            0 <= rows,
    ;
    let total: usize = pitch * rows;
    let mut out: Vec<u8> = Vec::new();
    while out.len() < total
        invariant
            out.len() <= total,
            forall|i: int| 0 <= i < out.len() ==> out@[i] == 0,
        decreases total - out.len(),
    {
        out.push(0);
    }
    let mut y: usize = 0;
    assert(out@ =~= pitched_rows(src@, tight as int, pitch as int, total as int, 0));
    while y < rows
        invariant
            y <= rows,
            rows == height,
            tight == 4 * width,
            pitch == row_pitch,
            total == pitch * rows,
            tight * rows <= usize::MAX,
            out@.len() == total,
            out@ == pitched_rows(src@, tight as int, pitch as int, total as int, y as int),
        decreases rows - y,
    {
        proof {
            lemma_rows_below(y as int, rows as int, tight as int);
            lemma_rows_below(y as int, rows as int, pitch as int);
            assert(rows * tight == tight * rows && rows * pitch == pitch * rows) by (nonlinear_arith);
        }
        let src_off: usize = y * tight;
        let dst_off: usize = y * pitch;
        if src_off + tight <= src.len() && tight <= total - dst_off {
            let ghost before = out@;
            let mut x: usize = 0;
            while x < tight
                invariant
                    x <= tight,
                    src_off + tight <= src.len(),
                    dst_off + tight <= total,
                    total == before.len(),
                    out@ == Seq::new(
                        total as nat,
                        |i: int|
                            if dst_off <= i < dst_off + x {
                                src@[src_off + (i - dst_off)]
                            } else {
                                before[i]
                            },
                    ),
                decreases tight - x,
            {
                out.set(dst_off + x, src[src_off + x]);
                x = x + 1;
                assert(out@ =~= Seq::new(
                    total as nat,
                    |i: int|
                        if dst_off <= i < dst_off + x {
                            src@[src_off + (i - dst_off)]
                        } else {
                            before[i]
                        },
                ));
            }
            assert(out@ =~= pitched_rows(src@, tight as int, pitch as int, total as int, y as int + 1));
        }
        y = y + 1;
    }
    out
}

/// With a pitch that is wide enough for a row, every byte of every row that the source holds whole is
/// found at its place; the other rows, and what lies between the rows, are zero.
pub proof fn pitched_image_holds_rows(src: Seq<u8>, tight: int, pitch: int, height: int, y: int, x: int)
    requires
        0 <= tight <= pitch,
        0 <= y < height,
        0 <= x < pitch,
    ensures
        y * pitch + x < pitch * height,
        pitched_rows(src, tight, pitch, pitch * height, height)[y * pitch + x] == (if x < tight && y * tight + tight
            <= src.len() {
            src[y * tight + x]
        } else {
            0
        }),
{
    lemma_rows_below(y, height, pitch);
    assert(height * pitch == pitch * height) by (nonlinear_arith);
    lemma_pitched_row(src, tight, pitch, height, height, y, x);
}

proof fn lemma_pitched_row(src: Seq<u8>, tight: int, pitch: int, height: int, rows: int, y: int, x: int)
    requires
        0 <= tight <= pitch,
        0 <= y < height,
        0 <= x < pitch,
        0 <= rows <= height,
    ensures
        pitched_rows(src, tight, pitch, pitch * height, rows)[y * pitch + x] == (if y < rows && x < tight && y * tight
            + tight <= src.len() {
            src[y * tight + x]
        } else {
            0
        }),
    decreases rows,
{
    let total = pitch * height;
    assert(height * pitch == total) by (nonlinear_arith)
        requires
            total == pitch * height,
    ;
    lemma_rows_below(y, height, pitch);
    if rows > 0 {
        let last = rows - 1;
        lemma_pitched_row(src, tight, pitch, height, last, y, x);
        lemma_rows_below(last, height, tight);
        lemma_rows_below(last, height, pitch);
        if last > y {
            lemma_rows_below(y, last, pitch);
        }
        if last < y {
            lemma_rows_below(last, y, pitch);
        }
    }
}

/// How the rows of an image lie in a staging buffer.
#[derive(Clone, Copy, Debug, PartialEq, Eq, Structural)]
pub struct CopyLayout {
    pub height: u32,
    /// Bytes of a row without padding.
    pub tight_row_bytes: u32,
    /// Bytes from the start of a row to the start of the next.
    pub row_pitch: u32,
    /// Where the first row starts.
    pub footprint_offset: u64,
    pub staging_bytes: u64,
    pub logical_bytes: u64,
}

impl CopyLayout {
    /// The rows lie inside of the staging buffer and fill the image.
    pub open spec fn wf(self) -> bool {
        &&& self.staging_bytes <= usize::MAX
        &&& self.logical_bytes == self.height * self.tight_row_bytes
        &&& self.height > 0 ==> self.footprint_offset + (self.height - 1) * self.row_pitch + self.tight_row_bytes
            <= self.staging_bytes
    }
}

/// Takes the rows of an image out of a staging buffer.
pub fn unpad_rows(padded: &[u8], layout: &CopyLayout) -> (output: Vec<u8>)
    requires
        layout.wf(),
        layout.logical_bytes <= usize::MAX,
        padded@.len() == layout.staging_bytes,
    ensures
        output@.len() == layout.logical_bytes,
        forall|y: int, x: int|
            #![trigger output@[y * layout.tight_row_bytes + x]]
            0 <= y < layout.height && 0 <= x < layout.tight_row_bytes ==> output@[y * layout.tight_row_bytes + x]
                == padded@[layout.footprint_offset + y * layout.row_pitch + x],
{
    let row_bytes: usize = layout.tight_row_bytes as usize;
    let pitch: usize = layout.row_pitch as usize;
    let rows: usize = layout.height as usize;
    let mut output: Vec<u8> = Vec::new();
    let mut row: usize = 0;
    while row < rows
        invariant
            layout.wf(),
            layout.logical_bytes <= usize::MAX,
            padded@.len() == layout.staging_bytes,
            row_bytes == layout.tight_row_bytes,
            pitch == layout.row_pitch,
            rows == layout.height,
            row <= rows,
            output@.len() == row * row_bytes,
            forall|y: int, x: int|
                #![trigger output@[y * row_bytes + x]]
                0 <= y < row && 0 <= x < row_bytes ==> output@[y * row_bytes + x] == padded@[layout.footprint_offset
                    + y * pitch + x],
        decreases rows - row,
    {
        proof {
            lemma_rows_below(row as int, rows as int, row_bytes as int);
            if row < rows - 1 {
                lemma_rows_below(row as int, rows - 1, pitch as int);
            }
            assert(0 <= row * pitch) by (nonlinear_arith)
                requires
                    0 <= row,
                    0 <= pitch,
            ;
        }
        let start: usize = layout.footprint_offset as usize + row * pitch;
        let ghost above = output@;
        let mut x: usize = 0;
        while x < row_bytes
            invariant
                x <= row_bytes,
                start == layout.footprint_offset + row * pitch,
                start + row_bytes <= padded.len(),
                output@.len() == above.len() + x,
                forall|i: int| 0 <= i < above.len() ==> output@[i] == above[i],
                forall|i: int| 0 <= i < x ==> #[trigger] output@[above.len() + i] == padded@[start + i],
            decreases row_bytes - x,
        {
            output.push(padded[start + x]);
            x = x + 1;
        }
        assert forall|y: int, xx: int|
            #![trigger output@[y * row_bytes + xx]]
            0 <= y < row + 1 && 0 <= xx < row_bytes implies output@[y * row_bytes + xx]
            == padded@[layout.footprint_offset + y * pitch + xx] by {
            if y < row {
                lemma_rows_below(y, row as int, row_bytes as int);
                assert(above[y * row_bytes + xx] == padded@[layout.footprint_offset + y * pitch + xx]);
            } else {
                assert(output@[above.len() + xx] == padded@[start + xx]);
            }
        }
        row = row + 1;
    }
    output
}

/// A mask with one byte for each pixel, as opaque gray pixels.
pub open spec fn gray_pixels(mask: Seq<u8>) -> Seq<u8> {
    Seq::new(
        4 * mask.len(),
        |i: int|
            if i % 4 == 3 {
                255
            } else {
                mask[i / 4]
            },
    )
}

/// Expands a mask to RGBA.
pub fn expand_mask(mask: &[u8]) -> (rgba: Vec<u8>)
    ensures
        rgba@ == gray_pixels(mask@),
{
    let mut rgba: Vec<u8> = Vec::new();
    let mut i: usize = 0;
    while i < mask.len()
        invariant
            i <= mask.len(),
            rgba@ == gray_pixels(mask@.take(i as int)),
        decreases mask.len() - i,
    {
        let b: u8 = mask[i];
        rgba.push(b);
        rgba.push(b);
        rgba.push(b);
        rgba.push(255);
        i = i + 1;
        assert(rgba@ =~= gray_pixels(mask@.take(i as int)));
    }
    assert(mask@.take(i as int) =~= mask@);
    rgba
}

/// The word that four bytes make up, with the most significant byte first or last.
pub open spec fn word_at(bytes: Seq<u8>, i: int, big_endian: bool) -> u32 {
    if big_endian {
        (bytes[4 * i] * 0x100_0000 + bytes[4 * i + 1] * 0x1_0000 + bytes[4 * i + 2] * 0x100 + bytes[4 * i + 3]) as u32
    } else {
        (bytes[4 * i] + bytes[4 * i + 1] * 0x100 + bytes[4 * i + 2] * 0x1_0000 + bytes[4 * i + 3] * 0x100_0000) as u32
    }
}

/// The words that the bytes make up.
pub open spec fn words_of(bytes: Seq<u8>, big_endian: bool) -> Seq<u32> {
    Seq::new(bytes.len() / 4, |i: int| word_at(bytes, i, big_endian))
}

/// The bytes hold the words, in one of the two byte orders.
pub open spec fn holds_words(bytes: Seq<u8>, words: Seq<u32>) -> bool {
    &&& bytes.len() == 4 * words.len()
    &&& words_of(bytes, false) == words || words_of(bytes, true) == words
}

/// `bytemuck::cast_slice`, from words to bytes. The bytes are the words in order, four bytes to a
/// word, in the byte order of the machine; which of the two orders that is, is left open.
#[verifier::external_body]
pub(crate) fn words_to_bytes(words: &[u32]) -> (bytes: Vec<u8>)
    ensures
        holds_words(bytes@, words@),
{
    bytemuck::cast_slice::<u32, u8>(words).to_vec()
}

} // verus!
