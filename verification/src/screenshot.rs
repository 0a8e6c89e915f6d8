//! Captured frames and the row order they are handed out in.
use vstd::prelude::*;

verus! {

/// How the bytes of a [`Screenshot`] encode one pixel.
#[derive(Clone, Copy, Debug, PartialEq, Eq, Structural)]
pub enum ColorType {
    /// Three bytes per pixel: red, green, blue.
    Rgb,
    /// Four bytes per pixel: red, green, blue, alpha.
    Rgba,
}

impl ColorType {
    /// The number of bytes one pixel takes.
    pub open spec fn spec_bytes_per_pixel(self) -> nat {
        match self {
            ColorType::Rgb => 3,
            ColorType::Rgba => 4,
        }
    }

    /// The number of bytes one pixel takes.
    pub fn bytes_per_pixel(self) -> (n: usize)
        ensures
            n == self.spec_bytes_per_pixel(),
    {
        match self {
            ColorType::Rgb => 3,
            ColorType::Rgba => 4,
        }
    }
}

/// Row `r` of a buffer whose rows are `row_len` bytes long.
pub open spec fn row(bytes: Seq<u8>, row_len: nat, r: int) -> Seq<u8> {
    bytes.subrange(r * row_len, r * row_len + row_len)
}

/// The first `rows` rows of `bytes`, last row first.
pub open spec fn reversed_rows(bytes: Seq<u8>, row_len: nat, rows: nat) -> Seq<u8>
    decreases rows,
{
    if rows == 0 {
        Seq::empty()
    } else {
        row(bytes, row_len, rows - 1) + reversed_rows(bytes, row_len, (rows - 1) as nat)
    }
}

/// The number of whole rows of `row_len` bytes in a buffer of `len` bytes.
pub open spec fn whole_rows(len: nat, row_len: nat) -> nat {
    if row_len == 0 {
        0
    } else {
        len / row_len
    }
}

/// `bytes` with the order of its rows reversed. A trailing partial row is
/// dropped; with `row_len == 0` there are no rows at all.
pub open spec fn flipped(bytes: Seq<u8>, row_len: nat) -> Seq<u8> {
    reversed_rows(bytes, row_len, whole_rows(bytes.len(), row_len))
}

/// Where consecutive rows start.
proof fn lemma_row_starts(r: int, row_len: nat)
    ensures
        (r + 1) * row_len == r * row_len + row_len,
        (r - 1) * row_len == r * row_len - row_len,
        r >= 0 ==> r * row_len >= 0,
{
    assert((r + 1) * row_len == r * row_len + row_len) by (nonlinear_arith);
    assert((r - 1) * row_len == r * row_len - row_len) by (nonlinear_arith);
    assert(r >= 0 ==> r * row_len >= 0) by (nonlinear_arith);
}

/// A later row starts no earlier.
proof fn lemma_row_order(a: int, b: int, row_len: nat)
    requires
        a <= b,
    ensures
        a * row_len <= b * row_len,
{
    assert(a * row_len <= b * row_len) by (nonlinear_arith)
        requires
            a <= b,
    ;
}

/// `rows` whole rows fit in a buffer that holds at least that many.
pub proof fn lemma_rows_fit(len: nat, row_len: nat, rows: nat)
    requires
        row_len > 0,
        rows <= len / row_len,
    ensures
        rows * row_len <= len,
{
    lemma_row_order(rows as int, (len / row_len) as int, row_len);
    assert((len / row_len) * row_len <= len) by (nonlinear_arith)
        requires
            row_len > 0,
    ;
}

/// Reversing `rows` rows gives `rows * row_len` bytes.
pub proof fn lemma_reversed_rows_len(bytes: Seq<u8>, row_len: nat, rows: nat)
    requires
        rows * row_len <= bytes.len(),
    ensures
        reversed_rows(bytes, row_len, rows).len() == rows * row_len,
    decreases rows,
{
    if rows > 0 {
        lemma_row_starts(rows as int, row_len);
        lemma_row_starts(rows - 1, row_len);
        lemma_reversed_rows_len(bytes, row_len, (rows - 1) as nat);
    } else {
        assert(rows * row_len == 0) by (nonlinear_arith)
            requires
                rows == 0,
        ;
    }
}

/// Row order of a capture: row `r` of the flipped buffer is row
/// `rows - 1 - r` of the source, for every row. In particular the first row
/// handed out is the last scanline that was read.
pub proof fn lemma_flipped_row(bytes: Seq<u8>, row_len: nat, rows: nat, r: int)
    requires
        rows * row_len <= bytes.len(),
        0 <= r < rows,
    ensures
        row(reversed_rows(bytes, row_len, rows), row_len, r) == row(bytes, row_len, rows - 1 - r),
    decreases rows,
{
    let out = reversed_rows(bytes, row_len, rows);
    let head = row(bytes, row_len, rows - 1);
    let tail = reversed_rows(bytes, row_len, (rows - 1) as nat);
    lemma_row_starts(rows as int, row_len);
    lemma_row_starts(rows - 1, row_len);
    lemma_reversed_rows_len(bytes, row_len, (rows - 1) as nat);
    assert(head.len() == row_len);
    assert(out == head + tail);
    if r == 0 {
        assert(0 * row_len == 0) by (nonlinear_arith);
        assert(row(out, row_len, 0) =~= head);
    } else {
        lemma_flipped_row(bytes, row_len, (rows - 1) as nat, r - 1);
        lemma_row_starts(r, row_len);
        lemma_row_starts(r - 1, row_len);
        lemma_row_order(r, rows - 1, row_len);
        assert(row(out, row_len, r) =~= row(tail, row_len, r - 1));
    }
}

/// Flipping twice gives back a buffer of whole rows.
pub proof fn lemma_flipped_twice(bytes: Seq<u8>, row_len: nat)
    requires
        row_len > 0,
        bytes.len() % row_len == 0,
    ensures
        flipped(flipped(bytes, row_len), row_len) == bytes,
{
    let rows = whole_rows(bytes.len(), row_len);
    assert(rows * row_len == bytes.len()) by (nonlinear_arith)
        requires
            rows == bytes.len() / row_len,
            bytes.len() % row_len == 0,
            row_len > 0,
    ;
    let once = flipped(bytes, row_len);
    lemma_reversed_rows_len(bytes, row_len, rows);
    assert(once.len() / row_len == rows) by (nonlinear_arith)
        requires
            once.len() == rows * row_len,
            row_len > 0,
    ;
    let twice = flipped(once, row_len);
    lemma_reversed_rows_len(once, row_len, rows);
    assert forall|k: int| 0 <= k < bytes.len() implies twice[k] == bytes[k] by {
        let r = k / (row_len as int);
        let c = k % (row_len as int);
        assert(k == r * row_len + c && 0 <= c < row_len && 0 <= r < rows) by (nonlinear_arith)
            requires
                r == k / (row_len as int),
                c == k % (row_len as int),
                0 <= k < rows * row_len,
                row_len > 0,
        ;
        lemma_flipped_row(once, row_len, rows, r);
        lemma_flipped_row(bytes, row_len, rows, rows - 1 - r);
        lemma_row_starts(r, row_len);
        lemma_row_order(r + 1, rows as int, row_len);
        assert(row(twice, row_len, r)[c] == twice[k]);
        assert(row(bytes, row_len, r)[c] == bytes[k]);
    }
    assert(twice =~= bytes);
}

/// Reverses the order of the rows of `bytes`, each `row_len` bytes long, so
/// that a buffer read bottom-up starts at the top-left corner.
pub fn flip_rows(bytes: &[u8], row_len: usize) -> (out: Vec<u8>)
    ensures
        out@ == flipped(bytes@, row_len as nat),
{
    let mut out: Vec<u8> = Vec::new();
    if row_len == 0 {
        return out;
    }
    let rows: usize = bytes.len() / row_len;
    assert(bytes@.len() <= usize::MAX);
    let mut r: usize = rows;
    proof {
        lemma_rows_fit(bytes@.len(), row_len as nat, rows as nat);
    }
    while r > 0
        invariant
            row_len > 0,
            r <= rows,
            rows * row_len <= bytes@.len(),
            bytes@.len() <= usize::MAX,
            out@ + reversed_rows(bytes@, row_len as nat, r as nat) == reversed_rows(
                bytes@,
                row_len as nat,
                rows as nat,
            ),
        decreases r,
    {
        r = r - 1;
        assert(0 <= r * row_len && r * row_len + row_len <= bytes@.len()) by (nonlinear_arith)
            requires
                0 <= r,
                r + 1 <= rows,
                0 < row_len,
                rows * row_len <= bytes@.len(),
        ;
        let start: usize = r * row_len;
        let ghost before = out@;
        let ghost line = row(bytes@, row_len as nat, r as int);
        let mut c: usize = 0;
        while c < row_len
            invariant
                c <= row_len,
                start == r * row_len,
                start + row_len <= bytes@.len(),
                bytes@.len() <= usize::MAX,
                line == row(bytes@, row_len as nat, r as int),
                out@ == before + line.take(c as int),
            decreases row_len - c,
        {
            out.push(bytes[start + c]);
            assert(line.take(c + 1) =~= line.take(c as int).push(bytes@[start + c]));
            c = c + 1;
        }
        assert(line.take(row_len as int) =~= line);
        assert(out@ + reversed_rows(bytes@, row_len as nat, r as nat) =~= before + (line
            + reversed_rows(bytes@, row_len as nat, r as nat)));
    }
    out
}

/// A captured frame: rows from top to bottom, pixels from left to right.
pub struct Screenshot {
    encoding: ColorType,
    bytes: Vec<u8>,
    width: u32,
    height: u32,
}

impl Screenshot {
    /// The bytes of the frame.
    pub closed spec fn spec_bytes(&self) -> Seq<u8> {
        self.bytes@
    }

    /// The width of the frame in pixels.
    pub closed spec fn spec_width(&self) -> u32 {
        self.width
    }

    /// The height of the frame in pixels.
    pub closed spec fn spec_height(&self) -> u32 {
        self.height
    }

    /// How the bytes encode a pixel.
    pub closed spec fn spec_encoding(&self) -> ColorType {
        self.encoding
    }

    /// Creates an RGBA [`Screenshot`] from its bytes and dimensions.
    pub fn new(bytes: Vec<u8>, width: u32, height: u32) -> (s: Self)
        ensures
            s.spec_bytes() == bytes@,
            s.spec_width() == width,
            s.spec_height() == height,
            s.spec_encoding() == ColorType::Rgba,
    {
        Screenshot { encoding: ColorType::Rgba, bytes, width, height }
    }

    /// Sets how the bytes of the [`Screenshot`] encode a pixel.
    pub fn encoding(self, encoding: ColorType) -> (s: Self)
        ensures
            s.spec_bytes() == self.spec_bytes(),
            s.spec_width() == self.spec_width(),
            s.spec_height() == self.spec_height(),
            s.spec_encoding() == encoding,
    {
        Screenshot { encoding, bytes: self.bytes, width: self.width, height: self.height }
    }

    /// The bytes of the frame.
    pub fn bytes(&self) -> (b: &Vec<u8>)
        ensures
            b@ == self.spec_bytes(),
    {
        &self.bytes
    }

    /// The width of the frame in pixels.
    pub fn width(&self) -> (w: u32)
        ensures
            w == self.spec_width(),
    {
        self.width
    }

    /// The height of the frame in pixels.
    pub fn height(&self) -> (h: u32)
        ensures
            h == self.spec_height(),
    {
        self.height
    }

    /// How the bytes encode a pixel.
    pub fn color_type(&self) -> (c: ColorType)
        ensures
            c == self.spec_encoding(),
    {
        self.encoding
    }
}

} // verus!
