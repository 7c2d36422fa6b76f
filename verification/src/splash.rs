//! The integer side of the boot splash: the grey-level canvas, the boot
//! history that paces the animation, the framebuffer's geometry and pixel
//! encoding, still frames for preview, and the format of the glyph outline
//! data.
use vstd::prelude::*;

use crate::proto::configured_or;
use crate::text::{
    chars_eq, chars_of, decimal_text, find_char, find_char_from, has_prefix, lines,
    parse_unsigned, parse_usize_chars, push_decimal, split_lines, split_words, starts_with,
    string_of, sub_chars, trim, trim_chars, views, words,
};

verus! {

/// How many boot times the history keeps.
pub const HISTORY_LIMIT: usize = 8;

/// Where the boot history is kept unless configured otherwise.
pub const BOOT_HISTORY: &'static str = "/var/lib/oneos/boot-history";

/// The file that marks this boot as recorded, unless configured otherwise.
pub const RECORD_STAMP: &'static str = "/run/oneos-boot-recorded";

/// A grey-level image, one byte per pixel, row by row.
#[derive(Debug)]
pub struct Canvas {
    pub width: usize,
    pub height: usize,
    pub data: Vec<u8>,
}

impl Canvas {
    /// A black canvas of `width` by `height` pixels.
    pub fn new(width: usize, height: usize) -> (res: Canvas)
        requires
            width * height <= usize::MAX,
        ensures
            res.width == width,
            res.height == height,
            res.data@ == Seq::new((width * height) as nat, |i: int| 0u8),
    {
        let data = vec![0u8; width * height];
        assert(data@ =~= Seq::new((width * height) as nat, |i: int| 0u8));
        Canvas { width, height, data }
    }
}

/// The last `n` entries of `s`, or all of them when there are fewer.
pub open spec fn keep_recent<T>(s: Seq<T>, n: nat) -> Seq<T> {
    if s.len() > n {
        s.skip(s.len() - n)
    } else {
        s
    }
}

/// Appends `value` to the history and forgets the oldest entries beyond the
/// most recent `HISTORY_LIMIT`.
pub fn push_history<T>(history: &mut Vec<T>, value: T)
    ensures
        final(history)@ == keep_recent(old(history)@.push(value), HISTORY_LIMIT as nat),
{
    let ghost full = old(history)@.push(value);
    history.push(value);
    let overflow = history.len().saturating_sub(HISTORY_LIMIT);
    let mut removed: usize = 0;
    while removed < overflow
        invariant
            full.len() == history@.len() + removed,
            overflow == if full.len() > HISTORY_LIMIT {
                full.len() - HISTORY_LIMIT
            } else {
                0
            },
            removed <= overflow,
            history@ == full.skip(removed as int),
        decreases overflow - removed,
    {
        history.remove(0);
        removed = removed + 1;
        assert(history@ =~= full.skip(removed as int));
    }
    assert(full.skip(0) =~= full);
}

/// The history never holds more than `HISTORY_LIMIT` boot times, ends with
/// the newest, and keeps the others in the order they came.
pub proof fn lemma_history_window<T>(history: Seq<T>, value: T)
    ensures
        keep_recent(history.push(value), HISTORY_LIMIT as nat).len() <= HISTORY_LIMIT,
        keep_recent(history.push(value), HISTORY_LIMIT as nat).last() == value,
        history.len() < HISTORY_LIMIT ==> keep_recent(history.push(value), HISTORY_LIMIT as nat)
            == history.push(value),
{
}

/// The boot history's path: `ONEO_SPLASH_HISTORY` where it is set
/// (`configured`), else `/var/lib/oneos/boot-history`.
pub fn boot_history_path(configured: Option<String>) -> (res: String)
    ensures
        res@ == match configured {
            Some(p) => p@,
            None => BOOT_HISTORY@,
        },
{
    configured_or(configured, BOOT_HISTORY)
}

/// The stamp file's path: `ONEO_SPLASH_STAMP` where it is set
/// (`configured`), else `/run/oneos-boot-recorded`.
pub fn record_stamp_path(configured: Option<String>) -> (res: String)
    ensures
        res@ == match configured {
            Some(p) => p@,
            None => RECORD_STAMP@,
        },
{
    configured_or(configured, RECORD_STAMP)
}

// ---------------------------------------------------------------------------
// Framebuffer
// ---------------------------------------------------------------------------

/// The 16-bit RGB565 code of the grey level `v`: its top 5 bits as red, its
/// top 6 bits as green, its top 5 bits as blue.
pub open spec fn rgb565(v: u8) -> int {
    (v as int / 8) * 2048 + (v as int / 4) * 32 + v as int / 8
}

/// The RGB565 code of `v`, computed with shifts.
pub fn rgb565_code(v: u8) -> (res: u16)
    ensures
        res as int == rgb565(v),
{
    let w = v as u16;
    let code = ((w >> 3u16) << 11u16) | ((w >> 2u16) << 5u16) | (w >> 3u16);
    assert(code == (w / 8) * 2048 + (w / 4) * 32 + w / 8) by (bit_vector)
        requires
            w < 256,
            code == ((w >> 3u16) << 11u16) | ((w >> 2u16) << 5u16) | (w >> 3u16),
    ;
    code
}

/// `buf` after one pixel of grey level `v` is written at `off`: at 4 bytes
/// per pixel as blue, green, red and a zero byte; at 2 bytes per pixel as
/// its RGB565 code in the machine's byte order (`little` for
/// little-endian); at any other depth nothing is written.
pub open spec fn write_pixel(buf: Seq<u8>, off: int, bpp: int, v: u8, little: bool) -> Seq<u8> {
    if bpp == 4 {
        buf.update(off, v).update(off + 1, v).update(off + 2, v).update(off + 3, 0u8)
    } else if bpp == 2 {
        let lo = (rgb565(v) % 256) as u8;
        let hi = (rgb565(v) / 256) as u8;
        if little {
            buf.update(off, lo).update(off + 1, hi)
        } else {
            buf.update(off, hi).update(off + 1, lo)
        }
    } else {
        buf
    }
}

/// `buf` after the first `n` pixels, in row order, of a `w` pixels wide
/// image are written: pixel `(x, y)` takes the grey level at `y * cw + x` of
/// `data` and goes to byte `y * stride + x * bpp`.
pub open spec fn painted(
    buf: Seq<u8>,
    w: int,
    stride: int,
    bpp: int,
    data: Seq<u8>,
    cw: int,
    little: bool,
    n: nat,
) -> Seq<u8>
    decreases n,
{
    if n == 0 || w <= 0 {
        buf
    } else {
        let p = n - 1;
        let y = p / w;
        let x = p % w;
        write_pixel(
            painted(buf, w, stride, bpp, data, cw, little, (n - 1) as nat),
            y * stride + x * bpp,
            bpp,
            data[y * cw + x],
            little,
        )
    }
}

/// The bytes per pixel that `bits_per_pixel` gives (32 bits where it could
/// not be read).
pub open spec fn pixel_bytes(bits_per_pixel: Option<usize>) -> int {
    match bits_per_pixel {
        Some(b) => b as int / 8,
        None => 4,
    }
}

/// The framebuffer's layout and the bytes of one frame to be written to it.
#[derive(Debug)]
pub struct Frame {
    pub width: usize,
    pub height: usize,
    /// Bytes from the start of one row to the start of the next.
    pub stride: usize,
    pub bytes_per_pixel: usize,
    pub buffer: Vec<u8>,
}

impl Frame {
    /// The buffer holds exactly `stride * height` bytes.
    pub open spec fn wf(self) -> bool {
        self.buffer@.len() == self.stride * self.height
    }

    /// Whether every pixel of the frame has its grey level in `canvas` and
    /// its bytes in the buffer (at 2 or 4 bytes per pixel), and every byte
    /// offset can be computed.
    pub open spec fn fits(self, canvas: Canvas) -> bool {
        self.width == 0 || self.height == 0 || {
            &&& (self.height - 1) * canvas.width + self.width <= canvas.data@.len()
            &&& if self.bytes_per_pixel == 2 || self.bytes_per_pixel == 4 {
                (self.height - 1) * self.stride + self.width * self.bytes_per_pixel
                    <= self.buffer@.len()
            } else {
                (self.height - 1) * self.stride + (self.width - 1) * self.bytes_per_pixel
                    <= usize::MAX
            }
        }
    }

    /// A frame for a framebuffer of `width` by `height` pixels with the
    /// given depth and stride (each `None` where it could not be read: 32
    /// bits per pixel, and rows of `width` pixels with no gap), all bytes 0.
    pub fn new(
        width: usize,
        height: usize,
        bits_per_pixel: Option<usize>,
        stride: Option<usize>,
    ) -> (res: Frame)
        requires
            width * pixel_bytes(bits_per_pixel) <= usize::MAX,
            match stride {
                Some(s) => s as int,
                None => width * pixel_bytes(bits_per_pixel),
            } * height <= usize::MAX,
        ensures
            res.wf(),
            res.width == width,
            res.height == height,
            res.bytes_per_pixel == pixel_bytes(bits_per_pixel),
            res.stride == match stride {
                Some(s) => s as int,
                None => width * pixel_bytes(bits_per_pixel),
            },
            res.buffer@ == Seq::new(res.buffer@.len(), |i: int| 0u8),
    {
        let bytes_per_pixel = match bits_per_pixel {
            Some(b) => b / 8,
            None => 4,
        };
        let packed = width * bytes_per_pixel;
        let stride = match stride {
            Some(s) => s,
            None => packed,
        };
        let buffer = vec![0u8; stride * height];
        assert(buffer@ =~= Seq::new(buffer@.len(), |i: int| 0u8));
        Frame { width, height, stride, bytes_per_pixel, buffer }
    }

    /// Converts `canvas` into the framebuffer's pixel format: every pixel of
    /// the frame, row by row, is written into the buffer as `write_pixel`
    /// says, in the machine's byte order (`little_endian`).
    pub fn present(&mut self, canvas: &Canvas, little_endian: bool)
        requires
            old(self).wf(),
            old(self).fits(*canvas),
        ensures
            final(self).wf(),
            final(self).width == old(self).width,
            final(self).height == old(self).height,
            final(self).stride == old(self).stride,
            final(self).bytes_per_pixel == old(self).bytes_per_pixel,
            final(self).buffer@ == painted(
                old(self).buffer@,
                old(self).width as int,
                old(self).stride as int,
                old(self).bytes_per_pixel as int,
                canvas.data@,
                canvas.width as int,
                little_endian,
                (old(self).width * old(self).height) as nat,
            ),
    {
        let ghost init = self.buffer@;
        let w = self.width;
        let h = self.height;
        let stride = self.stride;
        let bpp = self.bytes_per_pixel;
        let cw = canvas.width;
        if w == 0 || h == 0 {
            assert(w * h == 0) by (nonlinear_arith)
                requires
                    w == 0 || h == 0,
            ;
            return;
        }
        let mut y: usize = 0;
        while y < h
            invariant
                0 < w,
                0 < h,
                y <= h,
                w == self.width,
                h == self.height,
                stride == self.stride,
                bpp == self.bytes_per_pixel,
                cw == canvas.width,
                self.wf(),
                self.fits(*canvas),
                init.len() == self.buffer@.len(),
                self.buffer@ == painted(
                    init,
                    w as int,
                    stride as int,
                    bpp as int,
                    canvas.data@,
                    cw as int,
                    little_endian,
                    (y * w) as nat,
                ),
            decreases h - y,
        {
            proof {
                vstd::arithmetic::mul::lemma_mul_inequality(y as int, (h - 1) as int, cw as int);
                vstd::arithmetic::mul::lemma_mul_inequality(y as int, (h - 1) as int, stride as int);
            }
            assert(canvas.data@.len() == canvas.data.len());
            assert(self.buffer@.len() == self.buffer.len());
            assert((h - 1) * cw + w <= canvas.data@.len());
            assert(0 <= w * bpp);
            assert((h - 1) * stride <= usize::MAX);
            let canvas_row = y * cw;
            let row = y * stride;
            let mut x: usize = 0;
            while x < w
                invariant
                    0 < w,
                    0 < h,
                    y < h,
                    x <= w,
                    w == self.width,
                    h == self.height,
                    stride == self.stride,
                    bpp == self.bytes_per_pixel,
                    cw == canvas.width,
                    canvas_row == y * cw,
                    row == y * stride,
                    y * cw <= (h - 1) * cw,
                    y * stride <= (h - 1) * stride,
                    (h - 1) * cw + w <= canvas.data@.len(),
                    canvas.data@.len() <= usize::MAX,
                    self.buffer@.len() <= usize::MAX,
                    bpp == 2 || bpp == 4 ==> (h - 1) * stride + w * bpp <= self.buffer@.len(),
                    !(bpp == 2 || bpp == 4) ==> (h - 1) * stride + (w - 1) * bpp <= usize::MAX,
                    self.wf(),
                    self.fits(*canvas),
                    init.len() == self.buffer@.len(),
                    self.buffer@ == painted(
                        init,
                        w as int,
                        stride as int,
                        bpp as int,
                        canvas.data@,
                        cw as int,
                        little_endian,
                        (y * w + x) as nat,
                    ),
                decreases w - x,
            {
                proof {
                    vstd::arithmetic::mul::lemma_mul_inequality(x as int, (w - 1) as int, bpp as int);
                    vstd::arithmetic::mul::lemma_mul_inequality(x as int, w as int, bpp as int);
                    vstd::arithmetic::mul::lemma_mul_inequality((x + 1) as int, w as int, bpp as int);
                }
                let value = canvas.data[canvas_row + x];
                let offset = row + x * bpp;
                let ghost before = self.buffer@;
                if bpp == 4 {
                    self.buffer.set(offset, value);
                    self.buffer.set(offset + 1, value);
                    self.buffer.set(offset + 2, value);
                    self.buffer.set(offset + 3, 0);
                } else if bpp == 2 {
                    let code = rgb565_code(value);
                    let lo = (code % 256) as u8;
                    let hi = (code / 256) as u8;
                    if little_endian {
                        self.buffer.set(offset, lo);
                        self.buffer.set(offset + 1, hi);
                    } else {
                        self.buffer.set(offset, hi);
                        self.buffer.set(offset + 1, lo);
                    }
                }
                proof {
                    let n = (y * w + x) as int;
                    vstd::arithmetic::div_mod::lemma_fundamental_div_mod_converse(
                        n,
                        w as int,
                        y as int,
                        x as int,
                    );
                    assert(self.buffer@ =~= write_pixel(
                        before,
                        offset as int,
                        bpp as int,
                        value,
                        little_endian,
                    ));
                    assert((n + 1) as nat - 1 == n);
                }
                x = x + 1;
            }
            assert(y * w + w == (y + 1) * w) by (nonlinear_arith);
            y = y + 1;
        }
        assert(h * w == w * h) by (nonlinear_arith);
    }
}

/// The bytes of one pixel of grey level `v` at 2 or 4 bytes per pixel.
pub open spec fn pixel_encoding(v: u8, bpp: int, little: bool) -> Seq<u8> {
    if bpp == 4 {
        seq![v, v, v, 0u8]
    } else if little {
        seq![(rgb565(v) % 256) as u8, (rgb565(v) / 256) as u8]
    } else {
        seq![(rgb565(v) / 256) as u8, (rgb565(v) % 256) as u8]
    }
}

/// The first byte of pixel `p` (counted in row order) in the buffer.
pub open spec fn pixel_offset(p: int, w: int, stride: int, bpp: int) -> int {
    (p / w) * stride + (p % w) * bpp
}

/// Where the grey level of pixel `p` (counted in row order) is in the
/// canvas.
pub open spec fn pixel_source(p: int, w: int, cw: int) -> int {
    (p / w) * cw + p % w
}

proof fn lemma_row_major_order(p: int, n: int, w: int)
    requires
        0 <= p < n,
        0 < w,
    ensures
        p / w < n / w || (p / w == n / w && p % w < n % w),
        0 <= p / w,
        0 <= p % w < w,
{
    vstd::arithmetic::div_mod::lemma_div_is_ordered(p, n, w);
    vstd::arithmetic::div_mod::lemma_fundamental_div_mod(p, w);
    vstd::arithmetic::div_mod::lemma_fundamental_div_mod(n, w);
    vstd::arithmetic::div_mod::lemma_mod_pos_bound(p, w);
    vstd::arithmetic::div_mod::lemma_div_pos_is_pos(p, w);
}

proof fn lemma_pixel_in_frame(p: int, w: int, h: int)
    requires
        0 <= p < w * h,
        0 < w,
        0 < h,
    ensures
        0 <= p / w <= h - 1,
        0 <= p % w < w,
{
    vstd::arithmetic::div_mod::lemma_div_is_ordered(p, w * h - 1, w);
    assert(w * h - 1 == (h - 1) * w + (w - 1)) by (nonlinear_arith);
    vstd::arithmetic::div_mod::lemma_fundamental_div_mod_converse(w * h - 1, w, h - 1, w - 1);
    vstd::arithmetic::div_mod::lemma_mod_pos_bound(p, w);
    vstd::arithmetic::div_mod::lemma_div_pos_is_pos(p, w);
}

proof fn lemma_offsets_ordered(yq: int, xq: int, yp: int, xp: int, w: int, stride: int, bpp: int)
    requires
        0 <= xq < w,
        0 <= xp < w,
        0 <= yq,
        yq < yp || (yq == yp && xq < xp),
        stride >= w * bpp,
        bpp > 0,
    ensures
        yq * stride + xq * bpp + bpp <= yp * stride + xp * bpp,
{
    if yq == yp {
        assert(xq * bpp + bpp <= xp * bpp) by (nonlinear_arith)
            requires
                xq < xp,
                bpp > 0,
        ;
    } else {
        assert(yq * stride + xq * bpp + bpp <= yp * stride + xp * bpp) by (nonlinear_arith)
            requires
                0 <= xq < w,
                0 <= xp,
                0 <= yq < yp,
                stride >= w * bpp,
                bpp > 0,
        ;
    }
}

proof fn lemma_pixel_bounds(p: int, w: int, h: int, stride: int, bpp: int, cw: int)
    requires
        0 <= p < w * h,
        0 < w,
        0 < h,
        0 < bpp,
        0 <= stride,
        0 <= cw,
    ensures
        0 <= pixel_offset(p, w, stride, bpp),
        pixel_offset(p, w, stride, bpp) + bpp <= (h - 1) * stride + w * bpp,
        0 <= pixel_source(p, w, cw) < (h - 1) * cw + w,
{
    lemma_pixel_in_frame(p, w, h);
    let y = p / w;
    let x = p % w;
    assert(y * stride + x * bpp + bpp <= (h - 1) * stride + w * bpp) by (nonlinear_arith)
        requires
            0 <= y <= h - 1,
            0 <= x < w,
            0 <= stride,
            0 < bpp,
    ;
    assert(0 <= y * stride + x * bpp) by (nonlinear_arith)
        requires
            0 <= y,
            0 <= x,
            0 <= stride,
            0 < bpp,
    ;
    assert(0 <= y * cw + x < (h - 1) * cw + w) by (nonlinear_arith)
        requires
            0 <= y <= h - 1,
            0 <= x < w,
            0 <= cw,
    ;
}

proof fn lemma_painted_prefix(
    buf: Seq<u8>,
    w: int,
    h: int,
    stride: int,
    bpp: int,
    data: Seq<u8>,
    cw: int,
    little: bool,
    n: nat,
)
    requires
        0 < w,
        0 < h,
        bpp == 2 || bpp == 4,
        stride >= w * bpp,
        0 <= cw,
        n <= w * h,
        (h - 1) * stride + w * bpp <= buf.len(),
        (h - 1) * cw + w <= data.len(),
    ensures
        painted(buf, w, stride, bpp, data, cw, little, n).len() == buf.len(),
        forall|p: int, k: int|
            0 <= p < n && 0 <= k < bpp ==> #[trigger] painted(
                buf,
                w,
                stride,
                bpp,
                data,
                cw,
                little,
                n,
            )[pixel_offset(p, w, stride, bpp) + k] == #[trigger] pixel_encoding(
                data[pixel_source(p, w, cw)],
                bpp,
                little,
            )[k],
    decreases n,
{
    if n > 0 {
        let m = (n - 1) as nat;
        lemma_painted_prefix(buf, w, h, stride, bpp, data, cw, little, m);
        let prev = painted(buf, w, stride, bpp, data, cw, little, m);
        let cur = painted(buf, w, stride, bpp, data, cw, little, n);
        let off = pixel_offset(m as int, w, stride, bpp);
        lemma_pixel_bounds(m as int, w, h, stride, bpp, cw);
        let v = data[pixel_source(m as int, w, cw)];
        assert(cur == write_pixel(prev, off, bpp, v, little));
        assert forall|p: int, k: int|
            0 <= p < n && 0 <= k < bpp implies #[trigger] cur[pixel_offset(p, w, stride, bpp) + k]
            == #[trigger] pixel_encoding(data[pixel_source(p, w, cw)], bpp, little)[k] by {
            lemma_pixel_bounds(p, w, h, stride, bpp, cw);
            if p < m {
                lemma_row_major_order(p, m as int, w);
                lemma_offsets_ordered(p / w, p % w, (m as int) / w, (m as int) % w, w, stride, bpp);
                assert(cur[pixel_offset(p, w, stride, bpp) + k] == prev[pixel_offset(
                    p,
                    w,
                    stride,
                    bpp,
                ) + k]);
            }
        }
    }
}

/// What a frame shows: when rows do not overlap (the stride holds a whole
/// row) and pixels take 2 or 4 bytes, the bytes of pixel `(x, y)` in the
/// buffer are the encoding of the canvas's grey level at `(x, y)`.
pub proof fn lemma_present_shows_canvas(
    buf: Seq<u8>,
    w: int,
    h: int,
    stride: int,
    bpp: int,
    data: Seq<u8>,
    cw: int,
    little: bool,
    x: int,
    y: int,
    k: int,
)
    requires
        0 <= x < w,
        0 <= y < h,
        0 <= k < bpp,
        bpp == 2 || bpp == 4,
        stride >= w * bpp,
        0 <= cw,
        (h - 1) * stride + w * bpp <= buf.len(),
        (h - 1) * cw + w <= data.len(),
    ensures
        painted(buf, w, stride, bpp, data, cw, little, (w * h) as nat)[y * stride + x * bpp + k]
            == pixel_encoding(data[y * cw + x], bpp, little)[k],
{
    assert(0 <= y * w + x < w * h) by (nonlinear_arith)
        requires
            0 <= x < w,
            0 <= y < h,
    ;
    lemma_painted_prefix(buf, w, h, stride, bpp, data, cw, little, (w * h) as nat);
    let p = y * w + x;
    vstd::arithmetic::div_mod::lemma_fundamental_div_mod_converse(p, w, y, x);
    assert(pixel_offset(p, w, stride, bpp) == y * stride + x * bpp);
    assert(pixel_source(p, w, cw) == y * cw + x);
}

// ---------------------------------------------------------------------------
// Framebuffer geometry from sysfs
// ---------------------------------------------------------------------------

/// Why the framebuffer's size could not be read.
#[derive(Debug, Clone, Copy, PartialEq, Eq, Structural)]
pub enum GeometryError {
    /// `virtual_size` holds no comma.
    BadVirtualSize,
    /// The width is not a number.
    BadWidth,
    /// The height is not a number.
    BadHeight,
}

impl GeometryError {
    /// The error's text.
    pub open spec fn text(self) -> Seq<char> {
        match self {
            GeometryError::BadVirtualSize => "bad virtual_size"@,
            GeometryError::BadWidth => "bad width"@,
            GeometryError::BadHeight => "bad height"@,
        }
    }

    /// The error's text.
    pub fn message(&self) -> (res: &'static str)
        ensures
            res@ == self.text(),
    {
        match self {
            GeometryError::BadVirtualSize => "bad virtual_size",
            GeometryError::BadWidth => "bad width",
            GeometryError::BadHeight => "bad height",
        }
    }
}

/// How the contents of sysfs' `virtual_size` read: trimmed, split at the
/// first comma, each side trimmed and read as std reads a `usize`.
pub open spec fn virtual_size(text: Seq<char>) -> Result<(usize, usize), GeometryError> {
    let t = trim(text);
    let k = find_char(t, ',');
    if k >= t.len() {
        Err(GeometryError::BadVirtualSize)
    } else {
        match parse_unsigned(trim(t.take(k as int)), usize::MAX as nat) {
            None => Err(GeometryError::BadWidth),
            Some(w) => match parse_unsigned(trim(t.skip(k + 1 as int)), usize::MAX as nat) {
                None => Err(GeometryError::BadHeight),
                Some(h) => Ok((w as usize, h as usize)),
            },
        }
    }
}

/// Reads the framebuffer's width and height from the contents of sysfs'
/// `virtual_size` (`"<width>,<height>"`).
pub fn parse_virtual_size(text: &str) -> (res: Result<(usize, usize), GeometryError>)
    ensures
        res == virtual_size(text@),
{
    let raw = chars_of(text);
    let t = trim_chars(&raw);
    let k = find_char_from(&t, 0, ',');
    assert(t@.skip(0) =~= t@);
    if k >= t.len() {
        return Err(GeometryError::BadVirtualSize);
    }
    let left = sub_chars(&t, 0, k);
    let right = sub_chars(&t, k + 1, t.len());
    assert(left@ =~= t@.take(k as int));
    assert(right@ =~= t@.skip(k + 1));
    let left = trim_chars(&left);
    let right = trim_chars(&right);
    let width = match parse_usize_chars(&left) {
        Some(w) => w,
        None => {
            return Err(GeometryError::BadWidth);
        },
    };
    let height = match parse_usize_chars(&right) {
        Some(h) => h,
        None => {
            return Err(GeometryError::BadHeight);
        },
    };
    Ok((width, height))
}

/// Reads a number from the contents of a sysfs attribute: trimmed, then
/// read as std reads a `usize`.
pub fn parse_sysfs_usize(text: &str) -> (res: Option<usize>)
    ensures
        match parse_unsigned(trim(text@), usize::MAX as nat) {
            Some(v) => res == Some(v as usize),
            None => res is None,
        },
{
    let raw = chars_of(text);
    let t = trim_chars(&raw);
    parse_usize_chars(&t)
}

// ---------------------------------------------------------------------------
// Preview frames
// ---------------------------------------------------------------------------

/// The bytes of ASCII text.
pub open spec fn ascii_bytes(s: Seq<char>) -> Seq<u8> {
    s.map_values(|c: char| c as u8)
}

/// The header of a binary PPM image of `w` by `h` pixels with 255 levels.
pub open spec fn ppm_header(w: nat, h: nat) -> Seq<char> {
    seq!['P', '6', '\n'] + decimal_text(w) + seq![' '] + decimal_text(h) + seq![
        '\n',
        '2',
        '5',
        '5',
        '\n',
    ]
}

/// Every grey level of `data` as an RGB triple of that level.
pub open spec fn grey_triples(data: Seq<u8>) -> Seq<u8>
    decreases data.len(),
{
    if data.len() == 0 {
        seq![]
    } else {
        grey_triples(data.drop_last()) + seq![data.last(), data.last(), data.last()]
    }
}

/// A binary PPM image (P6) of the canvas, for previewing frames.
pub fn ppm_image(canvas: &Canvas) -> (res: Vec<u8>)
    ensures
        res@ == ascii_bytes(ppm_header(canvas.width as nat, canvas.height as nat))
            + grey_triples(canvas.data@),
{
    let mut header: Vec<char> = Vec::new();
    header.push('P');
    header.push('6');
    header.push('\n');
    push_decimal(&mut header, canvas.width as u64);
    header.push(' ');
    push_decimal(&mut header, canvas.height as u64);
    header.push('\n');
    header.push('2');
    header.push('5');
    header.push('5');
    header.push('\n');
    assert(header@ =~= ppm_header(canvas.width as nat, canvas.height as nat));
    let mut out: Vec<u8> = Vec::new();
    let mut i: usize = 0;
    while i < header.len()
        invariant
            i <= header@.len(),
            out@ == ascii_bytes(header@.take(i as int)),
        decreases header.len() - i,
    {
        out.push(header[i] as u8);
        i = i + 1;
        assert(out@ =~= ascii_bytes(header@.take(i as int)));
    }
    assert(header@.take(i as int) =~= header@);
    let ghost prefix = out@;
    let mut j: usize = 0;
    while j < canvas.data.len()
        invariant
            j <= canvas.data@.len(),
            out@ == prefix + grey_triples(canvas.data@.take(j as int)),
        decreases canvas.data.len() - j,
    {
        let v = canvas.data[j];
        out.push(v);
        out.push(v);
        out.push(v);
        let ghost t = canvas.data@.take(j + 1);
        assert(t.drop_last() =~= canvas.data@.take(j as int));
        j = j + 1;
        assert(out@ =~= prefix + grey_triples(canvas.data@.take(j as int)));
    }
    assert(canvas.data@.take(j as int) =~= canvas.data@);
    out
}

// ---------------------------------------------------------------------------
// Glyph outline data
// ---------------------------------------------------------------------------

/// One glyph of the outline data: its closed contours, each as the number
/// tokens of its `C` line (`x y x y ...`, not yet read as numbers).
#[derive(Debug)]
pub struct GlyphText {
    pub contours: Vec<Vec<String>>,
}

/// The outline data as text: the value of the last `# em` line, where there
/// is one, and the glyphs in order.
#[derive(Debug)]
pub struct SignatureText {
    pub em: Option<String>,
    pub glyphs: Vec<GlyphText>,
}

/// The tokens of a contour as character sequences.
pub open spec fn contour_view(c: Vec<String>) -> Seq<Seq<char>> {
    c@.map_values(|t: String| t@)
}

/// The contours of a glyph as token sequences.
pub open spec fn glyph_view(g: GlyphText) -> Seq<Seq<Seq<char>>> {
    g.contours@.map_values(|c: Vec<String>| contour_view(c))
}

/// The glyphs as contour sequences.
pub open spec fn glyphs_view(gs: Seq<GlyphText>) -> Seq<Seq<Seq<Seq<char>>>> {
    gs.map_values(|g: GlyphText| glyph_view(g))
}

/// The marker of the line that gives the em size.
pub open spec fn em_key() -> Seq<char> {
    "# em"@
}

/// The em value that the (trimmed) lines `ls` give: that of the last line
/// beginning with `# em`, trimmed.
pub open spec fn outline_em(ls: Seq<Seq<char>>) -> Option<Seq<char>>
    decreases ls.len(),
{
    if ls.len() == 0 {
        None
    } else if has_prefix(trim(ls.last()), em_key()) {
        Some(trim(trim(ls.last()).skip(em_key().len() as int)))
    } else {
        outline_em(ls.drop_last())
    }
}

/// The glyphs after one more line `l` (trimmed) is read: an `# em` line, a
/// blank line or a comment (`#`) changes nothing; a line whose first word is
/// `G` starts a glyph; a line whose first word is `C` adds a contour with
/// the line's other words to the last glyph, where there is one; any other
/// line is ignored.
pub open spec fn outline_step(g: Seq<Seq<Seq<Seq<char>>>>, l: Seq<char>) -> Seq<
    Seq<Seq<Seq<char>>>,
> {
    if has_prefix(l, em_key()) || l.len() == 0 || l[0] == '#' {
        g
    } else {
        let ws = words(l);
        if ws.len() > 0 && ws[0] == seq!['G'] {
            g.push(seq![])
        } else if ws.len() > 0 && ws[0] == seq!['C'] && g.len() > 0 {
            g.update(g.len() - 1, g.last().push(ws.drop_first()))
        } else {
            g
        }
    }
}

/// The glyphs that the lines `ls` give.
pub open spec fn outline_glyphs(ls: Seq<Seq<char>>) -> Seq<Seq<Seq<Seq<char>>>>
    decreases ls.len(),
{
    if ls.len() == 0 {
        seq![]
    } else {
        outline_step(outline_glyphs(ls.drop_last()), trim(ls.last()))
    }
}

/// The glyphs being read: those finished, then the open one.
spec fn open_model(done: Seq<GlyphText>, cur: Vec<Vec<String>>, open: bool) -> Seq<
    Seq<Seq<Seq<char>>>,
> {
    if open {
        glyphs_view(done).push(cur@.map_values(|c: Vec<String>| contour_view(c)))
    } else {
        seq![]
    }
}

/// The words of `ws` after the first, as strings.
fn tail_strings(ws: &Vec<Vec<char>>) -> (res: Vec<String>)
    requires
        ws@.len() > 0,
    ensures
        contour_view(res) == views(ws@).drop_first(),
{
    let mut res: Vec<String> = Vec::new();
    let mut i: usize = 1;
    while i < ws.len()
        invariant
            1 <= i <= ws@.len(),
            contour_view(res) == views(ws@).subrange(1, i as int),
        decreases ws.len() - i,
    {
        let t = string_of(&ws[i]);
        assert(views(ws@)[i as int] == ws@[i as int]@);
        let ghost old_res = res;
        res.push(t);
        assert(contour_view(res) =~= contour_view(old_res).push(t@));
        assert(views(ws@).subrange(1, i + 1) =~= views(ws@).subrange(1, i as int).push(t@));
        i = i + 1;
        assert(contour_view(res) =~= views(ws@).subrange(1, i as int));
    }
    assert(views(ws@).subrange(1, i as int) =~= views(ws@).drop_first());
    res
}

/// Reads the outline data: `C x y x y ...` lines grouped into glyphs by `G`
/// lines, the em size from `# em <value>`, other `#` lines and blank lines
/// skipped.
pub fn parse_signature(text: &str) -> (res: SignatureText)
    ensures
        match res.em {
            Some(e) => outline_em(lines(text@)) == Some(e@),
            None => outline_em(lines(text@)) is None,
        },
        glyphs_view(res.glyphs@) == outline_glyphs(lines(text@)),
{
    let cs = chars_of(text);
    let ls = split_lines(&cs);
    let key = chars_of("# em");
    let ghost all = views(ls@);
    let mut em: Option<String> = None;
    let mut done: Vec<GlyphText> = Vec::new();
    let mut cur: Vec<Vec<String>> = Vec::new();
    let mut open = false;
    let mut i: usize = 0;
    while i < ls.len()
        invariant
            i <= ls@.len(),
            all == views(ls@),
            all == lines(cs@),
            cs@ == text@,
            key@ == em_key(),
            !open ==> done@.len() == 0,
            open_model(done@, cur, open) == outline_glyphs(all.take(i as int)),
            match em {
                Some(e) => outline_em(all.take(i as int)) == Some(e@),
                None => outline_em(all.take(i as int)) is None,
            },
        decreases ls.len() - i,
    {
        let ghost before = all.take(i as int);
        let ghost after = all.take(i + 1);
        assert(after.drop_last() =~= before);
        assert(after.last() == ls@[i as int]@);
        let l = trim_chars(&ls[i]);
        assert(l@ == trim(after.last()));
        let ghost g0 = outline_glyphs(before);
        assert(outline_glyphs(after) == outline_step(g0, l@));
        if starts_with(&l, &key) {
            let rest = sub_chars(&l, key.len(), l.len());
            assert(rest@ =~= l@.skip(em_key().len() as int));
            let value = trim_chars(&rest);
            em = Some(string_of(&value));
            assert(open_model(done@, cur, open) == outline_step(g0, l@));
        } else if l.len() == 0 || l[0] == '#' {
            assert(open_model(done@, cur, open) == outline_step(g0, l@));
        } else {
            let ws = split_words(&l);
            let ghost g = open_model(done@, cur, open);
            proof {
                reveal_strlit("G");
                reveal_strlit("C");
                assert("G"@ =~= seq!['G']);
                assert("C"@ =~= seq!['C']);
            }
            if ws.len() > 0 && chars_eq(&ws[0], "G") {
                assert(views(ws@)[0] == ws@[0]@);
                if open {
                    let finished = GlyphText { contours: cur };
                    done.push(finished);
                    assert(glyphs_view(done@) =~= g);
                } else {
                    assert(glyphs_view(done@) =~= Seq::<Seq<Seq<Seq<char>>>>::empty());
                }
                cur = Vec::new();
                open = true;
                assert(cur@.map_values(|c: Vec<String>| contour_view(c)) =~= Seq::<
                    Seq<Seq<char>>,
                >::empty());
                assert(open_model(done@, cur, open) =~= g.push(seq![]));
                assert(open_model(done@, cur, open) == outline_step(g0, l@));
            } else if ws.len() > 0 && chars_eq(&ws[0], "C") {
                assert(views(ws@)[0] == ws@[0]@);
                if open {
                    let tokens = tail_strings(&ws);
                    let ghost old_cur = cur;
                    cur.push(tokens);
                    assert(cur@.map_values(|c: Vec<String>| contour_view(c)) =~= old_cur@.map_values(
                        |c: Vec<String>| contour_view(c),
                    ).push(views(ws@).drop_first()));
                    assert(open_model(done@, cur, open) =~= g.update(
                        g.len() - 1,
                        g.last().push(views(ws@).drop_first()),
                    ));
                }
                assert(open_model(done@, cur, open) == outline_step(g0, l@));
            } else {
                proof {
                    if ws.len() > 0 {
                        assert(views(ws@)[0] == ws@[0]@);
                    }
                }
                assert(open_model(done@, cur, open) == outline_step(g0, l@));
            }
        }
        i = i + 1;
    }
    assert(all.take(i as int) =~= all);
    if open {
        let finished = GlyphText { contours: cur };
        done.push(finished);
        assert(glyphs_view(done@) =~= outline_glyphs(all));
    }
    SignatureText { em, glyphs: done }
}

// ---------------------------------------------------------------------------
// Masks
// ---------------------------------------------------------------------------

/// The grey level of the text.
pub const FOREGROUND: u8 = 245;

/// The grey level where the fill coverage `fill` and the ink coverage `ink`
/// meet: their product scaled back to 0..=255, then scaled to the text's
/// grey level.
pub open spec fn blend(fill: u8, ink: u8) -> int {
    ((fill as int * ink as int) / 255) * (FOREGROUND as int) / 255
}

/// The text shows only where the glyph is filled and the pen has passed:
/// without fill or without ink the pixel is black, with both complete it is
/// the text's grey level, and it never exceeds that level.
pub proof fn lemma_blend_levels(fill: u8, ink: u8)
    ensures
        fill == 0 || ink == 0 ==> blend(fill, ink) == 0,
        blend(255, 255) == FOREGROUND,
        0 <= blend(fill, ink) <= FOREGROUND,
{
    assert(0 <= fill as int * ink as int <= 255 * 255) by (nonlinear_arith);
    let c = (fill as int * ink as int) / 255;
    assert(0 <= c <= 255);
    assert(0 <= c * 245 <= 255 * 245) by (nonlinear_arith)
        requires
            0 <= c <= 255,
    ;
}

/// Draws the text into the canvas: each pixel becomes `blend` of the fill
/// mask and the ink mask there, as far as all three reach.
pub fn composite(canvas: &mut Canvas, fill: &[u8], ink: &[u8])
    ensures
        final(canvas).width == old(canvas).width,
        final(canvas).height == old(canvas).height,
        final(canvas).data@.len() == old(canvas).data@.len(),
        forall|i: int|
            0 <= i < final(canvas).data@.len() ==> #[trigger] final(canvas).data@[i] == if i
                < fill@.len() && i < ink@.len() {
                blend(fill@[i], ink@[i]) as u8
            } else {
                old(canvas).data@[i]
            },
{
    let n = if canvas.data.len() < fill.len() {
        canvas.data.len()
    } else {
        fill.len()
    };
    let n = if n < ink.len() {
        n
    } else {
        ink.len()
    };
    let ghost start = canvas.data@;
    let ghost w0 = canvas.width;
    let ghost h0 = canvas.height;
    let mut i: usize = 0;
    while i < n
        invariant
            canvas.width == w0,
            canvas.height == h0,
            n <= canvas.data@.len(),
            n <= fill@.len(),
            n <= ink@.len(),
            n == canvas.data@.len() || n == fill@.len() || n == ink@.len(),
            i <= n,
            canvas.data@.len() == start.len(),
            forall|j: int|
                0 <= j < canvas.data@.len() ==> #[trigger] canvas.data@[j] == if j < i {
                    blend(fill@[j], ink@[j]) as u8
                } else {
                    start[j]
                },
        decreases n - i,
    {
        let f = fill[i] as u32;
        let k = ink[i] as u32;
        assert(f * k <= 255 * 255) by (nonlinear_arith)
            requires
                f <= 255,
                k <= 255,
        ;
        let coverage = f * k / 255;
        assert(coverage * 245 <= 255 * 245) by (nonlinear_arith)
            requires
                coverage <= 255,
        ;
        let value = (coverage * 245 / 255) as u8;
        canvas.data.set(i, value);
        i = i + 1;
    }
}

/// The sum of the first `k` samples, in row order, of the `s` by `s` block
/// of `counts` (a `sw` samples wide image) that belongs to pixel `(x, y)`.
pub open spec fn block_sum(counts: Seq<u8>, sw: int, s: int, y: int, x: int, k: nat) -> int
    decreases k,
{
    if k == 0 || s <= 0 {
        0
    } else {
        let j = k - 1;
        block_sum(counts, sw, s, y, x, (k - 1) as nat) + counts[(y * s + j / s) * sw + x * s + j
            % s] as int
    }
}

/// The coverage level of a pixel whose block sums to `sum` out of `total`
/// (capped at full coverage).
pub open spec fn coverage_level(sum: int, total: int) -> int {
    (if sum < total {
        sum
    } else {
        total
    }) * 255 / total
}

/// An empty block gives no coverage, and a block whose samples reach the
/// block's size gives full coverage.
pub proof fn lemma_coverage_extremes(sum: int, total: int)
    requires
        total > 0,
    ensures
        coverage_level(0, total) == 0,
        sum >= total ==> coverage_level(sum, total) == 255,
{
    assert(total * 255 / total == 255) by (nonlinear_arith)
        requires
            total > 0,
    ;
}

/// The sample count of a block as the renderer's 32-bit arithmetic holds it.
pub open spec fn block_total(samples: int) -> int {
    (samples * samples) as u32 as int
}

/// Whether the 32-bit arithmetic of `downsample` holds for every pixel.
pub open spec fn downsample_fits(counts: Seq<u8>, width: int, height: int, samples: int) -> bool {
    &&& block_total(samples) > 0
    &&& forall|y: int, x: int|
        0 <= y < height && 0 <= x < width ==> {
            let sum = #[trigger] block_sum(
                counts,
                width * samples,
                samples,
                y,
                x,
                (samples * samples) as nat,
            );
            &&& sum <= u32::MAX
            &&& (if sum < block_total(samples) {
                sum
            } else {
                block_total(samples)
            }) * 255 <= u32::MAX
        }
}

proof fn lemma_block_sum_grows(counts: Seq<u8>, sw: int, s: int, y: int, x: int, j: nat, k: nat)
    requires
        j <= k,
    ensures
        0 <= block_sum(counts, sw, s, y, x, j) <= block_sum(counts, sw, s, y, x, k),
    decreases k,
{
    if j < k {
        lemma_block_sum_grows(counts, sw, s, y, x, j, (k - 1) as nat);
    } else if k > 0 {
        lemma_block_sum_grows(counts, sw, s, y, x, (k - 1) as nat, (k - 1) as nat);
    }
}

/// Scales a supersampled coverage image (`samples` by `samples` counts per
/// pixel) down to one coverage level per pixel of a `width` by `height`
/// image.
pub fn downsample(counts: &[u8], width: usize, height: usize, samples: usize) -> (res: Vec<u8>)
    requires
        samples > 0,
        width * samples <= usize::MAX,
        height * samples <= usize::MAX,
        (width * samples) * (height * samples) <= usize::MAX,
        width * height <= usize::MAX,
        samples * samples <= usize::MAX,
        counts@.len() == (width * samples) * (height * samples),
        downsample_fits(counts@, width as int, height as int, samples as int),
    ensures
        res@.len() == width * height,
        forall|y: int, x: int|
            0 <= y < height && 0 <= x < width ==> #[trigger] res@[y * width + x] == coverage_level(
                block_sum(
                    counts@,
                    width * samples,
                    samples as int,
                    y,
                    x,
                    (samples * samples) as nat,
                ),
                block_total(samples as int),
            ) as u8,
{
    let sample_width = width * samples;
    let total = (samples * samples) as u32;
    let mut fill = vec![0u8; width * height];
    let ghost s = samples as int;
    let mut y: usize = 0;
    while y < height
        invariant
            y <= height,
            sample_width == width * samples,
            total as int == block_total(s),
            s == samples,
            samples > 0,
            width * samples <= usize::MAX,
            height * samples <= usize::MAX,
            (width * samples) * (height * samples) <= usize::MAX,
            width * height <= usize::MAX,
            samples * samples <= usize::MAX,
            counts@.len() == (width * samples) * (height * samples),
            downsample_fits(counts@, width as int, height as int, s),
            fill@.len() == width * height,
            forall|yy: int, xx: int|
                0 <= yy < y && 0 <= xx < width ==> #[trigger] fill@[yy * width + xx]
                    == coverage_level(
                    block_sum(counts@, width * samples, s, yy, xx, (s * s) as nat),
                    block_total(s),
                ) as u8,
        decreases height - y,
    {
        let mut x: usize = 0;
        while x < width
            invariant
                y < height,
                x <= width,
                sample_width == width * samples,
                total as int == block_total(s),
                s == samples,
                samples > 0,
                width * samples <= usize::MAX,
                height * samples <= usize::MAX,
                (width * samples) * (height * samples) <= usize::MAX,
                width * height <= usize::MAX,
                samples * samples <= usize::MAX,
                counts@.len() == (width * samples) * (height * samples),
                downsample_fits(counts@, width as int, height as int, s),
                fill@.len() == width * height,
                forall|yy: int, xx: int|
                    0 <= yy < height && 0 <= xx < width && (yy < y || (yy == y && xx < x))
                        ==> #[trigger] fill@[yy * width + xx] == coverage_level(
                        block_sum(counts@, width * samples, s, yy, xx, (s * s) as nat),
                        block_total(s),
                    ) as u8,
            decreases width - x,
        {
            let ghost full = block_sum(counts@, width * samples, s, y as int, x as int, (s * s) as nat);
            assert(full <= u32::MAX);
            let mut sum: u32 = 0;
            let mut dy: usize = 0;
            while dy < samples
                invariant
                    y < height,
                    x < width,
                    dy <= samples,
                    sample_width == width * samples,
                    s == samples,
                    samples > 0,
                    width * samples <= usize::MAX,
                    height * samples <= usize::MAX,
                    (width * samples) * (height * samples) <= usize::MAX,
                    samples * samples <= usize::MAX,
                    counts@.len() == (width * samples) * (height * samples),
                    full == block_sum(counts@, width * samples, s, y as int, x as int, (s * s) as nat),
                    full <= u32::MAX,
                    sum as int == block_sum(
                        counts@,
                        width * samples,
                        s,
                        y as int,
                        x as int,
                        (dy * s) as nat,
                    ),
                decreases samples - dy,
            {
                assert(counts@.len() == counts.len());
                assert(y * samples + dy < height * samples
                    && (y * samples + dy) * sample_width + x * samples + samples <= counts@.len()
                    && (y * samples + dy) * sample_width <= counts@.len()
                    && x * samples <= counts@.len()
                    && y * samples <= counts@.len()) by (nonlinear_arith)
                    requires
                        y < height,
                        x < width,
                        dy < samples,
                        sample_width == width * samples,
                        counts@.len() == (width * samples) * (height * samples),
                ;
                let base = (y * samples + dy) * sample_width + x * samples;
                assert(dy * s + 0 <= s * s) by (nonlinear_arith)
                    requires
                        dy < s,
                ;
                let mut dx: usize = 0;
                while dx < samples
                    invariant
                        y < height,
                        x < width,
                        dy < samples,
                        dx <= samples,
                        sample_width == width * samples,
                        s == samples,
                        samples > 0,
                        samples * samples <= usize::MAX,
                        base == (y * samples + dy) * sample_width + x * samples,
                        base + samples <= counts@.len(),
                        counts@.len() == counts.len(),
                        full == block_sum(counts@, width * samples, s, y as int, x as int, (s * s) as nat),
                        full <= u32::MAX,
                        dy * s + dx <= s * s,
                        sum as int == block_sum(
                            counts@,
                            width * samples,
                            s,
                            y as int,
                            x as int,
                            (dy * s + dx) as nat,
                        ),
                    decreases samples - dx,
                {
                    let j = dy * samples + dx;
                    assert((dy * s + dx) + 1 <= s * s) by (nonlinear_arith)
                        requires
                            dy < s,
                            dx < s,
                    ;
                    proof {
                        vstd::arithmetic::div_mod::lemma_fundamental_div_mod_converse(
                            j as int,
                            s,
                            dy as int,
                            dx as int,
                        );
                        lemma_block_sum_grows(
                            counts@,
                            width * samples,
                            s,
                            y as int,
                            x as int,
                            (j + 1) as nat,
                            (s * s) as nat,
                        );
                    }
                    sum = sum + counts[base + dx] as u32;
                    dx = dx + 1;
                }
                assert(dy * s + s == (dy + 1) * s) by (nonlinear_arith);
                dy = dy + 1;
            }
            assert(sum as int == full);
            let capped = if sum < total {
                sum
            } else {
                total
            };
            let value = (capped * 255 / total) as u8;
            assert(y * width + x < width * height) by (nonlinear_arith)
                requires
                    y < height,
                    x < width,
            ;
            fill.set(y * width + x, value);
            proof {
                assert forall|yy: int, xx: int|
                    0 <= yy < height && 0 <= xx < width && (yy < y || (yy == y && xx < x + 1))
                        implies #[trigger] fill@[yy * width + xx] == coverage_level(
                        block_sum(counts@, width * samples, s, yy, xx, (s * s) as nat),
                        block_total(s),
                    ) as u8 by {
                    if yy != y || xx != x {
                        lemma_offsets_ordered(yy, xx, y as int, x as int, width as int, width as int, 1);
                        assert(yy * width + xx != y * width + x);
                    }
                }
            }
            x = x + 1;
        }
        y = y + 1;
    }
    fill
}

} // verus!
