//! Pixel buffers: BT.601 conversion of RGBA into planar YUV, and rotation of
//! RGBA images by quarter turns.

use vstd::prelude::*;

verus! {

/// Luma of an RGB colour in BT.601 studio range.
pub open spec fn luma(r: int, g: int, b: int) -> int {
    (66 * r + 129 * g + 25 * b + 128) / 256 + 16
}

/// Blue-difference chroma of an RGB colour in BT.601 studio range.
pub open spec fn chroma_u(r: int, g: int, b: int) -> int {
    (-38 * r - 74 * g + 112 * b + 128) / 256 + 128
}

/// Red-difference chroma of an RGB colour in BT.601 studio range.
pub open spec fn chroma_v(r: int, g: int, b: int) -> int {
    (112 * r - 94 * g - 18 * b + 128) / 256 + 128
}

/// Luma byte of pixel `p` of an RGBA buffer.
pub open spec fn luma_at(rgba: Seq<u8>, p: int) -> u8 {
    luma(rgba[4 * p] as int, rgba[4 * p + 1] as int, rgba[4 * p + 2] as int) as u8
}

/// Blue-difference byte of pixel `p` of an RGBA buffer.
pub open spec fn u_at(rgba: Seq<u8>, p: int) -> u8 {
    chroma_u(rgba[4 * p] as int, rgba[4 * p + 1] as int, rgba[4 * p + 2] as int) as u8
}

/// Red-difference byte of pixel `p` of an RGBA buffer.
pub open spec fn v_at(rgba: Seq<u8>, p: int) -> u8 {
    chroma_v(rgba[4 * p] as int, rgba[4 * p + 1] as int, rgba[4 * p + 2] as int) as u8
}

/// Planar 4:4:4 image of the first `n` pixels: all luma bytes, then all
/// blue-difference bytes, then all red-difference bytes.
pub open spec fn i444_of(rgba: Seq<u8>, n: nat) -> Seq<u8> {
    Seq::new(n, |p: int| luma_at(rgba, p)) + Seq::new(n, |p: int| u_at(rgba, p)) + Seq::new(
        n,
        |p: int| v_at(rgba, p),
    )
}

/// Holds when the colour bytes of `n` pixels can be read from `len` bytes (the
/// alpha byte of the last pixel is never read).
pub open spec fn covers(len: nat, n: int) -> bool {
    n == 0 || len >= 4 * n - 1
}

/// Luma of a colour always lands in 16..=235 and chroma in 16..=240.
pub proof fn law_studio_range(r: u8, g: u8, b: u8)
    ensures
        16 <= luma(r as int, g as int, b as int) <= 235,
        16 <= chroma_u(r as int, g as int, b as int) <= 240,
        16 <= chroma_v(r as int, g as int, b as int) <= 240,
{
}

/// A grey has neutral chroma, and its luma never falls as the grey brightens.
pub proof fn law_grey(level: u8, brighter: u8)
    requires
        level <= brighter,
    ensures
        chroma_u(level as int, level as int, level as int) == 128,
        chroma_v(level as int, level as int, level as int) == 128,
        luma(level as int, level as int, level as int) <= luma(
            brighter as int,
            brighter as int,
            brighter as int,
        ),
{
}

fn floor256(x: i32) -> (q: i32)
    ensures
        q as int == x as int / 256,
{
    assert((x >> 8) as int == x as int / 256) by (bit_vector);
    x >> 8
}

fn luma_byte(r: u8, g: u8, b: u8) -> (y: u8)
    ensures
        y as int == luma(r as int, g as int, b as int),
{
    proof {
        law_studio_range(r, g, b);
    }
    (floor256(66 * r as i32 + 129 * g as i32 + 25 * b as i32 + 128) + 16) as u8
}

fn u_byte(r: u8, g: u8, b: u8) -> (u: u8)
    ensures
        u as int == chroma_u(r as int, g as int, b as int),
{
    proof {
        law_studio_range(r, g, b);
    }
    (floor256(-38 * r as i32 - 74 * g as i32 + 112 * b as i32 + 128) + 128) as u8
}

fn v_byte(r: u8, g: u8, b: u8) -> (v: u8)
    ensures
        v as int == chroma_v(r as int, g as int, b as int),
{
    proof {
        law_studio_range(r, g, b);
    }
    (floor256(112 * r as i32 - 94 * g as i32 - 18 * b as i32 + 128) + 128) as u8
}

/// Converts RGBA to planar 4:4:4.
pub fn rgba_to_i444(rgba: &[u8], w: usize, h: usize) -> (out: Vec<u8>)
    requires
        covers(rgba@.len(), w * h),
    ensures
        out@ == i444_of(rgba@, (w * h) as nat),
{
    proof {
        assert(w * h >= 0) by (nonlinear_arith);
        assert(rgba.len() <= usize::MAX);
    }
    let n: usize = w * h;
    let mut out: Vec<u8> = vec![0u8; n * 3];
    let mut p: usize = 0;
    while p < n
        invariant
            p <= n,
            covers(rgba@.len(), n as int),
            rgba@.len() <= usize::MAX,
            out@.len() == 3 * n,
            forall|i: int| 0 <= i < p ==> #[trigger] out@[i] == luma_at(rgba@, i),
            forall|i: int| n <= i < n + p ==> #[trigger] out@[i] == u_at(rgba@, i - n),
            forall|i: int| 2 * n <= i < 2 * n + p ==> #[trigger] out@[i] == v_at(rgba@, i - 2 * n),
        decreases n - p,
    {
        let r: u8 = rgba[4 * p];
        let g: u8 = rgba[4 * p + 1];
        let b: u8 = rgba[4 * p + 2];
        out[p] = luma_byte(r, g, b);
        out[n + p] = u_byte(r, g, b);
        out[2 * n + p] = v_byte(r, g, b);
        p += 1;
    }
    out
}

/// Index of the pixel that stands for column `x`, row `y`: coordinates past the
/// right or lower edge repeat the edge.
pub open spec fn edge_pixel(w: int, h: int, x: int, y: int) -> int {
    let xx = if x < w { x } else { w - 1 };
    let yy = if y < h { y } else { h - 1 };
    yy * w + xx
}

/// Mean of channel `c` over the two-by-two block whose upper left corner is at
/// column `x`, row `y`, rounded down.
pub open spec fn block_mean(rgba: Seq<u8>, w: int, h: int, x: int, y: int, c: int) -> int {
    (rgba[4 * edge_pixel(w, h, x, y) + c] + rgba[4 * edge_pixel(w, h, x + 1, y) + c]
        + rgba[4 * edge_pixel(w, h, x, y + 1) + c] + rgba[4 * edge_pixel(w, h, x + 1, y + 1) + c])
        / 4
}

/// Blue-difference byte of block column `bx`, block row `by`.
pub open spec fn block_u(rgba: Seq<u8>, w: int, h: int, bx: int, by: int) -> u8 {
    chroma_u(
        block_mean(rgba, w, h, 2 * bx, 2 * by, 0),
        block_mean(rgba, w, h, 2 * bx, 2 * by, 1),
        block_mean(rgba, w, h, 2 * bx, 2 * by, 2),
    ) as u8
}

/// Red-difference byte of block column `bx`, block row `by`.
pub open spec fn block_v(rgba: Seq<u8>, w: int, h: int, bx: int, by: int) -> u8 {
    chroma_v(
        block_mean(rgba, w, h, 2 * bx, 2 * by, 0),
        block_mean(rgba, w, h, 2 * bx, 2 * by, 1),
        block_mean(rgba, w, h, 2 * bx, 2 * by, 2),
    ) as u8
}

/// Blocks in one row of blocks; a lone last column makes a block of its own.
pub open spec fn block_cols(w: int) -> int {
    (w + 1) / 2
}

/// Where the blue-difference byte of a block is stored.
pub open spec fn u_slot(w: int, h: int, bx: int, by: int) -> int {
    w * h + by * (w / 2) + bx
}

/// Where the red-difference byte of a block is stored.
pub open spec fn v_slot(w: int, h: int, bx: int, by: int) -> int {
    u_slot(w, h, bx, by) + w * h / 4
}

/// The 4:2:0 buffer once the luma plane and the chroma of the first `k` blocks,
/// in reading order, are written. Where slots of two blocks meet, which takes an
/// odd width or height, the later block stays.
pub open spec fn i420_after(rgba: Seq<u8>, w: int, h: int, k: nat) -> Seq<u8>
    decreases k,
{
    if k == 0 {
        Seq::new(
            (w * h * 3 / 2) as nat,
            |i: int|
                if i < w * h {
                    luma_at(rgba, i)
                } else {
                    0u8
                },
        )
    } else {
        let bx = (k - 1) % block_cols(w);
        let by = (k - 1) / block_cols(w);
        i420_after(rgba, w, h, (k - 1) as nat).update(
            u_slot(w, h, bx, by),
            block_u(rgba, w, h, bx, by),
        ).update(v_slot(w, h, bx, by), block_v(rgba, w, h, bx, by))
    }
}

/// The planar 4:2:0 image: luma plane, quarter-size blue-difference plane,
/// quarter-size red-difference plane.
pub open spec fn i420_of(rgba: Seq<u8>, w: int, h: int) -> Seq<u8> {
    i420_after(rgba, w, h, (block_cols(w) * ((h + 1) / 2)) as nat)
}

/// Holds when every chroma byte of a `w` by `h` image has room in a buffer of
/// `w * h * 3 / 2` bytes. True of all even sizes and of some odd ones.
pub open spec fn i420_fits(w: int, h: int) -> bool {
    w == 0 || h == 0 || v_slot(w, h, (w - 1) / 2, (h - 1) / 2) < w * h * 3 / 2
}

proof fn lemma_pixel_bound(x: int, y: int, w: int, h: int)
    requires
        0 <= x < w,
        0 <= y < h,
    ensures
        0 <= y * w + x < w * h,
        0 <= y * w,
{
    assert(0 <= y * w && y * w + w <= w * h) by (nonlinear_arith)
        requires
            0 <= y < h,
            0 < w,
    ;
}

proof fn lemma_slot_bound(bx: int, by: int, w: int, h: int)
    requires
        0 <= bx <= (w - 1) / 2,
        0 <= by <= (h - 1) / 2,
        0 < w,
        0 < h,
        i420_fits(w, h),
    ensures
        0 < w * h,
        0 <= by * (w / 2),
        w * h <= u_slot(w, h, bx, by),
        w * h <= v_slot(w, h, bx, by) < w * h * 3 / 2,
        u_slot(w, h, bx, by) <= v_slot(w, h, bx, by),
{
    assert(0 < w * h) by (nonlinear_arith)
        requires
            0 < w,
            0 < h,
    ;
    let half = w / 2;
    let last = (h - 1) / 2;
    assert(0 <= by * half <= last * half) by (nonlinear_arith)
        requires
            0 <= by <= last,
            0 <= half,
    ;
}

fn edge_index(w: usize, h: usize, x: usize, y: usize) -> (p: usize)
    requires
        0 < w,
        0 < h,
        4 * (w * h) <= usize::MAX + 1,
    ensures
        p as int == edge_pixel(w as int, h as int, x as int, y as int),
        p < w * h,
{
    let xx: usize = if x < w {
        x
    } else {
        w - 1
    };
    let yy: usize = if y < h {
        y
    } else {
        h - 1
    };
    proof {
        lemma_pixel_bound(xx as int, yy as int, w as int, h as int);
    }
    yy * w + xx
}

fn mean4(a: u8, b: u8, c: u8, d: u8) -> (m: u8)
    ensures
        m as int == (a + b + c + d) / 4,
{
    ((a as u16 + b as u16 + c as u16 + d as u16) / 4) as u8
}

/// Mean colour of the two-by-two block at column `x`, row `y`.
fn block_colour(rgba: &[u8], w: usize, h: usize, x: usize, y: usize) -> (c: (u8, u8, u8))
    requires
        0 < w,
        0 < h,
        x < w,
        y < h,
        covers(rgba@.len(), w * h),
    ensures
        c.0 as int == block_mean(rgba@, w as int, h as int, x as int, y as int, 0),
        c.1 as int == block_mean(rgba@, w as int, h as int, x as int, y as int, 1),
        c.2 as int == block_mean(rgba@, w as int, h as int, x as int, y as int, 2),
{
    proof {
        assert(rgba.len() <= usize::MAX);
        lemma_pixel_bound(x as int, y as int, w as int, h as int);
        assert(w <= w * h && h <= w * h) by (nonlinear_arith)
            requires
                0 < w,
                0 < h,
        ;
    }
    let p0: usize = edge_index(w, h, x, y);
    let p1: usize = edge_index(w, h, x + 1, y);
    let p2: usize = edge_index(w, h, x, y + 1);
    let p3: usize = edge_index(w, h, x + 1, y + 1);
    let r: u8 = mean4(rgba[4 * p0], rgba[4 * p1], rgba[4 * p2], rgba[4 * p3]);
    let g: u8 = mean4(rgba[4 * p0 + 1], rgba[4 * p1 + 1], rgba[4 * p2 + 1], rgba[4 * p3 + 1]);
    let b: u8 = mean4(rgba[4 * p0 + 2], rgba[4 * p1 + 2], rgba[4 * p2 + 2], rgba[4 * p3 + 2]);
    (r, g, b)
}

/// Writes the chroma of one row of blocks.
fn write_block_row(rgba: &[u8], w: usize, h: usize, by: usize, out: &mut Vec<u8>)
    requires
        0 < w,
        0 < h,
        by <= (h - 1) / 2,
        covers(rgba@.len(), w * h),
        i420_fits(w as int, h as int),
        old(out)@ == i420_after(rgba@, w as int, h as int, (block_cols(w as int) * by) as nat),
        old(out)@.len() == w * h * 3 / 2,
    ensures
        final(out)@ == i420_after(
            rgba@,
            w as int,
            h as int,
            (block_cols(w as int) * (by + 1)) as nat,
        ),
        final(out)@.len() == w * h * 3 / 2,
{
    let ghost wi = w as int;
    let ghost hi = h as int;
    let ghost cols = block_cols(w as int);
    proof {
        assert(rgba.len() <= usize::MAX);
        lemma_slot_bound(0, by as int, wi, hi);
        assert(cols * by >= 0) by (nonlinear_arith)
            requires
                cols >= 0,
                by >= 0,
        ;
    }
    let n: usize = w * h;
    let mut bx: usize = 0;
    while bx < w - w / 2
        invariant
            0 < w,
            0 < h,
            by <= (h - 1) / 2,
            bx <= cols,
            wi == w,
            hi == h,
            cols == block_cols(wi),
            cols * by >= 0,
            n == w * h,
            rgba@.len() <= usize::MAX,
            covers(rgba@.len(), w * h),
            i420_fits(wi, hi),
            out@.len() == w * h * 3 / 2,
            out@ == i420_after(rgba@, wi, hi, (cols * by + bx) as nat),
        decreases cols - bx,
    {
        proof {
            lemma_slot_bound(bx as int, by as int, wi, hi);
            lemma_block_number(bx as int, by as int, cols);
        }
        let (r, g, b) = block_colour(rgba, w, h, 2 * bx, 2 * by);
        let slot: usize = n + by * (w / 2) + bx;
        out[slot] = u_byte(r, g, b);
        out[slot + n / 4] = v_byte(r, g, b);
        bx += 1;
    }
    proof {
        assert(cols * by + cols == cols * (by + 1)) by (nonlinear_arith);
    }
}

proof fn lemma_block_number(bx: int, by: int, cols: int)
    requires
        0 <= bx < cols,
        0 <= by,
    ensures
        cols * by + bx >= 0,
        (cols * by + bx) % cols == bx,
        (cols * by + bx) / cols == by,
{
    assert(cols * by == by * cols) by (nonlinear_arith);
    vstd::arithmetic::div_mod::lemma_fundamental_div_mod_converse(cols * by + bx, cols, by, bx);
    assert(cols * by >= 0) by (nonlinear_arith)
        requires
            cols >= 0,
            by >= 0,
    ;
}

/// The three planes of a 4:2:0 image of even width and height, side by side.
pub open spec fn i420_planes(rgba: Seq<u8>, w: int, h: int) -> Seq<u8> {
    Seq::new((w * h) as nat, |p: int| luma_at(rgba, p)) + Seq::new(
        (w * h / 4) as nat,
        |j: int| block_u(rgba, w, h, j % (w / 2), j / (w / 2)),
    ) + Seq::new((w * h / 4) as nat, |j: int| block_v(rgba, w, h, j % (w / 2), j / (w / 2)))
}

proof fn lemma_even_area(w: int, h: int)
    requires
        0 <= w,
        0 <= h,
        w % 2 == 0,
        h % 2 == 0,
    ensures
        w * h == 4 * ((w / 2) * (h / 2)),
        0 <= (w / 2) * (h / 2),
        w * h * 3 / 2 == w * h + 2 * (w * h / 4),
{
    let c = w / 2;
    let r = h / 2;
    assert((2 * c) * (2 * r) == 4 * (c * r)) by (nonlinear_arith);
    assert(0 <= c * r) by (nonlinear_arith)
        requires
            0 <= c,
            0 <= r,
    ;
}

proof fn lemma_even_prefix(rgba: Seq<u8>, w: int, h: int, k: nat)
    requires
        0 <= w,
        0 <= h,
        w % 2 == 0,
        h % 2 == 0,
        k <= w * h / 4,
    ensures
        i420_after(rgba, w, h, k).len() == w * h * 3 / 2,
        forall|i: int|
            0 <= i < w * h ==> #[trigger] i420_after(rgba, w, h, k)[i] == luma_at(rgba, i),
        forall|i: int|
            w * h <= i < w * h + k ==> #[trigger] i420_after(rgba, w, h, k)[i] == i420_planes(
                rgba,
                w,
                h,
            )[i],
        forall|i: int|
            w * h + w * h / 4 <= i < w * h + w * h / 4 + k ==> #[trigger] i420_after(
                rgba,
                w,
                h,
                k,
            )[i] == i420_planes(rgba, w, h)[i],
    decreases k,
{
    lemma_even_area(w, h);
    if k > 0 {
        lemma_even_prefix(rgba, w, h, (k - 1) as nat);
        let c = w / 2;
        let j = k - 1;
        assert(c > 0) by (nonlinear_arith)
            requires
                0 < w * h,
                0 <= h,
                0 <= c,
                w == 2 * c,
        ;
        vstd::arithmetic::div_mod::lemma_fundamental_div_mod(j, c);
        assert((j / c) * c == c * (j / c)) by (nonlinear_arith);
        assert(u_slot(w, h, j % c, j / c) == w * h + j);
    }
}

/// An image of even width and height always fits, and its three planes lie side
/// by side with one chroma byte per two-by-two block.
pub proof fn law_even_sizes_have_full_planes(rgba: Seq<u8>, w: int, h: int)
    requires
        0 <= w,
        0 <= h,
        w % 2 == 0,
        h % 2 == 0,
    ensures
        i420_fits(w, h),
        i420_of(rgba, w, h) == i420_planes(rgba, w, h),
        i420_of(rgba, w, h).len() == w * h * 3 / 2,
{
    lemma_even_area(w, h);
    let c = w / 2;
    let r = h / 2;
    assert(block_cols(w) == c && (h + 1) / 2 == r);
    lemma_even_prefix(rgba, w, h, (c * r) as nat);
    assert(i420_of(rgba, w, h) =~= i420_planes(rgba, w, h));
    if w > 0 && h > 0 {
        assert((r - 1) * c + c == c * r) by (nonlinear_arith);
    }
}

/// Both planar formats hold the same luma plane.
pub proof fn law_formats_share_luma(rgba: Seq<u8>, w: int, h: int, p: int)
    requires
        0 <= w,
        0 <= h,
        i420_fits(w, h),
        0 <= p < w * h,
    ensures
        i420_of(rgba, w, h)[p] == i444_of(rgba, (w * h) as nat)[p],
{
    if w == 0 || h == 0 {
        assert(w * h == 0) by (nonlinear_arith)
            requires
                w == 0 || h == 0,
        ;
    } else {
        let cols = block_cols(w);
        let rows = (h + 1) / 2;
        assert(0 <= cols * rows) by (nonlinear_arith)
            requires
                0 <= cols,
                0 <= rows,
        ;
        lemma_luma_kept(rgba, w, h, (cols * rows) as nat, p);
    }
}

proof fn lemma_luma_kept(rgba: Seq<u8>, w: int, h: int, k: nat, p: int)
    requires
        0 < w,
        0 < h,
        i420_fits(w, h),
        k <= block_cols(w) * ((h + 1) / 2),
        0 <= p < w * h,
    ensures
        i420_after(rgba, w, h, k).len() == w * h * 3 / 2,
        i420_after(rgba, w, h, k)[p] == luma_at(rgba, p),
    decreases k,
{
    if k > 0 {
        lemma_luma_kept(rgba, w, h, (k - 1) as nat, p);
        let cols = block_cols(w);
        let rows = (h + 1) / 2;
        let bx = (k - 1) % cols;
        let by = (k - 1) / cols;
        vstd::arithmetic::div_mod::lemma_fundamental_div_mod(k - 1, cols);
        assert(0 <= by < rows) by (nonlinear_arith)
            requires
                0 < cols,
                0 <= bx < cols,
                0 <= k - 1 < cols * rows,
                k - 1 == cols * by + bx,
        ;
        lemma_slot_bound(bx, by, w, h);
    }
}

/// An image of a single colour has, in 4:2:0, the chroma bytes that the colour
/// has in 4:4:4.
pub proof fn law_flat_image_keeps_chroma(rgba: Seq<u8>, w: int, h: int, bx: int, by: int)
    requires
        0 < w,
        0 < h,
        0 <= bx <= (w - 1) / 2,
        0 <= by <= (h - 1) / 2,
        forall|p: int, c: int|
            0 <= p < w * h && 0 <= c < 3 ==> #[trigger] rgba[4 * p + c] == rgba[c],
    ensures
        block_u(rgba, w, h, bx, by) == u_at(rgba, 0),
        block_v(rgba, w, h, bx, by) == v_at(rgba, 0),
{
    let x = 2 * bx;
    let y = 2 * by;
    let x1 = if x + 1 < w { x + 1 } else { w - 1 };
    let y1 = if y + 1 < h { y + 1 } else { h - 1 };
    lemma_pixel_bound(x, y, w, h);
    lemma_pixel_bound(x1, y, w, h);
    lemma_pixel_bound(x, y1, w, h);
    lemma_pixel_bound(x1, y1, w, h);
    assert(block_mean(rgba, w, h, x, y, 0) == rgba[0] as int);
    assert(block_mean(rgba, w, h, x, y, 1) == rgba[1] as int);
    assert(block_mean(rgba, w, h, x, y, 2) == rgba[2] as int);
}

/// The bytes of a 4:4:4 image. Luma, blue difference and red difference of a pixel
/// stand at the pixel's number in the first, second and third plane, and each is
/// the BT.601 sum of the pixel's red, green and blue in 256ths, rounded.
pub proof fn law_i444_bytes(rgba: Seq<u8>, n: nat, p: int)
    requires
        0 <= p < n,
    ensures
        i444_of(rgba, n).len() == 3 * n,
        ({
            let r = rgba[4 * p] as int;
            let g = rgba[4 * p + 1] as int;
            let b = rgba[4 * p + 2] as int;
            let y = i444_of(rgba, n)[p] as int;
            let u = i444_of(rgba, n)[n + p] as int;
            let v = i444_of(rgba, n)[2 * n + p] as int;
            &&& 0 <= (66 * r + 129 * g + 25 * b + 128) - 256 * (y - 16) < 256
            &&& 0 <= (112 * b - 38 * r - 74 * g + 128) - 256 * (u - 128) < 256
            &&& 0 <= (112 * r - 94 * g - 18 * b + 128) - 256 * (v - 128) < 256
        }),
{
    law_studio_range(rgba[4 * p], rgba[4 * p + 1], rgba[4 * p + 2]);
}

/// The luma bytes of a 4:2:0 image: one per pixel, in front, and each the BT.601
/// sum of the pixel's red, green and blue in 256ths, rounded.
pub proof fn law_i420_luma(rgba: Seq<u8>, w: int, h: int, p: int)
    requires
        0 <= w,
        0 <= h,
        i420_fits(w, h),
        0 <= p < w * h,
    ensures
        i420_of(rgba, w, h).len() == w * h * 3 / 2,
        ({
            let r = rgba[4 * p] as int;
            let g = rgba[4 * p + 1] as int;
            let b = rgba[4 * p + 2] as int;
            let y = i420_of(rgba, w, h)[p] as int;
            0 <= (66 * r + 129 * g + 25 * b + 128) - 256 * (y - 16) < 256
        }),
{
    if w == 0 || h == 0 {
        assert(w * h == 0) by (nonlinear_arith)
            requires
                w == 0 || h == 0,
        ;
    }
    let cols = block_cols(w);
    let rows = (h + 1) / 2;
    assert(0 <= cols * rows) by (nonlinear_arith)
        requires
            0 <= cols,
            0 <= rows,
    ;
    lemma_luma_kept(rgba, w, h, (cols * rows) as nat, p);
    law_studio_range(rgba[4 * p], rgba[4 * p + 1], rgba[4 * p + 2]);
}

/// The chroma bytes of a 4:2:0 image with even sides. Each block of two by two
/// pixels has one byte in each chroma plane, at its place among the blocks, and the
/// byte is the BT.601 sum of the means, rounded down, of the red, green and blue of
/// these four pixels.
pub proof fn law_i420_chroma(rgba: Seq<u8>, w: int, h: int, bx: int, by: int)
    requires
        w % 2 == 0,
        h % 2 == 0,
        0 <= bx < w / 2,
        0 <= by < h / 2,
    ensures
        i420_of(rgba, w, h).len() == w * h * 3 / 2,
        ({
            let a = 4 * ((2 * by) * w + 2 * bx);
            let b = 4 * ((2 * by) * w + 2 * bx + 1);
            let c = 4 * ((2 * by + 1) * w + 2 * bx);
            let d = 4 * ((2 * by + 1) * w + 2 * bx + 1);
            let red = (rgba[a] + rgba[b] + rgba[c] + rgba[d]) / 4;
            let green = (rgba[a + 1] + rgba[b + 1] + rgba[c + 1] + rgba[d + 1]) / 4;
            let blue = (rgba[a + 2] + rgba[b + 2] + rgba[c + 2] + rgba[d + 2]) / 4;
            let u = i420_of(rgba, w, h)[w * h + by * (w / 2) + bx] as int;
            let v = i420_of(rgba, w, h)[w * h + w * h / 4 + by * (w / 2) + bx] as int;
            &&& 0 <= (112 * blue - 38 * red - 74 * green + 128) - 256 * (u - 128) < 256
            &&& 0 <= (112 * red - 94 * green - 18 * blue + 128) - 256 * (v - 128) < 256
        }),
{
    let cols = w / 2;
    let rows = h / 2;
    law_even_sizes_have_full_planes(rgba, w, h);
    lemma_even_area(w, h);
    lemma_block_number(bx, by, cols);
    assert(by * cols == cols * by) by (nonlinear_arith);
    assert(cols * by + cols <= cols * rows) by (nonlinear_arith)
        requires
            0 <= by < rows,
            0 < cols,
    ;
    let j = by * cols + bx;
    let x = 2 * bx;
    let y = 2 * by;
    assert(i420_planes(rgba, w, h)[w * h + j] == block_u(rgba, w, h, bx, by));
    assert(i420_planes(rgba, w, h)[w * h + w * h / 4 + j] == block_v(rgba, w, h, bx, by));
    law_studio_range(
        block_mean(rgba, w, h, x, y, 0) as u8,
        block_mean(rgba, w, h, x, y, 1) as u8,
        block_mean(rgba, w, h, x, y, 2) as u8,
    );
}

proof fn lemma_slot_kept(rgba: Seq<u8>, w: int, h: int, k: nat, last: nat, slot: int)
    requires
        0 < w,
        0 < h,
        i420_fits(w, h),
        k <= last <= block_cols(w) * ((h + 1) / 2),
        0 <= slot < w * h * 3 / 2,
        forall|x: int, y: int|
            0 <= x < block_cols(w) && 0 <= y && y * block_cols(w) + x >= k ==> #[trigger] u_slot(
                w,
                h,
                x,
                y,
            ) != slot && v_slot(w, h, x, y) != slot,
    ensures
        i420_after(rgba, w, h, last)[slot] == i420_after(rgba, w, h, k)[slot],
    decreases last,
{
    if k < last {
        lemma_slot_kept(rgba, w, h, k, (last - 1) as nat, slot);
        let cols = block_cols(w);
        let x = (last - 1) % cols;
        let y = (last - 1) / cols;
        vstd::arithmetic::div_mod::lemma_fundamental_div_mod(last - 1, cols);
        assert(y * cols == cols * y) by (nonlinear_arith);
        let rows = (h + 1) / 2;
        assert(0 <= y < rows) by (nonlinear_arith)
            requires
                0 <= last - 1 < cols * rows,
                0 < cols,
                0 <= x < cols,
                last - 1 == cols * y + x,
        ;
        lemma_slot_bound(x, y, w, h);
        lemma_luma_kept(rgba, w, h, (last - 1) as nat, 0);
        assert(u_slot(w, h, x, y) != slot && v_slot(w, h, x, y) != slot);
    }
}

/// The chroma bytes of a 4:2:0 image of any size. The last block that writes to a
/// place decides what stands there: the BT.601 sum of the means of its four pixels,
/// where pixels past the right or lower edge repeat the edge. Within a block the
/// red difference comes last.
pub proof fn law_i420_last_block_decides(rgba: Seq<u8>, w: int, h: int, bx: int, by: int)
    requires
        0 < w,
        0 < h,
        i420_fits(w, h),
        0 <= bx <= (w - 1) / 2,
        0 <= by <= (h - 1) / 2,
    ensures
        ({
            let x1 = if 2 * bx + 1 < w {
                2 * bx + 1
            } else {
                w - 1
            };
            let y1 = if 2 * by + 1 < h {
                2 * by + 1
            } else {
                h - 1
            };
            let a = 4 * ((2 * by) * w + 2 * bx);
            let b = 4 * ((2 * by) * w + x1);
            let c = 4 * (y1 * w + 2 * bx);
            let d = 4 * (y1 * w + x1);
            let red = (rgba[a] + rgba[b] + rgba[c] + rgba[d]) / 4;
            let green = (rgba[a + 1] + rgba[b + 1] + rgba[c + 1] + rgba[d + 1]) / 4;
            let blue = (rgba[a + 2] + rgba[b + 2] + rgba[c + 2] + rgba[d + 2]) / 4;
            let at_u = w * h + by * (w / 2) + bx;
            let at_v = w * h + by * (w / 2) + bx + w * h / 4;
            let u = i420_of(rgba, w, h)[at_u] as int;
            let v = i420_of(rgba, w, h)[at_v] as int;
            let is_last = |slot: int|
                forall|x: int, y: int|
                    0 <= x < (w + 1) / 2 && 0 <= y && y * ((w + 1) / 2) + x > by * ((w + 1) / 2)
                        + bx ==> #[trigger] u_slot(w, h, x, y) != slot && v_slot(w, h, x, y)
                        != slot;
            &&& is_last(at_u) && w * h >= 4 ==> 0 <= (112 * blue - 38 * red - 74 * green + 128)
                - 256 * (u - 128) < 256
            &&& is_last(at_v) ==> 0 <= (112 * red - 94 * green - 18 * blue + 128) - 256 * (v - 128)
                < 256
        }),
{
    let cols = block_cols(w);
    let rows = (h + 1) / 2;
    lemma_slot_bound(bx, by, w, h);
    lemma_block_number(bx, by, cols);
    assert(by * cols == cols * by) by (nonlinear_arith);
    assert(cols * by + cols <= cols * rows) by (nonlinear_arith)
        requires
            0 <= by < rows,
            0 < cols,
    ;
    let k = (cols * by + bx + 1) as nat;
    let all = (cols * rows) as nat;
    let at_u = u_slot(w, h, bx, by);
    let at_v = v_slot(w, h, bx, by);
    lemma_luma_kept(rgba, w, h, k, 0);
    lemma_luma_kept(rgba, w, h, (k - 1) as nat, 0);
    if forall|x: int, y: int|
        0 <= x < cols && 0 <= y && y * cols + x >= k ==> #[trigger] u_slot(w, h, x, y) != at_u
            && v_slot(w, h, x, y) != at_u {
        lemma_slot_kept(rgba, w, h, k, all, at_u);
    }
    if forall|x: int, y: int|
        0 <= x < cols && 0 <= y && y * cols + x >= k ==> #[trigger] u_slot(w, h, x, y) != at_v
            && v_slot(w, h, x, y) != at_v {
        lemma_slot_kept(rgba, w, h, k, all, at_v);
    }
    law_studio_range(
        block_mean(rgba, w, h, 2 * bx, 2 * by, 0) as u8,
        block_mean(rgba, w, h, 2 * bx, 2 * by, 1) as u8,
        block_mean(rgba, w, h, 2 * bx, 2 * by, 2) as u8,
    );
}

/// Converts RGBA to planar 4:2:0.
pub fn rgba_to_i420(rgba: &[u8], w: usize, h: usize) -> (out: Vec<u8>)
    requires
        covers(rgba@.len(), w * h),
        i420_fits(w as int, h as int),
    ensures
        out@ == i420_of(rgba@, w as int, h as int),
        w % 2 == 0 && h % 2 == 0 ==> out@ == i420_planes(rgba@, w as int, h as int),
{
    proof {
        if w % 2 == 0 && h % 2 == 0 {
            law_even_sizes_have_full_planes(rgba@, w as int, h as int);
        }
        assert(w * h >= 0) by (nonlinear_arith);
        assert(rgba.len() <= usize::MAX);
    }
    let n: usize = w * h;
    let mut out: Vec<u8> = vec![0u8; n * 3 / 2];
    let mut p: usize = 0;
    while p < n
        invariant
            p <= n,
            n == w * h,
            covers(rgba@.len(), n as int),
            rgba@.len() <= usize::MAX,
            out@.len() == n * 3 / 2,
            forall|i: int| 0 <= i < p ==> #[trigger] out@[i] == luma_at(rgba@, i),
            forall|i: int| p <= i < out@.len() ==> #[trigger] out@[i] == 0,
        decreases n - p,
    {
        out[p] = luma_byte(rgba[4 * p], rgba[4 * p + 1], rgba[4 * p + 2]);
        p += 1;
    }
    let ghost cols = block_cols(w as int);
    proof {
        assert(out@ == i420_after(rgba@, w as int, h as int, 0));
        if w == 0 {
            assert(cols * ((h + 1) / 2) == 0) by (nonlinear_arith)
                requires
                    cols == 0,
            ;
        }
    }
    if w > 0 {
        let mut by: usize = 0;
        while by < h - h / 2
            invariant
                0 < w,
                by <= (h + 1) / 2,
                cols == block_cols(w as int),
                covers(rgba@.len(), w * h),
                i420_fits(w as int, h as int),
                out@.len() == w * h * 3 / 2,
                out@ == i420_after(rgba@, w as int, h as int, (cols * by) as nat),
            decreases h - by,
        {
            write_block_row(rgba, w, h, by, &mut out);
            by += 1;
        }
    }
    out
}

/// Holds for the container rotations that move pixels.
pub open spec fn is_turn(rot: i32) -> bool {
    rot == 90 || rot == 180 || rot == 270
}

/// Width of a `w` by `h` image once it is turned upright.
pub open spec fn turned_width(w: int, h: int, rot: i32) -> int {
    if rot == 90 || rot == 270 {
        h
    } else {
        w
    }
}

/// Height of a `w` by `h` image once it is turned upright.
pub open spec fn turned_height(w: int, h: int, rot: i32) -> int {
    if rot == 90 || rot == 270 {
        w
    } else {
        h
    }
}

/// The pixel of a `w` by `h` image that lands at column `x`, row `y` of the
/// upright image.
pub open spec fn turned_from(w: int, h: int, rot: i32, x: int, y: int) -> int {
    if rot == 90 {
        (h - 1 - x) * w + y
    } else if rot == 180 {
        (h - 1 - y) * w + (w - 1 - x)
    } else if rot == 270 {
        x * w + (w - 1 - y)
    } else {
        y * w + x
    }
}

/// The upright image: pixels move as a whole, and bytes beyond the image become
/// zero. A rotation that is no quarter turn leaves every byte in place.
pub open spec fn turned(src: Seq<u8>, w: int, h: int, rot: i32) -> Seq<u8> {
    if is_turn(rot) {
        let nw = turned_width(w, h, rot);
        Seq::new(
            src.len(),
            |i: int|
                if i < 4 * (w * h) {
                    src[4 * turned_from(w, h, rot, (i / 4) % nw, (i / 4) / nw) + i % 4]
                } else {
                    0u8
                },
        )
    } else {
        src
    }
}

proof fn lemma_turned_from_bound(w: int, h: int, rot: i32, x: int, y: int)
    requires
        0 <= x < turned_width(w, h, rot),
        0 <= y < turned_height(w, h, rot),
    ensures
        0 <= turned_from(w, h, rot, x, y) < w * h,
{
    if rot == 90 {
        lemma_pixel_bound(y, h - 1 - x, w, h);
    } else if rot == 180 {
        lemma_pixel_bound(w - 1 - x, h - 1 - y, w, h);
    } else if rot == 270 {
        lemma_pixel_bound(w - 1 - y, x, w, h);
    } else {
        lemma_pixel_bound(x, y, w, h);
    }
}

proof fn lemma_pixel_coordinates(x: int, y: int, w: int)
    requires
        0 <= x < w,
        0 <= y,
    ensures
        (y * w + x) % w == x,
        (y * w + x) / w == y,
{
    vstd::arithmetic::div_mod::lemma_fundamental_div_mod_converse(y * w + x, w, y, x);
}

/// Splits a byte offset inside an image into its pixel's column and row.
proof fn lemma_coordinates_of_byte(i: int, w: int, h: int)
    requires
        0 <= w,
        0 <= h,
        0 <= i < 4 * (w * h),
    ensures
        0 <= (i / 4) % w < w,
        0 <= (i / 4) / w < h,
        ((i / 4) / w) * w + (i / 4) % w == i / 4,
{
    let p = i / 4;
    assert(w > 0) by (nonlinear_arith)
        requires
            0 < w * h,
            0 <= h,
            0 <= w,
    ;
    vstd::arithmetic::div_mod::lemma_fundamental_div_mod(p, w);
    let x = p % w;
    let y = p / w;
    assert(0 <= x < w);
    assert(w * y == y * w) by (nonlinear_arith);
    assert(0 <= y < h) by (nonlinear_arith)
        requires
            0 < w,
            0 <= x < w,
            0 <= p < w * h,
            p == w * y + x,
    ;
}

fn turned_source(w: usize, h: usize, rot: i32, x: usize, y: usize) -> (p: usize)
    requires
        is_turn(rot),
        x < turned_width(w as int, h as int, rot),
        y < turned_height(w as int, h as int, rot),
        w * h <= usize::MAX,
    ensures
        p as int == turned_from(w as int, h as int, rot, x as int, y as int),
        p < w * h,
{
    proof {
        lemma_turned_from_bound(w as int, h as int, rot, x as int, y as int);
        if rot == 90 {
            lemma_pixel_bound(y as int, h - 1 - x, w as int, h as int);
        } else if rot == 180 {
            lemma_pixel_bound(w - 1 - x, h - 1 - y, w as int, h as int);
        } else {
            lemma_pixel_bound(w - 1 - y, x as int, w as int, h as int);
        }
    }
    if rot == 90 {
        (h - 1 - x) * w + y
    } else if rot == 180 {
        (h - 1 - y) * w + (w - 1 - x)
    } else {
        x * w + (w - 1 - y)
    }
}

/// Rotates RGBA upright per container rotation. Returns the pixels and their new
/// width and height.
pub fn transpose_rgba(src: &[u8], w: usize, h: usize, rot: i32) -> (res: (Vec<u8>, usize, usize))
    requires
        is_turn(rot) ==> 4 * (w * h) <= src@.len(),
    ensures
        res.0@ == turned(src@, w as int, h as int, rot),
        res.1 as int == turned_width(w as int, h as int, rot),
        res.2 as int == turned_height(w as int, h as int, rot),
{
    let mut out: Vec<u8> = Vec::new();
    if rot != 90 && rot != 180 && rot != 270 {
        out.extend_from_slice(src);
        assert(out@ =~= src@);
        return (out, w, h);
    }
    let len: usize = src.len();
    let (nw, nh): (usize, usize) = if rot == 180 {
        (w, h)
    } else {
        (h, w)
    };
    let ghost wi = w as int;
    let ghost hi = h as int;
    proof {
        assert(w * h == h * w) by (nonlinear_arith);
        if nw == 0 {
            assert(w * h == 0) by (nonlinear_arith)
                requires
                    w == 0 || h == 0,
            ;
        }
    }
    if nw > 0 {
        let mut y: usize = 0;
        while y < nh
            invariant
                is_turn(rot),
                0 < nw,
                wi == w,
                hi == h,
                nw == turned_width(wi, hi, rot),
                nh == turned_height(wi, hi, rot),
                y <= nh,
                4 * (w * h) <= src@.len() <= usize::MAX,
                w * h == nw * nh,
                out@.len() == 4 * (y * nw),
                forall|i: int|
                    0 <= i < out@.len() ==> #[trigger] out@[i] == turned(src@, wi, hi, rot)[i],
            decreases nh - y,
        {
            let mut x: usize = 0;
            while x < nw
                invariant
                    is_turn(rot),
                    0 < nw,
                    wi == w,
                    hi == h,
                    nw == turned_width(wi, hi, rot),
                    nh == turned_height(wi, hi, rot),
                    y < nh,
                    x <= nw,
                    4 * (w * h) <= src@.len() <= usize::MAX,
                    w * h == nw * nh,
                    out@.len() == 4 * (y * nw + x),
                    forall|i: int|
                        0 <= i < out@.len() ==> #[trigger] out@[i] == turned(src@, wi, hi, rot)[i],
                decreases nw - x,
            {
                let p: usize = turned_source(w, h, rot, x, y);
                proof {
                    lemma_pixel_bound(x as int, y as int, nw as int, nh as int);
                    lemma_pixel_coordinates(x as int, y as int, nw as int);
                }
                let ghost q = y * nw + x;
                out.push(src[4 * p]);
                out.push(src[4 * p + 1]);
                out.push(src[4 * p + 2]);
                out.push(src[4 * p + 3]);
                proof {
                    assert((4 * q + 0) / 4 == q);
                    assert((4 * q + 1) / 4 == q);
                    assert((4 * q + 2) / 4 == q);
                    assert((4 * q + 3) / 4 == q);
                }
                x += 1;
            }
            proof {
                assert(y * nw + nw == (y + 1) * nw) by (nonlinear_arith);
            }
            y += 1;
        }
        proof {
            assert(nh * nw == nw * nh) by (nonlinear_arith);
        }
    }
    while out.len() < len
        invariant
            is_turn(rot),
            wi == w,
            hi == h,
            len == src@.len(),
            4 * (w * h) <= out@.len() <= len,
            forall|i: int|
                0 <= i < out@.len() ==> #[trigger] out@[i] == turned(src@, wi, hi, rot)[i],
        decreases len - out@.len(),
    {
        out.push(0);
    }
    assert(out@ =~= turned(src@, wi, hi, rot));
    (out, nw, nh)
}

/// Where pixels go. A turn by 90 degrees takes the left column to the top row, read
/// from below; one by 270 takes the right column to the top row, read from above;
/// one by 180 reverses the picture. Bytes behind the picture become zero, and every
/// other rotation changes nothing.
pub proof fn law_turned_pixels(src: Seq<u8>, w: int, h: int, sx: int, sy: int, c: int)
    requires
        0 <= sx < w,
        0 <= sy < h,
        0 <= c < 4,
        4 * (w * h) <= src.len(),
    ensures
        turned(src, w, h, 90)[4 * (sx * h + (h - 1 - sy)) + c] == src[4 * (sy * w + sx) + c],
        turned(src, w, h, 180)[4 * ((h - 1 - sy) * w + (w - 1 - sx)) + c] == src[4 * (sy * w + sx)
            + c],
        turned(src, w, h, 270)[4 * ((w - 1 - sx) * h + sy) + c] == src[4 * (sy * w + sx) + c],
        turned(src, w, h, 90).len() == src.len(),
        turned(src, w, h, 180).len() == src.len(),
        turned(src, w, h, 270).len() == src.len(),
        forall|i: int|
            4 * (w * h) <= i < src.len() ==> #[trigger] turned(src, w, h, 90)[i] == 0
                && #[trigger] turned(src, w, h, 180)[i] == 0 && #[trigger] turned(
                src,
                w,
                h,
                270,
            )[i] == 0,
        forall|rot: i32|
            rot != 90 && rot != 180 && rot != 270 ==> #[trigger] turned(src, w, h, rot) == src,
{
    assert(w * h == h * w) by (nonlinear_arith);
    let q90 = sx * h + (h - 1 - sy);
    lemma_pixel_bound(h - 1 - sy, sx, h, w);
    lemma_pixel_coordinates(h - 1 - sy, sx, h);
    assert((4 * q90 + c) / 4 == q90 && (4 * q90 + c) % 4 == c);
    let q180 = (h - 1 - sy) * w + (w - 1 - sx);
    lemma_pixel_bound(w - 1 - sx, h - 1 - sy, w, h);
    lemma_pixel_coordinates(w - 1 - sx, h - 1 - sy, w);
    assert((4 * q180 + c) / 4 == q180 && (4 * q180 + c) % 4 == c);
    let q270 = (w - 1 - sx) * h + sy;
    lemma_pixel_bound(sy, w - 1 - sx, h, w);
    lemma_pixel_coordinates(sy, w - 1 - sx, h);
    assert((4 * q270 + c) / 4 == q270 && (4 * q270 + c) % 4 == c);
}

/// Turns by 90 and 270 degrees swap the sides; everything else keeps them.
pub proof fn law_turned_sides(w: int, h: int, rot: i32)
    ensures
        rot == 90 || rot == 270 ==> turned_width(w, h, rot) == h && turned_height(w, h, rot) == w,
        rot != 90 && rot != 270 ==> turned_width(w, h, rot) == w && turned_height(w, h, rot) == h,
{
}

/// Turning an image and then turning it by the rest of the full circle gives the
/// image back.
pub proof fn law_turn_back(src: Seq<u8>, w: int, h: int, rot: i32)
    requires
        0 <= w,
        0 <= h,
        src.len() == 4 * (w * h),
        is_turn(rot),
    ensures
        turned(
            turned(src, w, h, rot),
            turned_width(w, h, rot),
            turned_height(w, h, rot),
            (360 - rot) as i32,
        ) == src,
{
    let nw = turned_width(w, h, rot);
    let nh = turned_height(w, h, rot);
    let back = (360 - rot) as i32;
    let mid = turned(src, w, h, rot);
    assert(w * h == h * w) by (nonlinear_arith);
    assert forall|i: int| 0 <= i < src.len() implies turned(mid, nw, nh, back)[i] == src[i] by {
        lemma_coordinates_of_byte(i, w, h);
        let x = (i / 4) % w;
        let y = (i / 4) / w;
        lemma_turned_from_bound(nw, nh, back, x, y);
        let q = turned_from(nw, nh, back, x, y);
        let j = 4 * q + i % 4;
        assert(j / 4 == q && j % 4 == i % 4);
        if rot == 90 {
            lemma_pixel_coordinates(h - 1 - y, x, nw);
        } else if rot == 180 {
            lemma_pixel_coordinates(w - 1 - x, h - 1 - y, nw);
        } else {
            lemma_pixel_coordinates(y, w - 1 - x, nw);
        }
    }
    assert(turned(mid, nw, nh, back) =~= src);
}

/// Two turns by ninety degrees make one by a hundred and eighty.
pub proof fn law_two_quarter_turns(src: Seq<u8>, w: int, h: int)
    requires
        0 <= w,
        0 <= h,
        src.len() == 4 * (w * h),
    ensures
        turned(turned(src, w, h, 90), h, w, 90) == turned(src, w, h, 180),
{
    let mid = turned(src, w, h, 90);
    assert(w * h == h * w) by (nonlinear_arith);
    assert forall|i: int| 0 <= i < src.len() implies turned(mid, h, w, 90)[i] == turned(
        src,
        w,
        h,
        180,
    )[i] by {
        lemma_coordinates_of_byte(i, w, h);
        let x = (i / 4) % w;
        let y = (i / 4) / w;
        lemma_turned_from_bound(h, w, 90, x, y);
        let q = turned_from(h, w, 90, x, y);
        let j = 4 * q + i % 4;
        assert(j / 4 == q && j % 4 == i % 4);
        lemma_pixel_coordinates(y, w - 1 - x, h);
    }
    assert(turned(mid, h, w, 90) =~= turned(src, w, h, 180));
}

/// What turning returns: the pixel at column `sx`, row `sy` stands, after a turn by
/// 90 degrees, in column `h - 1 - sy`, row `sx`; after one by 180, in column
/// `w - 1 - sx`, row `h - 1 - sy`; after one by 270, in column `sy`, row
/// `w - 1 - sx`; and with any other rotation where it was.
pub proof fn law_transposed(
    src: &[u8],
    w: usize,
    h: usize,
    rot: i32,
    res: (Vec<u8>, usize, usize),
    sx: int,
    sy: int,
    c: int,
)
    requires
        0 <= sx < w,
        0 <= sy < h,
        0 <= c < 4,
        4 * (w * h) <= src@.len(),
        call_ensures(transpose_rgba, (src, w, h, rot), res),
    ensures
        res.0@.len() == src@.len(),
        rot == 90 || rot == 270 ==> res.1 == h && res.2 == w,
        rot != 90 && rot != 270 ==> res.1 == w && res.2 == h,
        ({
            let x = if rot == 90 {
                h - 1 - sy
            } else if rot == 180 {
                w - 1 - sx
            } else if rot == 270 {
                sy
            } else {
                sx
            };
            let y = if rot == 90 {
                sx
            } else if rot == 180 {
                h - 1 - sy
            } else if rot == 270 {
                w - 1 - sx
            } else {
                sy
            };
            res.0@[4 * (y * res.1 + x) + c] == src@[4 * (sy * w + sx) + c]
        }),
{
    law_turned_pixels(src@, w as int, h as int, sx, sy, c);
}

/// What conversion to 4:4:4 returns: three bytes per pixel, each the BT.601 sum of
/// the pixel's red, green and blue in 256ths, rounded, plane behind plane.
pub proof fn law_converted_to_i444(rgba: &[u8], w: usize, h: usize, out: Vec<u8>, p: int)
    requires
        0 <= p < w * h,
        call_ensures(rgba_to_i444, (rgba, w, h), out),
    ensures
        out@.len() == 3 * (w * h),
        ({
            let r = rgba@[4 * p] as int;
            let g = rgba@[4 * p + 1] as int;
            let b = rgba@[4 * p + 2] as int;
            &&& 0 <= (66 * r + 129 * g + 25 * b + 128) - 256 * (out@[p] - 16) < 256
            &&& 0 <= (112 * b - 38 * r - 74 * g + 128) - 256 * (out@[w * h + p] - 128) < 256
            &&& 0 <= (112 * r - 94 * g - 18 * b + 128) - 256 * (out@[2 * (w * h) + p] - 128) < 256
        }),
{
    law_i444_bytes(rgba@, (w * h) as nat, p);
}

/// What conversion to 4:2:0 returns for even sides: a luma byte per pixel, and for
/// each block of two by two pixels a byte in each chroma plane, made from the means
/// of these four pixels.
pub proof fn law_converted_to_i420(
    rgba: &[u8],
    w: usize,
    h: usize,
    out: Vec<u8>,
    p: int,
    bx: int,
    by: int,
)
    requires
        w % 2 == 0,
        h % 2 == 0,
        0 <= p < w * h,
        0 <= bx < w / 2,
        0 <= by < h / 2,
        call_ensures(rgba_to_i420, (rgba, w, h), out),
    ensures
        out@.len() == w * h * 3 / 2,
        ({
            let r = rgba@[4 * p] as int;
            let g = rgba@[4 * p + 1] as int;
            let b = rgba@[4 * p + 2] as int;
            0 <= (66 * r + 129 * g + 25 * b + 128) - 256 * (out@[p] - 16) < 256
        }),
        ({
            let a = 4 * ((2 * by) * w + 2 * bx);
            let b = 4 * ((2 * by) * w + 2 * bx + 1);
            let c = 4 * ((2 * by + 1) * w + 2 * bx);
            let d = 4 * ((2 * by + 1) * w + 2 * bx + 1);
            let red = (rgba@[a] + rgba@[b] + rgba@[c] + rgba@[d]) / 4;
            let green = (rgba@[a + 1] + rgba@[b + 1] + rgba@[c + 1] + rgba@[d + 1]) / 4;
            let blue = (rgba@[a + 2] + rgba@[b + 2] + rgba@[c + 2] + rgba@[d + 2]) / 4;
            let u = out@[w * h + by * (w as int / 2) + bx] as int;
            let v = out@[w * h + w * h / 4 + by * (w as int / 2) + bx] as int;
            &&& 0 <= (112 * blue - 38 * red - 74 * green + 128) - 256 * (u - 128) < 256
            &&& 0 <= (112 * red - 94 * green - 18 * blue + 128) - 256 * (v - 128) < 256
        }),
{
    law_even_sizes_have_full_planes(rgba@, w as int, h as int);
    law_i420_luma(rgba@, w as int, h as int, p);
    law_i420_chroma(rgba@, w as int, h as int, bx, by);
}

} // verus!
