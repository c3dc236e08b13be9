//! Planes of a planar image: where they lie, and how they get into a frame whose
//! rows are padded.

use vstd::prelude::*;

verus! {

/// Where a plane lies in a planar image, and how long its rows are.
#[derive(Clone, Copy, Debug, PartialEq, Eq, Structural)]
pub struct PlaneSpan {
    pub start: usize,
    pub end: usize,
    pub stride: usize,
}

/// The planes of a `w` by `h` image: full size for 4:4:4; otherwise a full luma
/// plane and two quarter-size chroma planes with rows half as long.
pub open spec fn planes_of(w: int, h: int, is444: bool) -> Seq<(int, int, int)> {
    let n = w * h;
    if is444 {
        seq![(0, n, w), (n, 2 * n, w), (2 * n, 3 * n, w)]
    } else {
        seq![(0, n, w), (n, n + n / 4, w / 2), (n + n / 4, n + 2 * (n / 4), w / 2)]
    }
}

impl PlaneSpan {
    pub open spec fn triple(self) -> (int, int, int) {
        (self.start as int, self.end as int, self.stride as int)
    }
}

/// The planes of a planar image.
pub fn plane_spans(w: i32, h: i32, is444: bool) -> (spans: [PlaneSpan; 3])
    requires
        0 <= w,
        0 <= h,
        w * h <= i32::MAX,
        is444 ==> 3 * (w * h) <= usize::MAX,
    ensures
        spans@[0].triple() == planes_of(w as int, h as int, is444)[0],
        spans@[1].triple() == planes_of(w as int, h as int, is444)[1],
        spans@[2].triple() == planes_of(w as int, h as int, is444)[2],
{
    proof {
        assert(w * h >= 0) by (nonlinear_arith)
            requires
                0 <= w,
                0 <= h,
        ;
    }
    let n: usize = (w * h) as usize;
    let row: usize = w as usize;
    let q: usize = n / 4;
    if is444 {
        [
            PlaneSpan { start: 0, end: n, stride: row },
            PlaneSpan { start: n, end: n * 2, stride: row },
            PlaneSpan { start: n * 2, end: n * 3, stride: row },
        ]
    } else {
        [
            PlaneSpan { start: 0, end: n, stride: row },
            PlaneSpan { start: n, end: n + q, stride: row / 2 },
            PlaneSpan { start: n + q, end: n + q * 2, stride: row / 2 },
        ]
    }
}

/// What a padded plane holds once rows of `src` are copied into it: byte `c` of
/// row `r` comes from byte `c` of row `r` of `src` as far as both rows reach;
/// everything else stays.
pub open spec fn plane_after(
    dst: Seq<u8>,
    dst_stride: int,
    src: Seq<u8>,
    src_stride: int,
    rows: int,
) -> Seq<u8> {
    Seq::new(
        dst.len(),
        |i: int|
            {
                let r = i / dst_stride;
                let c = i % dst_stride;
                if r < rows && c < src_stride {
                    src[r * src_stride + c]
                } else {
                    dst[i]
                }
            },
    )
}

/// Holds when the last of `rows` rows still fits.
pub open spec fn plane_fits(len: int, dst_stride: int, src_stride: int, rows: int) -> bool {
    rows == 0 || len >= (rows - 1) * dst_stride + (if src_stride <= dst_stride {
        src_stride
    } else {
        dst_stride
    })
}

/// Copies rows into a plane whose rows may be longer or shorter. A last row that
/// is not complete is left out. A plane without rows is left as it is.
pub fn copy_plane(dst: &mut [u8], dst_stride: usize, src: &[u8], src_stride: usize)
    requires
        0 < dst_stride ==> 0 < src_stride && plane_fits(
            old(dst)@.len() as int,
            dst_stride as int,
            src_stride as int,
            src@.len() as int / src_stride as int,
        ),
    ensures
        final(dst)@ == (if dst_stride == 0 {
            old(dst)@
        } else {
            plane_after(
                old(dst)@,
                dst_stride as int,
                src@,
                src_stride as int,
                src@.len() as int / src_stride as int,
            )
        }),
{
    if dst_stride == 0 {
        return;
    }
    let rows: usize = src.len() / src_stride;
    let width: usize = if src_stride <= dst_stride {
        src_stride
    } else {
        dst_stride
    };
    let ghost before = dst@;
    let ghost d = dst_stride as int;
    let ghost n = src_stride as int;
    proof {
        vstd::arithmetic::div_mod::lemma_fundamental_div_mod(src@.len() as int, n);
        assert(n * rows == rows * n) by (nonlinear_arith);
        assert forall|i: int| 0 <= i < before.len() implies !(#[trigger] (i / d) < 0) by {
            assert(0 <= i / d) by (nonlinear_arith)
                requires
                    0 <= i,
                    0 < d,
            ;
        }
        assert(dst@ =~= plane_after(before, d, src@, n, 0));
        assert(src.len() <= usize::MAX);
        assert(dst.len() <= usize::MAX);
    }
    let mut r: usize = 0;
    while r < rows
        invariant
            r <= rows,
            0 < n,
            0 < d,
            n == src_stride,
            d == dst_stride,
            rows * n <= src@.len() <= usize::MAX,
            before.len() <= usize::MAX,
            width as int == (if n <= d {
                n
            } else {
                d
            }),
            plane_fits(before.len() as int, d, n, rows as int),
            dst@ == plane_after(before, d, src@, n, r as int),
        decreases rows - r,
    {
        proof {
            assert(r * n + n <= rows * n && 0 <= r * n) by (nonlinear_arith)
                requires
                    0 <= r < rows,
                    0 < n,
            ;
            assert(r * d <= (rows - 1) * d && 0 <= r * d) by (nonlinear_arith)
                requires
                    0 <= r < rows,
                    0 < d,
            ;
        }
        let mut c: usize = 0;
        while c < width
            invariant
                r < rows,
                c <= width,
                0 < n,
                0 < d,
                n == src_stride,
                d == dst_stride,
                width as int == (if n <= d {
                    n
                } else {
                    d
                }),
                0 <= r * n,
                0 <= r * d,
                r * n + n <= src@.len() <= usize::MAX,
                r * d + width <= before.len() <= usize::MAX,
                dst@.len() == before.len(),
                forall|i: int|
                    0 <= i < before.len() && !(r * d <= i < r * d + c) ==> #[trigger] dst@[i]
                        == plane_after(before, d, src@, n, r as int)[i],
                forall|i: int|
                    r * d <= i < r * d + c ==> #[trigger] dst@[i] == src@[r * n + (i - r * d)],
            decreases width - c,
        {
            dst[r * dst_stride + c] = src[r * src_stride + c];
            c += 1;
        }
        proof {
            assert forall|i: int| 0 <= i < before.len() implies #[trigger] dst@[i] == plane_after(
                before,
                d,
                src@,
                n,
                r + 1,
            )[i] by {
                lemma_row_of(i, r as int, d);
            }
            assert(dst@ =~= plane_after(before, d, src@, n, r + 1));
        }
        r += 1;
    }
}

/// Which row of length `d` a position lies in.
proof fn lemma_row_of(i: int, r: int, d: int)
    requires
        0 < d,
        0 <= i,
    ensures
        i / d == r <==> r * d <= i < r * d + d,
        i / d == r ==> i % d == i - r * d,
{
    vstd::arithmetic::div_mod::lemma_fundamental_div_mod(i, d);
    let q = i / d;
    let m = i % d;
    assert(d * q == q * d) by (nonlinear_arith);
    if q < r {
        assert(q * d + d <= r * d) by (nonlinear_arith)
            requires
                q < r,
                0 < d,
        ;
    } else if q > r {
        assert(r * d + d <= q * d) by (nonlinear_arith)
            requires
                q > r,
                0 < d,
        ;
    }
}

/// A plane gives back at row `r` and column `c` what stood there in the copied
/// rows, as far as both rows reach; padding behind a row stays as it was.
pub proof fn law_plane_reads_back(
    dst: Seq<u8>,
    dst_stride: int,
    src: Seq<u8>,
    src_stride: int,
    rows: int,
    r: int,
    c: int,
)
    requires
        0 <= r < rows,
        0 <= c < dst_stride,
        r * dst_stride + c < dst.len(),
    ensures
        plane_after(dst, dst_stride, src, src_stride, rows)[r * dst_stride + c] == (if c
            < src_stride {
            src[r * src_stride + c]
        } else {
            dst[r * dst_stride + c]
        }),
{
    assert(0 <= r * dst_stride) by (nonlinear_arith)
        requires
            0 <= r,
            0 < dst_stride,
    ;
    lemma_row_of(r * dst_stride + c, r, dst_stride);
}

/// The planes of a 4:4:4 image, and of a 4:2:0 image with even sides, follow one
/// another without gap from the first byte to the last, and each is made of whole
/// rows.
pub proof fn law_planes_tile(w: int, h: int, is444: bool)
    requires
        0 < w,
        0 < h,
        is444 || (w % 2 == 0 && h % 2 == 0),
    ensures
        planes_of(w, h, is444)[0].0 == 0,
        planes_of(w, h, is444)[0].1 == planes_of(w, h, is444)[1].0,
        planes_of(w, h, is444)[1].1 == planes_of(w, h, is444)[2].0,
        planes_of(w, h, is444)[2].1 == (if is444 {
            3 * (w * h)
        } else {
            w * h * 3 / 2
        }),
        planes_of(w, h, is444)[0].1 == w * h,
        forall|k: int|
            0 <= k < 3 ==> {
                let (start, end, stride) = #[trigger] planes_of(w, h, is444)[k];
                0 < stride && (end - start) % stride == 0
            },
{
    vstd::arithmetic::div_mod::lemma_mod_multiples_basic(h, w);
    assert(h * w == w * h) by (nonlinear_arith);
    if !is444 {
        let c = w / 2;
        let r = h / 2;
        assert((2 * c) * (2 * r) == 4 * (r * c)) by (nonlinear_arith);
        vstd::arithmetic::div_mod::lemma_mod_multiples_basic(r, c);
    }
}

/// Sizes of the planes: luma has `h` rows of `w` bytes; so have both chroma planes
/// in 4:4:4, while in 4:2:0 with even sides each has half as many rows, half as
/// long.
pub proof fn law_plane_sizes(w: int, h: int, is444: bool)
    requires
        0 <= w,
        0 <= h,
        is444 || (w % 2 == 0 && h % 2 == 0),
    ensures
        planes_of(w, h, is444).len() == 3,
        planes_of(w, h, is444)[0] == (0int, h * w, w),
        is444 ==> planes_of(w, h, is444)[1] == (h * w, 2 * (h * w), w),
        is444 ==> planes_of(w, h, is444)[2] == (2 * (h * w), 3 * (h * w), w),
        !is444 ==> planes_of(w, h, is444)[1] == (h * w, h * w + (h / 2) * (w / 2), w / 2),
        !is444 ==> planes_of(w, h, is444)[2] == (
            h * w + (h / 2) * (w / 2),
            h * w + 2 * ((h / 2) * (w / 2)),
            w / 2,
        ),
{
    assert(h * w == w * h) by (nonlinear_arith);
    if !is444 {
        let c = w / 2;
        let r = h / 2;
        assert((2 * c) * (2 * r) == 4 * (r * c)) by (nonlinear_arith);
    }
}

/// Copying rows into a plane keeps its length, and everything behind the last row
/// that was copied.
pub proof fn law_plane_rest_is_kept(
    dst: Seq<u8>,
    dst_stride: int,
    src: Seq<u8>,
    src_stride: int,
    rows: int,
    i: int,
)
    requires
        0 < dst_stride,
        0 <= rows,
        rows * dst_stride <= i < dst.len(),
    ensures
        plane_after(dst, dst_stride, src, src_stride, rows).len() == dst.len(),
        plane_after(dst, dst_stride, src, src_stride, rows)[i] == dst[i],
{
    assert(0 <= rows * dst_stride) by (nonlinear_arith)
        requires
            0 <= rows,
            0 < dst_stride,
    ;
    assert(i / dst_stride >= rows) by (nonlinear_arith)
        requires
            0 < dst_stride,
            rows * dst_stride <= i,
    ;
}

/// The spans of an image follow one another from the first byte on; luma has `h` rows
/// of `w` bytes, and chroma rows are as long in 4:4:4 and half as long in 4:2:0.
pub proof fn law_spans(w: i32, h: i32, is444: bool, spans: [PlaneSpan; 3])
    requires
        0 <= w,
        0 <= h,
        w % 2 == 0,
        h % 2 == 0,
        call_ensures(plane_spans, (w, h, is444), spans),
    ensures
        spans@[0].start == 0,
        spans@[0].end == h * w,
        spans@[1].start == spans@[0].end,
        spans@[2].start == spans@[1].end,
        spans@[0].stride == w,
        is444 ==> spans@[1].stride == w && spans@[2].stride == w,
        is444 ==> spans@[1].end == 2 * (h * w) && spans@[2].end == 3 * (h * w),
        !is444 ==> spans@[1].stride == w / 2 && spans@[2].stride == w / 2,
        !is444 ==> spans@[1].end == h * w + (h / 2) * (w / 2) && spans@[2].end == h * w + 2 * ((h
            / 2) * (w / 2)),
{
    law_plane_sizes(w as int, h as int, is444);
}

/// What copying does to a plane: byte `c` of each whole row of `src` lands at byte `c`
/// of that row of the plane as far as both rows reach, and padding stays. A plane
/// without rows stays as it is.
pub proof fn law_copied(dst_stride: usize, src: &[u8], src_stride: usize, r: int, c: int)
    requires
        0 < src_stride,
        0 <= c < dst_stride,
        0 <= r < src@.len() as int / src_stride as int,
    ensures
        forall|dst: &mut [u8]| #[trigger]
            call_ensures(copy_plane, (dst, dst_stride, src, src_stride), ()) && r * dst_stride + c
                < dst@.len() ==> final(dst)@.len() == dst@.len() && final(dst)@[r * dst_stride + c]
                == (if c < src_stride {
                src@[r * src_stride + c]
            } else {
                dst@[r * dst_stride + c]
            }),
        forall|dst: &mut [u8]| #[trigger]
            call_ensures(copy_plane, (dst, 0usize, src, src_stride), ()) ==> final(dst)@ == dst@,
{
    assert forall|dst: &mut [u8]| #[trigger]
        call_ensures(copy_plane, (dst, dst_stride, src, src_stride), ()) && r * dst_stride + c
            < dst@.len() implies final(dst)@.len() == dst@.len() && final(dst)@[r * dst_stride + c]
        == (if c < src_stride {
        src@[r * src_stride + c]
    } else {
        dst@[r * dst_stride + c]
    }) by {
        law_plane_reads_back(
            dst@,
            dst_stride as int,
            src@,
            src_stride as int,
            src@.len() as int / src_stride as int,
            r,
            c,
        );
    }
}

} // verus!
