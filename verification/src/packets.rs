//! Byte packets handed to the Java side, and the buffers they are made from.

use vstd::prelude::*;

verus! {

/// The number that the two's complement bits of `x`, taken as unsigned, stand
/// for.
pub open spec fn unsigned(x: int, modulus: int) -> int {
    if x < 0 {
        x + modulus
    } else {
        x
    }
}

/// The number whose two's complement bits, taken as unsigned, stand for `x`.
pub open spec fn signed(x: int, modulus: int) -> int {
    if x >= modulus / 2 {
        x - modulus
    } else {
        x
    }
}

/// The `n` low bytes of a number, lowest first.
pub open spec fn le_bytes(x: int, n: nat) -> Seq<u8>
    decreases n,
{
    if n == 0 {
        seq![]
    } else {
        seq![(x % 256) as u8] + le_bytes(x / 256, (n - 1) as nat)
    }
}

/// The number that bytes stand for, lowest first.
pub open spec fn le_value(s: Seq<u8>) -> int
    decreases s.len(),
{
    if s.len() == 0 {
        0
    } else {
        s[0] + 256 * le_value(s.drop_first())
    }
}

pub open spec fn i32_bytes(x: i32) -> Seq<u8> {
    le_bytes(unsigned(x as int, 0x1_0000_0000), 4)
}

pub open spec fn i64_bytes(x: i64) -> Seq<u8> {
    le_bytes(unsigned(x as int, 0x1_0000_0000_0000_0000), 8)
}

/// A frame on its way to the screen: width, height, time, pixels.
pub open spec fn frame_bytes(w: i32, h: i32, pts: i64, rgba: Seq<u8>) -> Seq<u8> {
    i32_bytes(w) + i32_bytes(h) + i64_bytes(pts) + rgba
}

/// A piece of encoded video: presentation time, decoding time, data.
pub open spec fn encoded_bytes(pts: i64, dts: i64, data: Seq<u8>) -> Seq<u8> {
    i64_bytes(pts) + i64_bytes(dts) + data
}

proof fn lemma_le_step(done: Seq<u8>, x: int, n: nat)
    requires
        n > 0,
    ensures
        done + le_bytes(x, n) == done.push((x % 256) as u8) + le_bytes(x / 256, (n - 1) as nat),
{
    assert(done + le_bytes(x, n) =~= done.push((x % 256) as u8) + le_bytes(
        x / 256,
        (n - 1) as nat,
    ));
}

fn push_le(out: &mut Vec<u8>, x: u64, n: usize)
    ensures
        final(out)@ == old(out)@ + le_bytes(x as int, n as nat),
{
    let ghost before = out@;
    let mut rest: u64 = x;
    let mut i: usize = 0;
    while i < n
        invariant
            i <= n,
            before + le_bytes(x as int, n as nat) == out@ + le_bytes(rest as int, (n - i) as nat),
        decreases n - i,
    {
        proof {
            lemma_le_step(out@, rest as int, (n - i) as nat);
        }
        out.push((rest % 256) as u8);
        rest = rest / 256;
        i += 1;
    }
    assert(out@ + le_bytes(rest as int, 0) =~= out@);
}

fn push_i32(out: &mut Vec<u8>, x: i32)
    ensures
        final(out)@ == old(out)@ + i32_bytes(x),
{
    assert(#[verifier::truncate] (x as u32) as int == (if x < 0 {
        x + 0x1_0000_0000
    } else {
        x as int
    })) by (bit_vector);
    #[verifier::truncate]
    let bits: u32 = x as u32;
    push_le(out, bits as u64, 4);
}

fn push_i64(out: &mut Vec<u8>, x: i64)
    ensures
        final(out)@ == old(out)@ + i64_bytes(x),
{
    assert(#[verifier::truncate] (x as u64) as int == (if x < 0 {
        x + 0x1_0000_0000_0000_0000
    } else {
        x as int
    })) by (bit_vector);
    #[verifier::truncate]
    let bits: u64 = x as u64;
    push_le(out, bits, 8);
}

/// Packs a frame for the screen.
pub fn frame_packet(w: i32, h: i32, pts: i64, rgba: &[u8]) -> (out: Vec<u8>)
    ensures
        out@ == frame_bytes(w, h, pts, rgba@),
{
    let mut out: Vec<u8> = Vec::new();
    push_i32(&mut out, w);
    push_i32(&mut out, h);
    push_i64(&mut out, pts);
    out.extend_from_slice(rgba);
    assert(out@ =~= frame_bytes(w, h, pts, rgba@));
    out
}

/// Packs what the encoder left in `out`: nothing where it wrote nothing.
pub fn encoded_packet(n: i32, data: &[u8], pts: i64, dts: i64) -> (out: Vec<u8>)
    requires
        n <= data@.len(),
    ensures
        n <= 0 ==> out@.len() == 0,
        n > 0 ==> out@ == encoded_bytes(pts, dts, data@.take(n as int)),
{
    let mut out: Vec<u8> = Vec::new();
    if n <= 0 {
        return out;
    }
    push_i64(&mut out, pts);
    push_i64(&mut out, dts);
    let ghost head = out@;
    let mut i: usize = 0;
    while i < n as usize
        invariant
            0 < n <= data@.len(),
            i <= n,
            out@ == head + data@.take(i as int),
        decreases n - i,
    {
        out.push(data[i]);
        assert(data@.take(i + 1) =~= data@.take(i as int).push(data@[i as int]));
        i += 1;
    }
    assert(out@ =~= encoded_bytes(pts, dts, data@.take(n as int)));
    out
}

/// Room for one encoded frame, in bytes: eight thirds of the raw frame and a
/// reserve; a mebibyte where the encoder is only flushed.
pub fn encode_capacity(frame_len: Option<usize>) -> (cap: usize)
    requires
        frame_len is Some ==> 8 * frame_len->0 <= usize::MAX,
    ensures
        cap as int == (match frame_len {
            Some(n) => 8 * n / 3 + 65536,
            None => 1048576,
        }),
{
    match frame_len {
        Some(n) => n * 8 / 3 + 65536,
        None => 1048576,
    }
}

/// Cuts a buffer down to the stream headers that the encoder wrote into it;
/// nothing where it failed or wrote nothing.
pub fn header_packet(rc: i32, len: i32, buf: Vec<u8>) -> (out: Vec<u8>)
    ensures
        rc != 0 || len <= 0 ==> out@.len() == 0,
        rc == 0 && len > 0 ==> out@ == (if len <= buf@.len() {
            buf@.take(len as int)
        } else {
            buf@
        }),
{
    let mut out: Vec<u8> = buf;
    if rc != 0 || len <= 0 {
        out.clear();
        return out;
    }
    out.truncate(len as usize);
    out
}

/// A Java boolean as a C flag.
pub fn c_flag(b: u8) -> (f: i32)
    ensures
        f == (if b != 0 {
            1i32
        } else {
            0i32
        }),
{
    if b != 0 {
        1
    } else {
        0
    }
}

spec fn pow256(n: nat) -> int
    decreases n,
{
    if n == 0 {
        1
    } else {
        256 * pow256((n - 1) as nat)
    }
}

proof fn lemma_le_reads_back(x: int, n: nat)
    requires
        0 <= x < pow256(n),
    ensures
        le_bytes(x, n).len() == n,
        le_value(le_bytes(x, n)) == x,
    decreases n,
{
    if n > 0 {
        lemma_le_reads_back(x / 256, (n - 1) as nat);
        assert(le_bytes(x, n).drop_first() =~= le_bytes(x / 256, (n - 1) as nat));
    }
}

proof fn lemma_i32_reads_back(x: i32)
    ensures
        i32_bytes(x).len() == 4,
        signed(le_value(i32_bytes(x)), 0x1_0000_0000) == x,
{
    reveal_with_fuel(pow256, 5);
    lemma_le_reads_back(unsigned(x as int, 0x1_0000_0000), 4);
}

proof fn lemma_i64_reads_back(x: i64)
    ensures
        i64_bytes(x).len() == 8,
        signed(le_value(i64_bytes(x)), 0x1_0000_0000_0000_0000) == x,
{
    reveal_with_fuel(pow256, 9);
    lemma_le_reads_back(unsigned(x as int, 0x1_0000_0000_0000_0000), 8);
}

/// A frame packet reads back: sixteen bytes of header with width, height and
/// time, then the pixels as they were.
pub proof fn law_frame_packet_reads_back(w: i32, h: i32, pts: i64, rgba: Seq<u8>)
    ensures
        frame_bytes(w, h, pts, rgba).len() == 16 + rgba.len(),
        signed(le_value(frame_bytes(w, h, pts, rgba).subrange(0, 4)), 0x1_0000_0000) == w,
        signed(le_value(frame_bytes(w, h, pts, rgba).subrange(4, 8)), 0x1_0000_0000) == h,
        signed(
            le_value(frame_bytes(w, h, pts, rgba).subrange(8, 16)),
            0x1_0000_0000_0000_0000,
        ) == pts,
        frame_bytes(w, h, pts, rgba).skip(16) == rgba,
{
    lemma_i32_reads_back(w);
    lemma_i32_reads_back(h);
    lemma_i64_reads_back(pts);
    let s = frame_bytes(w, h, pts, rgba);
    assert(s.subrange(0, 4) =~= i32_bytes(w));
    assert(s.subrange(4, 8) =~= i32_bytes(h));
    assert(s.subrange(8, 16) =~= i64_bytes(pts));
    assert(s.skip(16) =~= rgba);
}

/// A packet of encoded video reads back: sixteen bytes of header with both times,
/// then the data. An empty packet stands for no output and nothing else.
pub proof fn law_encoded_packet_reads_back(pts: i64, dts: i64, data: Seq<u8>)
    ensures
        encoded_bytes(pts, dts, data).len() == 16 + data.len(),
        signed(
            le_value(encoded_bytes(pts, dts, data).subrange(0, 8)),
            0x1_0000_0000_0000_0000,
        ) == pts,
        signed(
            le_value(encoded_bytes(pts, dts, data).subrange(8, 16)),
            0x1_0000_0000_0000_0000,
        ) == dts,
        encoded_bytes(pts, dts, data).skip(16) == data,
{
    lemma_i64_reads_back(pts);
    lemma_i64_reads_back(dts);
    let s = encoded_bytes(pts, dts, data);
    assert(s.subrange(0, 8) =~= i64_bytes(pts));
    assert(s.subrange(8, 16) =~= i64_bytes(dts));
    assert(s.skip(16) =~= data);
}

proof fn lemma_four_bytes(x: int)
    requires
        0 <= x < 0x1_0000_0000,
    ensures
        ({
            let s = le_bytes(x, 4);
            s.len() == 4 && x == s[0] + 0x100 * s[1] + 0x1_0000 * s[2] + 0x100_0000 * s[3]
        }),
{
    reveal_with_fuel(le_bytes, 5);
    let s = le_bytes(x, 4);
    assert(s[0] == x % 256);
    assert(s[1] == x / 256 % 256);
    assert(s[2] == x / 256 / 256 % 256);
    assert(s[3] == x / 256 / 256 / 256 % 256);
}

proof fn lemma_eight_bytes(x: int)
    requires
        0 <= x < 0x1_0000_0000_0000_0000,
    ensures
        ({
            let s = le_bytes(x, 8);
            s.len() == 8 && x == s[0] + 0x100 * s[1] + 0x1_0000 * s[2] + 0x100_0000 * s[3]
                + 0x1_0000_0000 * s[4] + 0x100_0000_0000 * s[5] + 0x1_0000_0000_0000 * s[6]
                + 0x100_0000_0000_0000 * s[7]
        }),
{
    reveal_with_fuel(le_bytes, 9);
    let s = le_bytes(x, 8);
    assert(s[0] == x % 256);
    assert(s[1] == x / 256 % 256);
    assert(s[2] == x / 256 / 256 % 256);
    assert(s[3] == x / 256 / 256 / 256 % 256);
    assert(s[4] == x / 256 / 256 / 256 / 256 % 256);
    assert(s[5] == x / 256 / 256 / 256 / 256 / 256 % 256);
    assert(s[6] == x / 256 / 256 / 256 / 256 / 256 / 256 % 256);
    assert(s[7] == x / 256 / 256 / 256 / 256 / 256 / 256 / 256 % 256);
}

/// Byte by byte, lowest first: a frame packet has the width in bytes 0 to 3, the
/// height in 4 to 7, the time in 8 to 15, and the pixels behind. A negative number
/// stands as its distance to the next power.
pub proof fn law_frame_packet_layout(w: i32, h: i32, pts: i64, rgba: Seq<u8>)
    ensures
        ({
            let s = frame_bytes(w, h, pts, rgba);
            &&& s.len() == 16 + rgba.len()
            &&& s[0] + 0x100 * s[1] + 0x1_0000 * s[2] + 0x100_0000 * s[3] == (if w < 0 {
                w + 0x1_0000_0000
            } else {
                w as int
            })
            &&& s[4] + 0x100 * s[5] + 0x1_0000 * s[6] + 0x100_0000 * s[7] == (if h < 0 {
                h + 0x1_0000_0000
            } else {
                h as int
            })
            &&& s[8] + 0x100 * s[9] + 0x1_0000 * s[10] + 0x100_0000 * s[11] + 0x1_0000_0000 * s[12]
                + 0x100_0000_0000 * s[13] + 0x1_0000_0000_0000 * s[14] + 0x100_0000_0000_0000
                * s[15] == (if pts < 0 {
                pts + 0x1_0000_0000_0000_0000
            } else {
                pts as int
            })
            &&& forall|i: int| 0 <= i < rgba.len() ==> s[16 + i] == #[trigger] rgba[i]
        }),
{
    lemma_four_bytes(unsigned(w as int, 0x1_0000_0000));
    lemma_four_bytes(unsigned(h as int, 0x1_0000_0000));
    lemma_eight_bytes(unsigned(pts as int, 0x1_0000_0000_0000_0000));
}

/// Byte by byte, lowest first: a packet of encoded video has the presentation time
/// in bytes 0 to 7, the decoding time in 8 to 15, and the data behind. A negative
/// number stands as its distance to the next power.
pub proof fn law_encoded_packet_layout(pts: i64, dts: i64, data: Seq<u8>)
    ensures
        ({
            let s = encoded_bytes(pts, dts, data);
            &&& s.len() == 16 + data.len()
            &&& s[0] + 0x100 * s[1] + 0x1_0000 * s[2] + 0x100_0000 * s[3] + 0x1_0000_0000 * s[4]
                + 0x100_0000_0000 * s[5] + 0x1_0000_0000_0000 * s[6] + 0x100_0000_0000_0000
                * s[7] == (if pts < 0 {
                pts + 0x1_0000_0000_0000_0000
            } else {
                pts as int
            })
            &&& s[8] + 0x100 * s[9] + 0x1_0000 * s[10] + 0x100_0000 * s[11] + 0x1_0000_0000 * s[12]
                + 0x100_0000_0000 * s[13] + 0x1_0000_0000_0000 * s[14] + 0x100_0000_0000_0000
                * s[15] == (if dts < 0 {
                dts + 0x1_0000_0000_0000_0000
            } else {
                dts as int
            })
            &&& forall|i: int| 0 <= i < data.len() ==> s[16 + i] == #[trigger] data[i]
        }),
{
    lemma_eight_bytes(unsigned(pts as int, 0x1_0000_0000_0000_0000));
    lemma_eight_bytes(unsigned(dts as int, 0x1_0000_0000_0000_0000));
}

/// What packing functions return, byte by byte: a frame packet has sides, time and
/// pixels in their places; an encoder that wrote `n` bytes has both times and these
/// bytes in its packet; one that wrote nothing has an empty packet.
pub proof fn law_packed(
    w: i32,
    h: i32,
    n: i32,
    pts: i64,
    dts: i64,
    data: &[u8],
    frame: Vec<u8>,
    encoded: Vec<u8>,
)
    requires
        n <= data@.len(),
        call_ensures(frame_packet, (w, h, pts, data), frame),
        call_ensures(encoded_packet, (n, data, pts, dts), encoded),
    ensures
        frame@ == frame_bytes(w, h, pts, data@),
        n <= 0 <==> encoded@.len() == 0,
        n > 0 ==> encoded@ == encoded_bytes(pts, dts, data@.take(n as int)),
{
    if n > 0 {
        law_encoded_packet_layout(pts, dts, data@.take(n as int));
    }
}

/// There is room for eight thirds of a raw frame and 65536 bytes more; a flush gets
/// a mebibyte.
pub proof fn law_capacity(n: usize, cap: usize, flush_cap: usize)
    requires
        call_ensures(encode_capacity, (Some(n),), cap),
        call_ensures(encode_capacity, (None,), flush_cap),
    ensures
        3 * (cap - 65536) <= 8 * n < 3 * (cap - 65536) + 3,
        flush_cap == 1024 * 1024,
{
}

/// Stream headers are the first `len` bytes of the buffer, or none where the encoder
/// failed or wrote none.
pub proof fn law_headers(rc: i32, len: i32, buf: Vec<u8>, out: Vec<u8>)
    requires
        call_ensures(header_packet, (rc, len, buf), out),
    ensures
        rc == 0 && 0 <= len <= buf@.len() ==> out@.len() == len,
        rc == 0 && len > buf@.len() ==> out@.len() == buf@.len(),
        rc != 0 || len <= 0 ==> out@.len() == 0,
        forall|i: int| 0 <= i < out@.len() ==> #[trigger] out@[i] == buf@[i],
{
}

/// A flag is one for every byte but zero.
pub proof fn law_flag(b: u8, f: i32)
    requires
        call_ensures(c_flag, (b,), f),
    ensures
        b == 0 ==> f == 0,
        b != 0 ==> f == 1,
{
}

} // verus!
