//! Raw sample buffers for one video frame or one audio batch, and the
//! byte-exact operations that move them into backend frame buffers.

use vstd::prelude::*;
use vstd::pervasive::VecAdditionalExecFns;

verus! {

/// One raw video frame: a pixel buffer whose rows are `pitch` bytes apart,
/// which may differ from the stride of the buffer it is copied into.
#[derive(Debug, Clone)]
pub struct VideoPlane {
    pub data: Vec<u8>,
    pub width: usize,
    pub height: usize,
    pub pitch: usize,
}

impl VideoPlane {
    /// Every row the copy reads lies inside the buffer.
    pub open spec fn wf(self) -> bool {
        self.height * self.pitch <= self.data@.len()
    }
}

/// One batch of interleaved stereo samples, stored as ordered pairs.
#[derive(Debug, Clone)]
pub struct AudioPlane {
    pub data: Vec<(i16, i16)>,
}

/// The pairs `(s[0], s[1]), (s[2], s[3]), ...`; a trailing odd sample is
/// dropped.
pub open spec fn deinterleaved(samples: Seq<i16>) -> Seq<(i16, i16)> {
    Seq::new((samples.len() / 2) as nat, |i: int| (samples[2 * i], samples[2 * i + 1]))
}

/// The interleaved samples `p[0].0, p[0].1, p[1].0, p[1].1, ...`.
pub open spec fn interleaved(pairs: Seq<(i16, i16)>) -> Seq<i16> {
    Seq::new((2 * pairs.len()) as nat, |i: int| {
        if i % 2 == 0 {
            pairs[i / 2].0
        } else {
            pairs[i / 2].1
        }
    })
}

/// Splits an interleaved stereo buffer into ordered sample pairs.
pub fn deinterleave_pairs(stereo_pcm: &[i16]) -> (pairs: Vec<(i16, i16)>)
    ensures
        pairs@ == deinterleaved(stereo_pcm@),
{
    let total: usize = stereo_pcm.len();
    let n: usize = total / 2;
    let mut pairs: Vec<(i16, i16)> = Vec::new();
    let mut i: usize = 0;
    while i < n
        invariant
            i <= n,
            total == stereo_pcm@.len(),
            n == total / 2,
            pairs@ =~= deinterleaved(stereo_pcm@).take(i as int),
        decreases n - i,
    {
        let left: i16 = stereo_pcm[2 * i];
        let right: i16 = stereo_pcm[2 * i + 1];
        pairs.push((left, right));
        i = i + 1;
    }
    assert(pairs@ =~= deinterleaved(stereo_pcm@));
    pairs
}

/// Flattens sample pairs back into one interleaved buffer, the layout a
/// packed stereo frame expects.
pub fn interleave_pairs(pairs: &Vec<(i16, i16)>) -> (samples: Vec<i16>)
    requires
        pairs@.len() * 2 <= usize::MAX,
    ensures
        samples@ == interleaved(pairs@),
{
    let mut samples: Vec<i16> = Vec::new();
    let mut i: usize = 0;
    while i < pairs.len()
        invariant
            i <= pairs@.len(),
            pairs@.len() * 2 <= usize::MAX,
            samples@ =~= interleaved(pairs@).take(2 * i as int),
        decreases pairs@.len() - i,
    {
        let pair: (i16, i16) = pairs[i];
        samples.push(pair.0);
        samples.push(pair.1);
        i = i + 1;
    }
    assert(samples@ =~= interleaved(pairs@));
    samples
}

/// The smaller of two lengths: a row copy never reads or writes past
/// either the source pitch or the destination stride.
pub open spec fn spec_min(a: int, b: int) -> int {
    if a <= b {
        a
    } else {
        b
    }
}

/// Two distinct (row, column) positions of a grid with `stride` columns
/// land on distinct buffer indices.
proof fn lemma_grid_disjoint(stride: int, r1: int, c1: int, r2: int, c2: int)
    requires
        0 <= r1,
        0 <= r2,
        0 <= c1 < stride,
        0 <= c2 < stride,
        r1 != r2 || c1 != c2,
    ensures
        r1 * stride + c1 != r2 * stride + c2,
{
    assert(r1 * stride + c1 != r2 * stride + c2) by (nonlinear_arith)
        requires
            0 <= r1,
            0 <= r2,
            0 <= c1 < stride,
            0 <= c2 < stride,
            r1 != r2 || c1 != c2,
    ;
}

/// A position inside the first `height` rows lies below `height * stride`.
proof fn lemma_grid_in_range(stride: int, height: int, r: int, c: int)
    requires
        0 <= r < height,
        0 <= c < stride,
    ensures
        0 <= r * stride + c < height * stride,
{
    assert(0 <= r * stride + c < height * stride) by (nonlinear_arith)
        requires
            0 <= r < height,
            0 <= c < stride,
    ;
}

/// Copies a video plane into a destination buffer of stride `dst_stride`,
/// row by row, moving exactly `min(pitch, dst_stride)` bytes per row; bytes
/// of the destination outside those row segments keep their old value.
///
/// When the source and destination have identical layout the whole
/// buffer is copied in one pass instead.
pub fn copy_plane_rows(src: &VideoPlane, dst: &mut Vec<u8>, dst_stride: usize)
    requires
        src.wf(),
        src.height * dst_stride <= old(dst)@.len(),
    ensures
        final(dst)@.len() == old(dst)@.len(),
        ({
            let rowlen = spec_min(src.pitch as int, dst_stride as int);
            if src.pitch == dst_stride && src.data@.len() == old(dst)@.len() {
                final(dst)@ == src.data@
            } else {
                &&& forall|y: int, x: int|
                    0 <= y < src.height && 0 <= x < rowlen
                        ==> final(dst)@[#[trigger] (y * dst_stride + x)] == src.data@[y * src.pitch
                        + x]
                &&& forall|y: int, x: int|
                    0 <= y < src.height && rowlen <= x < dst_stride
                        ==> final(dst)@[#[trigger] (y * dst_stride + x)] == old(dst)@[y * dst_stride
                        + x]
                &&& forall|k: int|
                    src.height * dst_stride <= k < old(dst)@.len()
                        ==> final(dst)@[k] == old(dst)@[k]
            }
        }),
{
    if src.pitch == dst_stride && src.data.len() == dst.len() {
        let copy: Vec<u8> = vstd::slice::slice_to_vec(src.data.as_slice());
        *dst = copy;
        return ;
    }
    let rowlen: usize = if src.pitch <= dst_stride {
        src.pitch
    } else {
        dst_stride
    };
    let src_total: usize = src.data.len();
    let dst_total: usize = dst.len();
    let ghost dst0: Seq<u8> = dst@;
    let mut y: usize = 0;
    while y < src.height
        invariant
            y <= src.height,
            src.wf(),
            src.height * dst_stride <= dst0.len(),
            rowlen == spec_min(src.pitch as int, dst_stride as int),
            src.data@.len() == src_total,
            dst0.len() == dst_total,
            dst@.len() == dst0.len(),
            forall|r: int, c: int|
                0 <= r < y && 0 <= c < rowlen
                    ==> dst@[#[trigger] (r * dst_stride + c)] == src.data@[r * src.pitch + c],
            forall|r: int, c: int|
                0 <= r < src.height && rowlen <= c < dst_stride
                    ==> dst@[#[trigger] (r * dst_stride + c)] == dst0[r * dst_stride + c],
            forall|r: int, c: int|
                y <= r < src.height && 0 <= c < rowlen
                    ==> dst@[#[trigger] (r * dst_stride + c)] == dst0[r * dst_stride + c],
            forall|k: int|
                src.height * dst_stride <= k < dst0.len() ==> dst@[k] == dst0[k],
        decreases src.height - y,
    {
        let mut x: usize = 0;
        while x < rowlen
            invariant
                x <= rowlen,
                y < src.height,
                src.wf(),
                src.height * dst_stride <= dst0.len(),
                rowlen == spec_min(src.pitch as int, dst_stride as int),
                src.data@.len() == src_total,
                dst0.len() == dst_total,
                dst@.len() == dst0.len(),
                forall|r: int, c: int|
                    0 <= r < y && 0 <= c < rowlen
                        ==> dst@[#[trigger] (r * dst_stride + c)] == src.data@[r * src.pitch + c],
                forall|c: int|
                    0 <= c < x ==> dst@[#[trigger] (y * dst_stride + c)] == src.data@[y * src.pitch
                    + c],
                forall|c: int|
                    x <= c < rowlen ==> dst@[#[trigger] (y * dst_stride + c)] == dst0[y * dst_stride
                    + c],
                forall|r: int, c: int|
                    0 <= r < src.height && rowlen <= c < dst_stride
                        ==> dst@[#[trigger] (r * dst_stride + c)] == dst0[r * dst_stride + c],
                forall|r: int, c: int|
                    y < r < src.height && 0 <= c < rowlen
                        ==> dst@[#[trigger] (r * dst_stride + c)] == dst0[r * dst_stride + c],
                forall|k: int|
                    src.height * dst_stride <= k < dst0.len() ==> dst@[k] == dst0[k],
            decreases rowlen - x,
        {
            proof {
                lemma_grid_in_range(dst_stride as int, src.height as int, y as int, x as int);
                lemma_grid_in_range(src.pitch as int, src.height as int, y as int, x as int);
            }
            let b: u8 = src.data[y * src.pitch + x];
            let idx: usize = y * dst_stride + x;
            let ghost before: Seq<u8> = dst@;
            dst.set(idx, b);
            proof {
                assert(dst@ == before.update(idx as int, b));
                assert forall|r: int, c: int|
                    0 <= c < dst_stride && 0 <= r < src.height && (r != y || c != x) implies dst@[
                    #[trigger] (r * dst_stride + c)] == before[r * dst_stride + c] by {
                    lemma_grid_disjoint(dst_stride as int, r, c, y as int, x as int);
                    lemma_grid_in_range(dst_stride as int, src.height as int, r, c);
                    assert(r * dst_stride + c != idx);
                }
                assert(dst@[y * dst_stride + x] == b);
                assert forall|k: int|
                    src.height * dst_stride <= k < dst0.len() implies dst@[k] == before[k] by {
                    assert(idx < src.height * dst_stride);
                }
            }
            x = x + 1;
        }
        y = y + 1;
    }
}

} // verus!
