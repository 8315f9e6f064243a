//! The negotiated stream format and the per-callback working buffer.

use vstd::prelude::*;
use vstd::pervasive::VecAdditionalExecFns;

use crate::system::AudioError;

verus! {

/// Immutable description of the negotiated output format, fixed for the
/// lifetime of one stream session.
#[derive(Clone, Copy, PartialEq, Eq, Structural, Debug)]
pub struct StreamInfo {
    /// Samples per second, in hertz.
    pub sample_rate: u32,
    /// Interleaved output channels per frame.
    pub channels: usize,
}

impl StreamInfo {
    /// A format is valid when both the rate and the channel count are positive.
    pub open spec fn valid(self) -> bool {
        self.sample_rate >= 1 && self.channels >= 1
    }

    /// Build a format description from negotiated plain values; a zero rate
    /// or channel count is a failed negotiation.
    pub fn new(sample_rate: u32, channels: usize) -> (r: Result<StreamInfo, AudioError>)
        ensures
            r is Ok <==> (sample_rate >= 1 && channels >= 1),
            r matches Ok(info) ==> info.sample_rate == sample_rate && info.channels == channels
                && info.valid(),
            r matches Err(e) ==> e == AudioError::ConfigNegotiation,
    {
        if sample_rate >= 1 && channels >= 1 {
            Ok(StreamInfo { sample_rate, channels })
        } else {
            Err(AudioError::ConfigNegotiation)
        }
    }
}

/// One hardware-requested chunk of fixed-point samples, together with the
/// session's format. The sample storage is a scratch region that the
/// orchestration layer reuses across callbacks.
pub struct StreamBuffer {
    /// The format of the session this buffer belongs to.
    pub info: StreamInfo,
    /// Interleaved samples, `frames * channels` of them.
    pub data: Vec<i32>,
}

/// The frame grouping of an interleaved buffer: frame `i` is the run of
/// `channels` consecutive samples starting at `i * channels`.
pub open spec fn frames_of(data: Seq<i32>, channels: nat) -> Seq<Seq<i32>>
    recommends
        channels >= 1,
{
    Seq::new(
        data.len() / channels,
        |i: int| data.subrange(i * channels, i * channels + channels),
    )
}

/// Frame iteration over a buffer of length `L` with `C` channels, `C`
/// dividing `L`, yields exactly `L / C` frames, each holding the `C`
/// consecutive samples of that frame.
pub proof fn lemma_frames_shape(data: Seq<i32>, channels: nat)
    requires
        channels >= 1,
        data.len() % channels == 0,
    ensures
        frames_of(data, channels).len() == data.len() / channels,
        forall|i: int|
            0 <= i < data.len() / channels ==> #[trigger] frames_of(data, channels)[i].len()
                == channels,
        forall|i: int, j: int|
            0 <= i < data.len() / channels && 0 <= j < channels ==> frames_of(data, channels)[i][j]
                == data[#[trigger] (i * channels + j)],
        forall|i: int|
            0 <= i < data.len() / channels ==> #[trigger] (i * channels) + channels <= data.len(),
{
    let n = data.len() as int;
    let c = channels as int;
    let m = n / c;
    assert(n == c * m) by {
        vstd::arithmetic::div_mod::lemma_fundamental_div_mod(n, c);
    }
    assert forall|i: int| 0 <= i < m implies #[trigger] (i * c) + c <= n by {
        vstd::arithmetic::mul::lemma_mul_inequality(i + 1, m, c);
        assert((i + 1) * c == i * c + c) by (nonlinear_arith);
        assert(m * c == c * m) by (nonlinear_arith);
    }
    assert forall|i: int, j: int|
        0 <= i < m && 0 <= j < c implies frames_of(data, channels)[i][j] == data[i * c + j] by {
        assert(i * c >= 0) by (nonlinear_arith)
            requires
                i >= 0,
                c >= 0,
        ;
        assert(frames_of(data, channels)[i] == data.subrange(i * c, i * c + c));
    }
}

impl StreamBuffer {
    /// A buffer is valid when its session format is.
    pub open spec fn valid(self) -> bool {
        self.info.valid()
    }

    /// Group the buffer into frames, one run of `channels` samples each.
    /// The orchestration layer guarantees the length is an exact number of
    /// frames before iteration is ever requested.
    pub fn into_frames(&self) -> (frames: Vec<Vec<i32>>)
        requires
            self.info.channels >= 1,
            self.data@.len() % (self.info.channels as nat) == 0,
        ensures
            frames@.map_values(|f: Vec<i32>| f@) == frames_of(
                self.data@,
                self.info.channels as nat,
            ),
            frames@.len() == self.data@.len() / (self.info.channels as nat),
            forall|i: int|
                0 <= i < frames@.len() ==> #[trigger] frames@[i]@.len() == self.info.channels,
            forall|i: int, j: int|
                0 <= i < frames@.len() && 0 <= j < self.info.channels ==> frames@[i]@[j]
                    == self.data@[#[trigger] (i * self.info.channels + j)],
    {
        proof {
            lemma_frames_shape(self.data@, self.info.channels as nat);
        }
        let c = self.info.channels;
        let n = self.data.len();
        let count = n / c;
        let ghost target = frames_of(self.data@, self.info.channels as nat);
        let mut frames: Vec<Vec<i32>> = Vec::new();
        let mut i: usize = 0;
        while i < count
            invariant
                c == self.info.channels,
                n == self.data@.len(),
                count == self.data@.len() / (c as nat),
                c >= 1,
                self.data@.len() % (c as nat) == 0,
                target == frames_of(self.data@, c as nat),
                i <= count,
                frames@.len() == i,
                forall|k: int| 0 <= k < i ==> #[trigger] frames@[k]@ == target[k],
            decreases count - i,
        {
            proof {
                let ci = c as nat;
                lemma_frames_shape(self.data@, ci);
                assert((i as int) * (ci as int) + ci <= self.data@.len());
                assert((i as int) * (ci as int) == (i as int) * (c as int));
                assert((i as int) * (c as int) + (c as int) <= n as int);
            }
            let base = i * c;
            let mut frame: Vec<i32> = Vec::new();
            let mut j: usize = 0;
            while j < c
                invariant
                    c >= 1,
                    i < count,
                    base == i * c,
                    n == self.data@.len(),
                    base + c <= n,
                    j <= c,
                    frame@.len() == j,
                    forall|l: int| 0 <= l < j ==> #[trigger] frame@[l] == self.data@[base + l],
                decreases c - j,
            {
                frame.push(self.data[base + j]);
                j = j + 1;
            }
            proof {
                lemma_frames_shape(self.data@, c as nat);
                assert(frame@ =~= target[i as int]);
            }
            frames.push(frame);
            i = i + 1;
        }
        proof {
            assert(frames@.map_values(|f: Vec<i32>| f@) =~= target);
        }
        frames
    }

    /// Make the scratch region exactly `len` samples of silence, reusing the
    /// allocation where the hardware-requested size has not changed.
    pub fn resize_and_zero(&mut self, len: usize)
        ensures
            final(self).info == old(self).info,
            final(self).data@.len() == len,
            forall|k: int| 0 <= k < len ==> final(self).data@[k] == 0i32,
    {
        if self.data.len() != len {
            self.data.resize(len, 0i32);
        }
        let mut k: usize = 0;
        while k < len
            invariant
                self.info == old(self).info,
                self.data@.len() == len,
                k <= len,
                forall|l: int| 0 <= l < k ==> #[trigger] self.data@[l] == 0i32,
            decreases len - k,
        {
            self.data.set(k, 0i32);
            k = k + 1;
        }
    }

    /// Write the mixed value of one output slot.
    pub fn set_sample(&mut self, i: usize, v: i32)
        requires
            i < old(self).data@.len(),
        ensures
            final(self).info == old(self).info,
            final(self).data@ == old(self).data@.update(i as int, v),
    {
        self.data.set(i, v);
    }
}

} // verus!
