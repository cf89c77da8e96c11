use vstd::prelude::*;
use vstd::arithmetic::div_mod::{
    lemma_fundamental_div_mod, lemma_fundamental_div_mod_converse, lemma_mod_pos_bound,
};
use vstd::arithmetic::mul::lemma_mul_is_distributive_add_other_way;

verus! {

/// Where the `n`-th interleaved sample (counted from 0) of a stream with
/// `width` channels lies: its frame and its channel within the frame.
pub open spec fn sample_position(width: nat, n: nat) -> (nat, nat)
    recommends
        width > 0,
{
    (n / width, n % width)
}

/// The position that follows `(frame, slot)` in a stream with `width` channels.
pub open spec fn next_position(width: nat, frame: nat, slot: nat) -> (nat, nat) {
    if slot + 1 < width {
        (frame, slot + 1)
    } else {
        (frame + 1, 0)
    }
}

/// Walks an interleaved sample stream one sample at a time and tells, for
/// each sample, the frame it belongs to and its channel within the frame.
///
/// All samples of one frame share one frame index, so that every channel of
/// a frame is modulated by the same carrier value.
pub struct FrameCursor {
    channels: usize,
    frame: u64,
    channel: usize,
}

impl FrameCursor {
    #[verifier::type_invariant]
    spec fn well_formed(self) -> bool {
        &&& self.channels > 0
        &&& self.channel < self.channels
    }

    /// Number of channels per frame.
    pub closed spec fn width(self) -> nat {
        self.channels as nat
    }

    /// Index of the frame of the next sample.
    pub closed spec fn frame(self) -> nat {
        self.frame as nat
    }

    /// Channel of the next sample within its frame.
    pub closed spec fn slot(self) -> nat {
        self.channel as nat
    }

    /// A cursor before the first sample of a stream with `channels` channels.
    pub fn new(channels: usize) -> (c: FrameCursor)
        requires
            channels > 0,
        ensures
            c.width() == channels,
            c.frame() == 0,
            c.slot() == 0,
    {
        FrameCursor { channels, frame: 0, channel: 0 }
    }

    /// Number of channels per frame.
    pub fn channels(&self) -> (r: usize)
        ensures
            r == self.width(),
            r > 0,
    {
        proof {
            use_type_invariant(self);
        }
        self.channels
    }

    /// Index of the frame that the next sample belongs to.
    pub fn frame_index(&self) -> (r: u64)
        ensures
            r == self.frame(),
    {
        self.frame
    }

    /// Channel of the next sample within its frame.
    pub fn channel(&self) -> (r: usize)
        ensures
            r == self.slot(),
            r < self.width(),
    {
        proof {
            use_type_invariant(self);
        }
        self.channel
    }

    /// Whether the next sample is the first one of its frame.
    pub fn starts_frame(&self) -> (r: bool)
        ensures
            r == (self.slot() == 0),
    {
        self.channel == 0
    }

    /// Whether the cursor can move past the next sample without its frame
    /// index leaving the range of `u64`.
    pub fn can_advance(&self) -> (r: bool)
        ensures
            r == (self.slot() + 1 < self.width() || self.frame() < u64::MAX),
    {
        proof {
            use_type_invariant(self);
        }
        self.channel + 1 < self.channels || self.frame < u64::MAX
    }

    /// Moves past the next sample: to the next channel of the same frame, or
    /// to the first channel of the next frame after the last channel.
    pub fn advance(&mut self)
        requires
            old(self).slot() + 1 < old(self).width() || old(self).frame() < u64::MAX,
        ensures
            final(self).width() == old(self).width(),
            (final(self).frame(), final(self).slot()) == next_position(
                old(self).width(),
                old(self).frame(),
                old(self).slot(),
            ),
    {
        proof {
            use_type_invariant(&*self);
        }
        if self.channel + 1 < self.channels {
            self.channel = self.channel + 1;
        } else {
            self.frame = self.frame + 1;
            self.channel = 0;
        }
    }
}

/// Moving one sample on from the position of sample `n` gives the position
/// of sample `n + 1`: a cursor that started at sample 0 and advanced `n`
/// times stands at frame `n / width`, channel `n % width`.
pub proof fn lemma_advance_counts_samples(width: nat, n: nat)
    requires
        width > 0,
    ensures
        next_position(width, sample_position(width, n).0, sample_position(width, n).1)
            == sample_position(width, n + 1),
{
    let w = width as int;
    let q = (n as int) / w;
    let r = (n as int) % w;
    lemma_fundamental_div_mod(n as int, w);
    lemma_mod_pos_bound(n as int, w);
    assert(n as int == q * w + r) by (nonlinear_arith)
        requires
            n as int == w * q + r,
    ;
    if r + 1 < w {
        lemma_fundamental_div_mod_converse(n as int + 1, w, q, r + 1);
    } else {
        lemma_mul_is_distributive_add_other_way(w, q, 1);
        lemma_fundamental_div_mod_converse(n as int + 1, w, q + 1, 0);
    }
}

/// The position of a cursor that started before sample 0 and advanced `n` times.
pub open spec fn position_after_steps(width: nat, n: nat) -> (nat, nat)
    decreases n,
{
    if n == 0 {
        (0, 0)
    } else {
        let p = position_after_steps(width, (n - 1) as nat);
        next_position(width, p.0, p.1)
    }
}

/// After `n` steps a cursor stands at sample `n`: frame `n / width`,
/// channel `n % width`.
pub proof fn lemma_steps_reach_sample(width: nat, n: nat)
    requires
        width > 0,
    ensures
        position_after_steps(width, n) == sample_position(width, n),
    decreases n,
{
    if n > 0 {
        lemma_steps_reach_sample(width, (n - 1) as nat);
        lemma_advance_counts_samples(width, (n - 1) as nat);
    } else {
        lemma_fundamental_div_mod_converse(0, width as int, 0, 0);
    }
}

/// Every channel `j` of frame `k` is sample `k * width + j`: all samples of a
/// frame, and only they, share the frame index `k`.
pub proof fn lemma_frame_members(width: nat, k: nat, j: nat)
    requires
        j < width,
    ensures
        sample_position(width, k * width + j) == (k, j),
{
    lemma_fundamental_div_mod_converse((k * width + j) as int, width as int, k as int, j as int);
}

} // verus!
