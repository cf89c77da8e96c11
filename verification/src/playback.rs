use vstd::prelude::*;
use vstd::arithmetic::div_mod::{
    lemma_fundamental_div_mod, lemma_mod_add_multiples_vanish, lemma_mod_pos_bound, lemma_small_mod,
};
use vstd::arithmetic::mul::lemma_mul_inequality;

verus! {

/// Number of whole frames in an interleaved buffer of `len` samples.
pub fn frame_count(len: usize, channels: usize) -> (r: usize)
    requires
        channels > 0,
    ensures
        r == len / channels,
{
    len / channels
}

/// The source channel that feeds output channel `device_channel`: a mono
/// source feeds every output channel, otherwise channels repeat cyclically.
pub open spec fn source_channel_for(device_channel: nat, source_channels: nat) -> nat {
    if source_channels == 1 {
        0
    } else {
        device_channel % source_channels
    }
}

/// The frame that follows `frame` in a looping buffer of `total` frames.
pub open spec fn following_frame(frame: nat, total: nat) -> nat {
    if frame + 1 >= total {
        0
    } else {
        frame + 1
    }
}

/// The source channel read for output channel `device_channel`.
pub fn source_channel(device_channel: usize, source_channels: usize) -> (r: usize)
    requires
        source_channels > 0,
    ensures
        r == source_channel_for(device_channel as nat, source_channels as nat),
        r < source_channels,
        source_channels == 1 ==> r == 0,
        source_channels > 1 ==> r == device_channel % source_channels,
{
    if source_channels == 1 {
        0
    } else {
        device_channel % source_channels
    }
}

/// The frame after `frame` when playback loops over `total_frames` frames.
pub fn next_frame(frame: usize, total_frames: usize) -> (r: usize)
    requires
        frame < total_frames,
    ensures
        r == following_frame(frame as nat, total_frames as nat),
        r < total_frames,
{
    if frame + 1 >= total_frames {
        0
    } else {
        frame + 1
    }
}

/// Position of channel `channel` of frame `frame` in an interleaved buffer
/// of `len` samples with `channels` channels; it always lies inside the buffer.
pub fn sample_index(frame: usize, channel: usize, channels: usize, len: usize) -> (r: usize)
    requires
        channel < channels,
        frame < len / channels,
    ensures
        r == frame * channels + channel,
        r < len,
{
    proof {
        lemma_frame_slot_in_buffer(frame as nat, channel as nat, channels as nat, len as nat);
    }
    frame * channels + channel
}

/// Channel `channel` of any whole frame lies inside the buffer.
proof fn lemma_frame_slot_in_buffer(frame: nat, channel: nat, channels: nat, len: nat)
    requires
        channel < channels,
        frame < len / channels,
    ensures
        frame * channels + channel < len,
{
    let c = channels as int;
    let q = (len as int) / c;
    lemma_fundamental_div_mod(len as int, c);
    lemma_mod_pos_bound(len as int, c);
    lemma_mul_inequality(frame as int + 1, q, c);
    assert((frame as int + 1) * c == frame as int * c + c) by (nonlinear_arith);
    assert(c * q == q * c) by (nonlinear_arith);
}

/// The two samples between which output channel `device_channel` is
/// interpolated at source frame `frame`: the sample of frame `frame` and that
/// of the following frame (frame 0 after the last), both from the source
/// channel that feeds the output channel.
pub fn interpolation_pair(
    frame: usize,
    device_channel: usize,
    source_channels: usize,
    len: usize,
) -> (r: (usize, usize))
    requires
        source_channels > 0,
        frame < len / source_channels,
    ensures
        r.0 == frame * source_channels + source_channel_for(
            device_channel as nat,
            source_channels as nat,
        ),
        r.1 == following_frame(frame as nat, (len / source_channels) as nat) * source_channels
            + source_channel_for(device_channel as nat, source_channels as nat),
        r.0 < len,
        r.1 < len,
        source_channels > 1 ==> r.0 == frame * source_channels + device_channel % source_channels,
        source_channels == 1 ==> r.0 == frame,
        r.1 % source_channels == r.0 % source_channels,
{
    let total = frame_count(len, source_channels);
    let ch = source_channel(device_channel, source_channels);
    let next = next_frame(frame, total);
    let i0 = sample_index(frame, ch, source_channels, len);
    let i1 = sample_index(next, ch, source_channels, len);
    proof {
        lemma_same_channel_slot(frame as nat, next as nat, ch as nat, source_channels as nat);
    }
    (i0, i1)
}

/// Channel `channel` of frames `a` and `b` lies at the same place within its frame.
proof fn lemma_same_channel_slot(a: nat, b: nat, channel: nat, channels: nat)
    requires
        channel < channels,
    ensures
        (a * channels + channel) % channels == (b * channels + channel) % channels,
{
    vstd::arithmetic::div_mod::lemma_fundamental_div_mod_converse(
        (a * channels + channel) as int, channels as int, a as int, channel as int);
    vstd::arithmetic::div_mod::lemma_fundamental_div_mod_converse(
        (b * channels + channel) as int, channels as int, b as int, channel as int);
}

/// Routing of output channels to the source channels of a source with more
/// than one channel: output channel `d` reads source channel `d mod s`; the
/// first `s` output channels read the source channels in order, and output
/// channels `d` and `d + s` always read the same source channel.
pub proof fn lemma_channels_repeat(d: nat, s: nat)
    requires
        s > 1,
    ensures
        source_channel_for(d, s) == d % s,
        source_channel_for(d, s) < s,
        d < s ==> source_channel_for(d, s) == d,
        source_channel_for(d + s, s) == source_channel_for(d, s),
{
    lemma_mod_pos_bound(d as int, s as int);
    lemma_mod_add_multiples_vanish(d as int, s as int);
    if d < s {
        lemma_small_mod(d, s);
    }
}

/// Every output channel of a mono source reads channel 0.
pub proof fn lemma_mono_feeds_all(device_channel: nat)
    ensures
        source_channel_for(device_channel, 1) == 0,
{
}

/// Playback loops: after the last frame comes frame 0, and every other frame
/// is followed by the next one.
pub proof fn lemma_loop_wraps(frame: nat, total: nat)
    requires
        frame < total,
    ensures
        following_frame(frame, total) < total,
        frame + 1 == total ==> following_frame(frame, total) == 0,
        frame + 1 < total ==> following_frame(frame, total) == frame + 1,
{
}

} // verus!
