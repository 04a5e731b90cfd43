//! What holds of every mix of audio into one channel.

use vstd::prelude::*;

use crate::audio::{is_mean, is_mono_mix, moment, mono_defect, signed_rate, Platform};
use crate::error::ErrorView;

verus! {

/// A frame can be mixed down exactly when it has channels and whole moments: some
/// number of times as many samples as channels.
pub proof fn whole_moments_can_be_mixed(channels: u16, samples: nat, moments: nat)
    ensures
        channels > 0 && samples == moments * channels ==> mono_defect(channels, samples) is None,
        mono_defect(channels, samples) is None ==> channels > 0 && exists|k: nat| #[trigger]
            (k * channels) == samples,
{
    if channels > 0 {
        let d = channels as int;
        if samples == moments * channels {
            vstd::arithmetic::div_mod::lemma_mod_multiples_basic(moments as int, d);
        }
        if samples % (channels as nat) == 0 {
            vstd::arithmetic::div_mod::lemma_fundamental_div_mod(samples as int, d);
            let k = samples / (channels as nat);
            assert(k * channels == samples) by (nonlinear_arith)
                requires
                    samples == d * (samples as int / d),
                    k == samples as int / d,
                    d == channels,
            ;
        }
    }
}

/// What is said of a frame that cannot be mixed down: that its channels are missing, or
/// else that its samples do not fit them.
pub proof fn defects_are_told(channels: u16, samples: nat)
    ensures
        channels == 0 ==> mono_defect(channels, samples) == Some(
            ErrorView::InvalidInput("audio channel count is missing"@),
        ),
        channels > 0 && samples % (channels as nat) != 0 ==> mono_defect(channels, samples)
            == Some(ErrorView::InvalidInput("audio samples are not aligned to channels"@)),
{
}

/// Every mixed sample is made of the samples at its own places: sample `i` is the sum
/// of the samples from `i * channels` on, as many as there are channels, divided by
/// the number of channels. Mono samples stay what and where they are.
pub proof fn samples_are_mixed_in_place<P: Platform>(
    samples: Seq<P::Sample>,
    channels: u16,
    mono: Seq<P::Sample>,
    i: int,
)
    requires
        channels > 0,
        samples.len() % (channels as nat) == 0,
        is_mono_mix::<P>(samples, channels, mono),
        0 <= i < samples.len() / (channels as nat),
    ensures
        mono.len() * channels == samples.len(),
        i < mono.len(),
        channels == 1 ==> mono[i] == samples[i],
        channels > 1 ==> exists|slice: &[P::Sample], total: P::Sample|
            {
                &&& #[trigger] call_ensures(P::sum, (slice,), total)
                &&& call_ensures(P::divide, (total, channels), mono[i])
                &&& slice@.len() == channels
                &&& forall|c: int|
                    0 <= c < channels ==> #[trigger] slice@[c] == samples[i * channels + c]
            },
{
    let d = channels as int;
    vstd::arithmetic::div_mod::lemma_fundamental_div_mod(samples.len() as int, d);
    if d > 1 {
        vstd::arithmetic::div_mod::lemma_div_by_multiple(mono.len() as int, d);
        assert(0 <= i * d && (i + 1) * d <= samples.len() && (i + 1) * d == i * d + d)
            by (nonlinear_arith)
            requires
                0 <= i < mono.len(),
                d > 1,
                mono.len() * d == samples.len(),
        ;
        let m = mono[i];
        let (slice, total) = choose|slice: &[P::Sample], total: P::Sample| #[trigger]
            call_ensures(P::sum, (slice,), total) && slice@ == samples.subrange(
                i * channels,
                (i + 1) * channels,
            ) && call_ensures(P::divide, (total, channels), m);
        assert(call_ensures(P::sum, (slice,), total));
        assert(slice@ == samples.subrange(i * channels, (i + 1) * channels));
        assert forall|c: int| 0 <= c < channels implies #[trigger] slice@[c] == samples[i
            * channels + c] by {}
    }
}

/// Mixing frames one after the other is mixing their join: the mix of the join is the
/// join of the mixes.
pub proof fn mixes_join<P: Platform>(
    first: Seq<P::Sample>,
    second: Seq<P::Sample>,
    channels: u16,
    first_mono: Seq<P::Sample>,
    second_mono: Seq<P::Sample>,
)
    requires
        channels > 0,
        first.len() % (channels as nat) == 0,
        second.len() % (channels as nat) == 0,
        is_mono_mix::<P>(first, channels, first_mono),
        is_mono_mix::<P>(second, channels, second_mono),
    ensures
        is_mono_mix::<P>(first + second, channels, first_mono + second_mono),
{
    let d = channels as int;
    if d > 1 {
        let a = first_mono.len() as int;
        let b = second_mono.len() as int;
        let samples = first + second;
        let mono = first_mono + second_mono;
        assert((a + b) * d == samples.len()) by (nonlinear_arith)
            requires
                a * d == first.len(),
                b * d == second.len(),
                samples.len() == first.len() + second.len(),
        ;
        assert forall|i: int| 0 <= i < mono.len() implies is_mean::<P>(
            moment(samples, channels, i),
            channels,
            #[trigger] mono[i],
        ) by {
            if i < a {
                assert(0 <= i * d && (i + 1) * d <= first.len() && i * d <= (i + 1) * d)
                    by (nonlinear_arith)
                    requires
                        0 <= i < a,
                        a * d == first.len(),
                        d > 1,
                ;
                assert(moment(samples, channels, i) =~= moment(
                    first,
                    channels,
                    i,
                ));
                assert(mono[i] == first_mono[i]);
            } else {
                let k = i - a;
                assert(0 <= k * d && (k + 1) * d <= second.len() && i * d == first.len() + k * d
                    && (i + 1) * d == first.len() + (k + 1) * d && k * d <= (k + 1) * d)
                    by (nonlinear_arith)
                    requires
                        0 <= k < b,
                        i == a + k,
                        a * d == first.len(),
                        b * d == second.len(),
                        d > 1,
                ;
                assert(moment(samples, channels, i) =~= moment(
                    second,
                    channels,
                    k,
                ));
                assert(mono[i] == second_mono[k]);
            }
        }
    }
}

/// The rate that a recognizer is given is the rate of the audio: the same number where
/// it can be written as one with a sign, and otherwise the one that differs from it by
/// `2^32`.
pub proof fn rates_are_kept(rate: u32)
    ensures
        i32::MIN <= signed_rate(rate) <= i32::MAX,
        rate <= i32::MAX ==> signed_rate(rate) == rate,
        rate > i32::MAX ==> signed_rate(rate) + 0x1_0000_0000 == rate,
{
}

} // verus!
