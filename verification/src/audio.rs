//! Audio as the recognizers take it: one channel of samples at one rate.

use vstd::prelude::*;
use vstd::slice::slice_subrange;

use crate::error::{invalid_input, AsrError, ErrorView};

verus! {

/// What the surrounding program brings along: the samples of its audio, the
/// recognizers that it runs, and the way it is woken. The library computes with
/// none of them; it decides what is done with them, and when.
pub trait Platform {
    /// One sample of one channel.
    type Sample: Copy;

    /// A loaded recognizer for whole recordings.
    type Offline;

    /// A loaded recognizer for audio that is still coming in.
    type Online;

    /// What an online recognizer keeps of the audio it has been fed.
    type OnlineStream;

    /// Wakes the task that waits for text.
    type Waker;

    /// The sum of some samples, added up from the first to the last.
    fn sum(samples: &[Self::Sample]) -> Self::Sample;

    /// A sum of samples, divided by a number of channels.
    fn divide(sum: Self::Sample, channels: u16) -> Self::Sample;
}

/// A stretch of audio. The samples of the channels alternate.
pub struct AudioFrame<S> {
    pub samples: Vec<S>,
    pub channels: u16,
    pub sample_rate: u32,
}

/// Mono audio in the form in which a recognizer accepts it.
pub struct Waveform<S> {
    pub sample_rate: i32,
    pub samples: Vec<S>,
}

/// What keeps a frame with so many channels and samples from being mixed down.
pub open spec fn mono_defect(channels: u16, samples: nat) -> Option<ErrorView> {
    if channels == 0 {
        Some(ErrorView::InvalidInput("audio channel count is missing"@))
    } else if samples % (channels as nat) != 0 {
        Some(ErrorView::InvalidInput("audio samples are not aligned to channels"@))
    } else {
        None
    }
}

/// The samples of all channels at moment `i`.
pub open spec fn moment<S>(samples: Seq<S>, channels: u16, i: int) -> Seq<S> {
    samples.subrange(i * channels, (i + 1) * channels)
}

/// `sample` is the mean of the samples `at_once`: their sum, divided by how many
/// channels there are.
pub open spec fn is_mean<P: Platform>(
    at_once: Seq<P::Sample>,
    channels: u16,
    sample: P::Sample,
) -> bool {
    exists|slice: &[P::Sample], total: P::Sample| #[trigger]
        call_ensures(P::sum, (slice,), total) && slice@ == at_once && call_ensures(
            P::divide,
            (total, channels),
            sample,
        )
}

/// `mono` is the mix of `samples` into one channel: the samples themselves where
/// there is one channel, and otherwise the mean of every moment.
pub open spec fn is_mono_mix<P: Platform>(
    samples: Seq<P::Sample>,
    channels: u16,
    mono: Seq<P::Sample>,
) -> bool {
    if channels == 1 {
        mono == samples
    } else {
        &&& mono.len() * channels == samples.len()
        &&& forall|i: int|
            0 <= i < mono.len() ==> is_mean::<P>(
                moment(samples, channels, i),
                channels,
                #[trigger] mono[i],
            )
    }
}

/// A copy of the samples.
fn copy_samples<S: Copy>(samples: &Vec<S>) -> (copy: Vec<S>)
    ensures
        copy@ == samples@,
{
    let mut copy: Vec<S> = Vec::new();
    let mut i: usize = 0;
    while i < samples.len()
        invariant
            i <= samples@.len(),
            copy@ == samples@.take(i as int),
        decreases samples.len() - i,
    {
        copy.push(samples[i]);
        i = i + 1;
        assert(samples@.take(i as int) =~= samples@.take(i - 1).push(samples@[i - 1]));
    }
    assert(samples@.take(i as int) =~= samples@);
    copy
}

/// Mixes a frame into one channel.
pub fn mono_samples<P: Platform>(audio: &AudioFrame<P::Sample>) -> (mono: Result<
    Vec<P::Sample>,
    AsrError,
>)
    ensures
        match mono_defect(audio.channels, audio.samples@.len()) {
            Some(error) => mono is Err && mono->Err_0@ == error,
            None => mono is Ok && is_mono_mix::<P>(
                audio.samples@,
                audio.channels,
                mono->Ok_0@,
            ),
        },
{
    if audio.channels == 0 {
        return Err(invalid_input("audio channel count is missing"));
    }
    let channels: usize = audio.channels as usize;
    if audio.samples.len() % channels != 0 {
        return Err(invalid_input("audio samples are not aligned to channels"));
    }
    if channels == 1 {
        return Ok(copy_samples(&audio.samples));
    }
    let mut mono: Vec<P::Sample> = Vec::new();
    let mut start: usize = 0;
    let ghost n = audio.samples@.len() as int;
    while start < audio.samples.len()
        invariant
            channels == audio.channels,
            channels > 1,
            n == audio.samples@.len(),
            n % (channels as int) == 0,
            start == mono@.len() * channels,
            start <= n,
            forall|i: int|
                0 <= i < mono@.len() ==> is_mean::<P>(
                    moment(audio.samples@, audio.channels, i),
                    audio.channels,
                    #[trigger] mono@[i],
                ),
        decreases n - start,
    {
        let ghost k = mono@.len() as int;
        assert(start + channels <= n && (k + 1) * channels == start + channels)
            by (nonlinear_arith)
            requires
                start == k * channels,
                start < n,
                n % (channels as int) == 0,
                channels > 1,
                n >= 0,
        ;
        let slice = slice_subrange(audio.samples.as_slice(), start, start + channels);
        let total = P::sum(slice);
        let sample = P::divide(total, audio.channels);
        assert(slice@ == moment(audio.samples@, audio.channels, k));
        assert(is_mean::<P>(moment(audio.samples@, audio.channels, k), audio.channels, sample));
        mono.push(sample);
        start = start + channels;
    }
    Ok(mono)
}

/// A sample rate as a signed number: rates from `2^31` on wrap around.
pub open spec fn signed_rate(rate: u32) -> int {
    if rate <= i32::MAX {
        rate as int
    } else {
        rate - 0x1_0000_0000
    }
}

/// The mix of a frame into one channel, as a recognizer accepts it.
pub fn waveform<P: Platform>(audio: &AudioFrame<P::Sample>) -> (wave: Result<
    Waveform<P::Sample>,
    AsrError,
>)
    ensures
        match mono_defect(audio.channels, audio.samples@.len()) {
            Some(error) => wave is Err && wave->Err_0@ == error,
            None => {
                &&& wave is Ok
                &&& wave->Ok_0.sample_rate == signed_rate(audio.sample_rate)
                &&& is_mono_mix::<P>(audio.samples@, audio.channels, wave->Ok_0.samples@)
            },
        },
{
    let rate: u32 = audio.sample_rate;
    let signed: i32 = rate as i32;
    assert(rate <= 0x7fff_ffff ==> signed == rate) by (bit_vector)
        requires
            signed == rate as i32,
    ;
    assert(rate > 0x7fff_ffff ==> signed == rate - 0x1_0000_0000) by (bit_vector)
        requires
            signed == rate as i32,
    ;
    match mono_samples::<P>(audio) {
        Ok(samples) => Ok(Waveform { sample_rate: signed, samples }),
        Err(error) => Err(error),
    }
}

/// Mixing down divides the number of samples by the number of channels.
pub proof fn mono_mix_length<P: Platform>(
    samples: Seq<P::Sample>,
    channels: u16,
    mono: Seq<P::Sample>,
)
    requires
        mono_defect(channels, samples.len()) is None,
        is_mono_mix::<P>(samples, channels, mono),
    ensures
        mono.len() == samples.len() / (channels as nat),
{
    if channels == 1 {
        assert(samples.len() / 1 == samples.len());
    } else {
        vstd::arithmetic::div_mod::lemma_div_by_multiple(mono.len() as int, channels as int);
    }
}

/// Mono audio is never turned down, and never changed.
pub proof fn mono_audio_is_kept<P: Platform>(samples: Seq<P::Sample>, mono: Seq<P::Sample>)
    ensures
        mono_defect(1, samples.len()) is None,
        is_mono_mix::<P>(samples, 1, mono) <==> mono == samples,
{
}

} // verus!
