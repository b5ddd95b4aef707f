use vstd::prelude::*;
use vstd::string::StringExecFns;
use crate::director::{DirectorError, NewsShortVideo, StagePlan};
use crate::mpeg::ComposeToolError;
use crate::news::{NewsMaterial, NewsMaterialError, NewsTitle};
use crate::subtitle::SingleSubtitle;
use crate::subtitle::SubtitleError;
use crate::subtitle::srt::{SrtSubtitle, caption_times_fit, srt_document};
use crate::tts::TTSError;
use crate::video::VideoEditorError;
use crate::wav::{WavAudio, WavAudioView, decode_wav, encode_wav, wav_duration_ms, wav_parse, wav_render};

verus! {

/// Milliseconds of silence rendered after each speech segment.
pub const SEGMENT_SILENCE_MS: u64 = 300;

/// One synthesized speech segment ready for composition: the sentence it
/// speaks and its audio, already put through the voice-effect tool when
/// one is configured.
pub struct SpeechClip {
    pub text: String,
    pub wav: Vec<u8>,
}

/// The composed dubbing: one continuous audio rendering, the ordered
/// (text, duration) pairs that drive subtitle timing, and their sum. The
/// pairs carry each segment's own duration; the inserted silence is heard
/// in the rendering but never reported.
pub struct Dubbing {
    pub wav: Vec<u8>,
    pub pairs: Vec<SingleSubtitle>,
    pub total_ms: u64,
}

/// Whether this clip decodes as 16-bit integer pulse-code audio.
pub open spec fn clip_parses(c: SpeechClip) -> bool {
    wav_parse(c.wav@) is Some
}

/// The decoded audio of a clip.
pub open spec fn clip_wav(c: SpeechClip) -> WavAudioView {
    wav_parse(c.wav@)->Some_0
}

pub open spec fn all_clips_parse(cs: Seq<SpeechClip>) -> bool {
    forall|i: int| 0 <= i < cs.len() ==> #[trigger] clip_parses(cs[i])
}

/// All clips share the first clip's sample rate and channel count.
pub open spec fn clips_homogeneous(cs: Seq<SpeechClip>) -> bool {
    forall|i: int|
        0 <= i < cs.len() ==> ((#[trigger] clip_wav(cs[i])).sample_rate == clip_wav(
            cs[0],
        ).sample_rate && clip_wav(cs[i]).channels == clip_wav(cs[0]).channels)
}

pub open spec fn clips_rate(cs: Seq<SpeechClip>) -> u32 {
    clip_wav(cs[0]).sample_rate
}

pub open spec fn clips_channels(cs: Seq<SpeechClip>) -> u16 {
    clip_wav(cs[0]).channels
}

/// One clip's own duration in milliseconds.
pub open spec fn clip_ms(c: SpeechClip) -> int {
    wav_duration_ms(clip_wav(c))
}

/// The sum of the first `n` clips' own durations.
pub open spec fn clips_total_ms(cs: Seq<SpeechClip>, n: int) -> int
    decreases n,
{
    if n <= 0 {
        0
    } else {
        clips_total_ms(cs, n - 1) + clip_ms(cs[n - 1])
    }
}

/// The silence block inserted after each segment: zero samples covering
/// the fixed silence span at the given rate, on every channel.
pub open spec fn silence_seq(rate: u32, channels: u16) -> Seq<i16> {
    Seq::new(((rate as int * SEGMENT_SILENCE_MS / 1000) * channels as int) as nat, |i: int| 0i16)
}

/// The composed sample sequence of the first `n` clips: each clip's
/// samples followed by one silence block.
pub open spec fn stitched_samples(cs: Seq<SpeechClip>, n: int, silence: Seq<i16>) -> Seq<i16>
    decreases n,
{
    if n <= 0 {
        Seq::empty()
    } else {
        stitched_samples(cs, n - 1, silence) + clip_wav(cs[n - 1]).samples + silence
    }
}

/// The reported timing record is faithful: one pair per clip, in order,
/// each carrying the clip's text and own duration, and the total is their
/// sum — silence is excluded from every reported duration.
pub open spec fn dubbing_ok(cs: Seq<SpeechClip>, pairs: Seq<SingleSubtitle>, total: u64) -> bool {
    &&& pairs.len() == cs.len()
    &&& (forall|i: int|
        0 <= i < cs.len() ==> (#[trigger] pairs[i]).text@ == cs[i].text@ && pairs[i].duration
            == clip_ms(cs[i]))
    &&& total == clips_total_ms(cs, cs.len() as int)
}

/// The sum of the first `n` reported caption durations.
pub open spec fn pairs_total_ms(ps: Seq<SingleSubtitle>, n: int) -> int
    decreases n,
{
    if n <= 0 {
        0
    } else {
        pairs_total_ms(ps, n - 1) + ps[n - 1].duration
    }
}

proof fn lemma_clip_and_pair_sums_agree(cs: Seq<SpeechClip>, ps: Seq<SingleSubtitle>, n: int)
    requires
        0 <= n <= cs.len(),
        ps.len() == cs.len(),
        forall|i: int|
            0 <= i < cs.len() ==> (#[trigger] ps[i]).text@ == cs[i].text@ && ps[i].duration
                == clip_ms(cs[i]),
    ensures
        clips_total_ms(cs, n) == pairs_total_ms(ps, n),
    decreases n,
{
    if n > 0 {
        lemma_clip_and_pair_sums_agree(cs, ps, n - 1);
    }
}

/// Composing N segments reports a total duration equal to the sum of the
/// individual reported segment durations: the inserted silence is heard
/// in the rendering but never counted.
pub proof fn lemma_dubbing_total_is_pair_sum(
    cs: Seq<SpeechClip>,
    pairs: Seq<SingleSubtitle>,
    total: u64,
)
    requires
        dubbing_ok(cs, pairs, total),
    ensures
        total == pairs_total_ms(pairs, pairs.len() as int),
{
    lemma_clip_and_pair_sums_agree(cs, pairs, cs.len() as int);
}

/// Relies on nanoid::format over the URL-safe alphabet: the generated id
/// has exactly `size` characters.
#[verifier::external_body]
fn fresh_id(size: usize) -> (r: String)
    ensures
        r@.len() == size as int,
{
    nanoid::format(nanoid::rngs::default, &nanoid::alphabet::SAFE, size)
}

/// A fresh unique file name: a random id of the given length, then the
/// given suffix.
fn unique_name(id_len: usize, suffix: &str) -> (r: String)
    ensures
        r@.len() == id_len + suffix@.len(),
        r@.subrange(id_len as int, r@.len() as int) == suffix@,
{
    let mut s = fresh_id(id_len);
    s.append(suffix);
    proof {
        assert(s@.subrange(id_len as int, s@.len() as int) =~= suffix@);
    }
    s
}

/// A composed dubbing before rendering: the shared rate and channel
/// count, the stitched samples, the timing pairs, and their total.
pub struct DubbingPlan {
    pub sample_rate: u32,
    pub channels: u16,
    pub samples: Vec<i16>,
    pub pairs: Vec<SingleSubtitle>,
    pub total_ms: u64,
}

/// Exactly when composition succeeds: at least one segment, every segment
/// decodes, a positive shared rate and channel count, and totals within
/// the machine's counters.
pub open spec fn dubbing_composable(cs: Seq<SpeechClip>) -> bool {
    &&& cs.len() > 0
    &&& all_clips_parse(cs)
    &&& clips_rate(cs) > 0
    &&& clips_channels(cs) > 0
    &&& clips_homogeneous(cs)
    &&& clips_total_ms(cs, cs.len() as int) <= u64::MAX
    &&& (clips_rate(cs) as int * SEGMENT_SILENCE_MS / 1000) * clips_channels(cs) as int
        <= usize::MAX
}

/// Exactly when the whole composition, rendering included, succeeds:
/// composable segments whose rendering also keeps the WAV header's
/// 32-bit fields in range — the byte rate, and the data bytes plus the
/// larger header form's sixty.
pub open spec fn dubbing_encodable(cs: Seq<SpeechClip>) -> bool {
    &&& dubbing_composable(cs)
    &&& clips_rate(cs) as int * 2 * (clips_channels(cs) as int) <= u32::MAX
    &&& stitched_samples(
        cs,
        cs.len() as int,
        silence_seq(clips_rate(cs), clips_channels(cs)),
    ).len() * 2 + 60 <= u32::MAX
}

proof fn lemma_stitched_divisible(cs: Seq<SpeechClip>, n: int, silence: Seq<i16>, ch: int)
    requires
        0 <= n <= cs.len(),
        ch > 0,
        silence.len() as int % ch == 0,
        forall|j: int|
            0 <= j < n ==> (#[trigger] clip_wav(cs[j])).samples.len() as int % ch == 0,
    ensures
        stitched_samples(cs, n, silence).len() as int % ch == 0,
    decreases n,
{
    vstd::arithmetic::div_mod::lemma_small_mod(0, ch as nat);
    if n > 0 {
        lemma_stitched_divisible(cs, n - 1, silence, ch);
        let a = stitched_samples(cs, n - 1, silence).len() as int;
        let b = clip_wav(cs[n - 1]).samples.len() as int;
        let c = silence.len() as int;
        assert(stitched_samples(cs, n, silence).len() as int == a + b + c);
        vstd::arithmetic::div_mod::lemma_add_mod_noop(a, b, ch);
        assert((a + b) % ch == 0);
        vstd::arithmetic::div_mod::lemma_add_mod_noop(a + b, c, ch);
        assert((a + b + c) % ch == 0);
    }
}

proof fn lemma_clip_ms_nonneg(cs: Seq<SpeechClip>, j: int)
    requires
        0 <= j < cs.len(),
        all_clips_parse(cs),
        clips_homogeneous(cs),
        clips_rate(cs) > 0,
        clips_channels(cs) > 0,
    ensures
        clip_ms(cs[j]) >= 0,
{
    assert(clip_wav(cs[j]).sample_rate == clips_rate(cs) && clip_wav(cs[j]).channels
        == clips_channels(cs));
}

proof fn lemma_total_ms_grows(cs: Seq<SpeechClip>, i: int, n: int)
    requires
        0 <= i <= n <= cs.len(),
        all_clips_parse(cs),
        clips_homogeneous(cs),
        clips_rate(cs) > 0,
        clips_channels(cs) > 0,
    ensures
        clips_total_ms(cs, n) >= clips_total_ms(cs, i),
    decreases n,
{
    if n > i {
        lemma_total_ms_grows(cs, i, n - 1);
        lemma_clip_ms_nonneg(cs, n - 1);
    }
}

/// Decodes the segments and lays out the dubbing: validates that all
/// segments share one rate and channel count, stitches their samples with
/// one silence block after each, and records each segment's own duration.
/// Succeeds exactly on composable input.
pub fn plan_dubbing(tts_clips: &Vec<SpeechClip>) -> (r: Result<DubbingPlan, DirectorError>)
    ensures
        r is Ok <==> dubbing_composable(tts_clips@),
        match r {
            Ok(p) => {
                &&& p.sample_rate == clips_rate(tts_clips@)
                &&& p.channels == clips_channels(tts_clips@)
                &&& dubbing_ok(tts_clips@, p.pairs@, p.total_ms)
                &&& p.samples@ == stitched_samples(
                    tts_clips@,
                    tts_clips@.len() as int,
                    silence_seq(clips_rate(tts_clips@), clips_channels(tts_clips@)),
                )
                &&& p.samples@.len() as int % (p.channels as int) == 0
            },
            Err(e) => {
                if tts_clips@.len() == 0 {
                    e == DirectorError::TTS(TTSError::EmptyText)
                } else {
                    e is WavReader
                }
            },
        },
{
    let n = tts_clips.len();
    if n == 0 {
        return Err(DirectorError::TTS(TTSError::EmptyText));
    }
    let mut wavs: Vec<WavAudio> = Vec::new();
    let mut i: usize = 0;
    while i < n
        invariant
            0 <= i <= n,
            n == tts_clips@.len(),
            wavs@.len() == i,
            forall|j: int| 0 <= j < i ==> #[trigger] clip_parses(tts_clips@[j]),
            forall|j: int| 0 <= j < i ==> (#[trigger] wavs@[j])@ == clip_wav(tts_clips@[j]),
            forall|j: int|
                0 <= j < i ==> (#[trigger] clip_wav(tts_clips@[j])).channels >= 1 && clip_wav(
                    tts_clips@[j],
                ).samples.len() as int % (clip_wav(tts_clips@[j]).channels as int) == 0,
        decreases n - i,
    {
        match decode_wav(&tts_clips[i].wav) {
            Ok(w) => {
                wavs.push(w);
            },
            Err(msg) => {
                proof {
                    assert(!clip_parses(tts_clips@[i as int]));
                    assert(!dubbing_composable(tts_clips@)) by {
                        if all_clips_parse(tts_clips@) {
                            assert(clip_parses(tts_clips@[i as int]));
                        }
                    }
                }
                return Err(DirectorError::WavReader(msg));
            },
        }
        i = i + 1;
    }
    proof {
        assert(all_clips_parse(tts_clips@));
    }

    let rate = wavs[0].sample_rate;
    let channels = wavs[0].channels;
    proof {
        assert(wavs@[0]@ == clip_wav(tts_clips@[0]));
        assert(rate == clips_rate(tts_clips@));
        assert(channels == clips_channels(tts_clips@));
    }
    if rate == 0 || channels == 0 {
        return Err(DirectorError::WavReader(String::from_str("unsupported sample spec")));
    }

    let mut i: usize = 1;
    while i < n
        invariant
            1 <= i <= n,
            n == tts_clips@.len(),
            n == wavs@.len(),
            all_clips_parse(tts_clips@),
            forall|j: int| 0 <= j < n ==> (#[trigger] wavs@[j])@ == clip_wav(tts_clips@[j]),
            rate == clips_rate(tts_clips@),
            channels == clips_channels(tts_clips@),
            forall|j: int|
                0 <= j < i ==> ((#[trigger] clip_wav(tts_clips@[j])).sample_rate == rate
                    && clip_wav(tts_clips@[j]).channels == channels),
        decreases n - i,
    {
        if wavs[i].sample_rate != rate || wavs[i].channels != channels {
            proof {
                assert(wavs@[i as int]@ == clip_wav(tts_clips@[i as int]));
                if clips_homogeneous(tts_clips@) {
                    assert((clip_wav(tts_clips@[i as int])).sample_rate == clip_wav(
                        tts_clips@[0],
                    ).sample_rate && clip_wav(tts_clips@[i as int]).channels == clip_wav(
                        tts_clips@[0],
                    ).channels);
                    assert(false);
                }
            }
            return Err(DirectorError::WavReader(String::from_str("heterogeneous sample spec")));
        }
        proof {
            assert(wavs@[i as int]@ == clip_wav(tts_clips@[i as int]));
        }
        i = i + 1;
    }
    proof {
        assert(clips_homogeneous(tts_clips@));
    }

    let mut pairs: Vec<SingleSubtitle> = Vec::new();
    let mut total: u64 = 0;
    let mut i: usize = 0;
    while i < n
        invariant
            0 <= i <= n,
            n == tts_clips@.len(),
            n == wavs@.len(),
            all_clips_parse(tts_clips@),
            forall|j: int| 0 <= j < n ==> (#[trigger] wavs@[j])@ == clip_wav(tts_clips@[j]),
            rate == clips_rate(tts_clips@),
            channels == clips_channels(tts_clips@),
            rate > 0,
            channels > 0,
            clips_homogeneous(tts_clips@),
            pairs@.len() == i,
            total == clips_total_ms(tts_clips@, i as int),
            forall|j: int|
                0 <= j < i ==> (#[trigger] pairs@[j]).text@ == tts_clips@[j].text@
                    && pairs@[j].duration == clip_ms(tts_clips@[j]),
        decreases n - i,
    {
        proof {
            assert(wavs@[i as int]@ == clip_wav(tts_clips@[i as int]));
            assert(clip_wav(tts_clips@[i as int]).sample_rate == rate);
            assert(clip_wav(tts_clips@[i as int]).channels == channels);
        }
        let per_channel: usize = wavs[i].samples.len() / (channels as usize);
        let ms128: u128 = (per_channel as u128) * 1000 / (rate as u128);
        if ms128 > u64::MAX as u128 {
            proof {
                assert(clip_ms(tts_clips@[i as int]) == ms128 as int);
                assert(!dubbing_composable(tts_clips@)) by {
                    if dubbing_composable(tts_clips@) {
                        lemma_total_ms_grows(tts_clips@, (i + 1) as int, tts_clips@.len() as int);
                        assert(clips_total_ms(tts_clips@, (i + 1) as int) > u64::MAX);
                    }
                }
            }
            return Err(DirectorError::WavReader(String::from_str("segment too long")));
        }
        let ms = ms128 as u64;
        proof {
            assert(ms == clip_ms(tts_clips@[i as int]));
        }
        total = match total.checked_add(ms) {
            Some(t) => t,
            None => {
                proof {
                    assert(!dubbing_composable(tts_clips@)) by {
                        if dubbing_composable(tts_clips@) {
                            lemma_total_ms_grows(
                                tts_clips@,
                                (i + 1) as int,
                                tts_clips@.len() as int,
                            );
                            assert(clips_total_ms(tts_clips@, (i + 1) as int) > u64::MAX);
                        }
                    }
                }
                return Err(DirectorError::WavReader(String::from_str("dubbing too long")));
            },
        };
        pairs.push(SingleSubtitle { text: tts_clips[i].text.clone(), duration: ms });
        i = i + 1;
    }

    let silence_per_channel: u64 = (rate as u64) * SEGMENT_SILENCE_MS / 1000;
    proof {
        assert(silence_per_channel * (channels as u64) <= u64::MAX) by (nonlinear_arith)
            requires
                silence_per_channel <= 0x8000_0000u64,
                channels <= 0x1_0000u64,
        ;
    }
    let silence_total: u64 = silence_per_channel * (channels as u64);
    proof {
        assert(silence_total as int == (clips_rate(tts_clips@) as int * SEGMENT_SILENCE_MS / 1000)
            * clips_channels(tts_clips@) as int);
    }
    if silence_total > usize::MAX as u64 {
        return Err(DirectorError::WavReader(String::from_str("silence block too large")));
    }
    let silence_len: usize = silence_total as usize;
    let ghost silence = silence_seq(rate, channels);
    proof {
        assert(silence.len() == silence_len);
    }

    let mut composed: Vec<i16> = Vec::new();
    let mut i: usize = 0;
    while i < n
        invariant
            0 <= i <= n,
            n == tts_clips@.len(),
            n == wavs@.len(),
            all_clips_parse(tts_clips@),
            forall|j: int| 0 <= j < n ==> (#[trigger] wavs@[j])@ == clip_wav(tts_clips@[j]),
            silence == silence_seq(rate, channels),
            silence.len() == silence_len,
            composed@ == stitched_samples(tts_clips@, i as int, silence),
        decreases n - i,
    {
        proof {
            assert(wavs@[i as int]@ == clip_wav(tts_clips@[i as int]));
        }
        let m = wavs[i].samples.len();
        let mut k: usize = 0;
        while k < m
            invariant
                0 <= k <= m,
                0 <= i < n,
                n == tts_clips@.len(),
                n == wavs@.len(),
                m == wavs@[i as int]@.samples.len(),
                wavs@[i as int]@ == clip_wav(tts_clips@[i as int]),
                composed@ == stitched_samples(tts_clips@, i as int, silence) + clip_wav(
                    tts_clips@[i as int],
                ).samples.subrange(0, k as int),
            decreases m - k,
        {
            composed.push(wavs[i].samples[k]);
            proof {
                assert(clip_wav(tts_clips@[i as int]).samples.subrange(0, (k + 1) as int)
                    =~= clip_wav(tts_clips@[i as int]).samples.subrange(0, k as int).push(
                    wavs@[i as int]@.samples[k as int],
                ));
                assert(composed@ =~= stitched_samples(tts_clips@, i as int, silence) + clip_wav(
                    tts_clips@[i as int],
                ).samples.subrange(0, (k + 1) as int));
            }
            k = k + 1;
        }
        proof {
            assert(clip_wav(tts_clips@[i as int]).samples.subrange(
                0,
                clip_wav(tts_clips@[i as int]).samples.len() as int,
            ) =~= clip_wav(tts_clips@[i as int]).samples);
        }
        let mut k: usize = 0;
        while k < silence_len
            invariant
                0 <= k <= silence_len,
                0 <= i < n,
                n == tts_clips@.len(),
                silence == silence_seq(rate, channels),
                silence.len() == silence_len,
                composed@ == stitched_samples(tts_clips@, i as int, silence) + clip_wav(
                    tts_clips@[i as int],
                ).samples + silence.subrange(0, k as int),
            decreases silence_len - k,
        {
            composed.push(0i16);
            proof {
                assert(silence[k as int] == 0i16);
                assert(silence.subrange(0, (k + 1) as int) =~= silence.subrange(0, k as int).push(
                    0i16,
                ));
                assert(composed@ =~= stitched_samples(tts_clips@, i as int, silence) + clip_wav(
                    tts_clips@[i as int],
                ).samples + silence.subrange(0, (k + 1) as int));
            }
            k = k + 1;
        }
        proof {
            assert(silence.subrange(0, silence.len() as int) =~= silence);
            assert(composed@ =~= stitched_samples(tts_clips@, i + 1 as int, silence));
        }
        i = i + 1;
    }

    proof {
        vstd::arithmetic::div_mod::lemma_mod_multiples_basic(
            silence_per_channel as int,
            channels as int,
        );
        assert(silence.len() as int % (channels as int) == 0);
        assert forall|j: int|
            0 <= j < n implies (#[trigger] clip_wav(tts_clips@[j])).samples.len() as int % (
        channels as int) == 0 by {
            assert(clip_wav(tts_clips@[j]).channels == channels);
        }
        lemma_stitched_divisible(tts_clips@, n as int, silence, channels as int);
    }
    Ok(DubbingPlan { sample_rate: rate, channels, samples: composed, pairs, total_ms: total })
}

/// Concatenates the clips into one continuous audio rendering with a
/// fixed silence block after each segment, and reports each segment's own
/// duration for subtitle timing. Fails on zero segments, on audio that
/// does not decode, on segments that disagree in rate or channels, and on
/// renderings past the WAV header's range — and on nothing else.
pub fn compose_audio(tts_clips: &Vec<SpeechClip>) -> (r: Result<Dubbing, DirectorError>)
    ensures
        r is Ok <==> dubbing_encodable(tts_clips@),
        tts_clips@.len() == 0 <==> r == Result::<Dubbing, DirectorError>::Err(
            DirectorError::TTS(TTSError::EmptyText),
        ),
        match r {
            Ok(d) => {
                &&& dubbing_ok(tts_clips@, d.pairs@, d.total_ms)
                &&& d.wav@ == wav_render(
                    clips_rate(tts_clips@),
                    clips_channels(tts_clips@),
                    stitched_samples(
                        tts_clips@,
                        tts_clips@.len() as int,
                        silence_seq(clips_rate(tts_clips@), clips_channels(tts_clips@)),
                    ),
                )
            },
            Err(e) => e == DirectorError::TTS(TTSError::EmptyText) || e is WavReader,
        },
{
    let plan = match plan_dubbing(tts_clips) {
        Ok(p) => p,
        Err(e) => {
            return Err(e);
        },
    };
    proof {
        assert((plan.sample_rate as u64) * 2 * (plan.channels as u64) < 0x4_0000_0000_0000u64)
            by (nonlinear_arith)
            requires
                plan.sample_rate as u64 <= 0xFFFF_FFFFu64,
                plan.channels as u64 <= 0xFFFFu64,
        ;
    }
    if (plan.sample_rate as u64) * 2 * (plan.channels as u64) > u32::MAX as u64 {
        return Err(DirectorError::WavReader(String::from_str("sample spec overflows the header")));
    }
    if plan.samples.len() as u64 > (u32::MAX as u64 - 60) / 2 {
        return Err(DirectorError::WavReader(String::from_str("rendering too large")));
    }
    let bytes = encode_wav(plan.sample_rate, plan.channels, &plan.samples);
    Ok(Dubbing { wav: bytes, pairs: plan.pairs, total_ms: plan.total_ms })
}

/// Where one production run stands: which outside result it is waiting
/// for, or how it ended.
pub enum RunState {
    AwaitingMaterial {},
    AwaitingSpeech { title: String },
    AwaitingDubbingStore { title: String, pairs: Vec<SingleSubtitle>, total_ms: u64 },
    AwaitingSubtitleStore { title: String, dubbing_path: String, total_ms: u64 },
    AwaitingVideo { title: String, dubbing_path: Option<String>, subtitle_path: Option<String> },
    AwaitingMux { title: String },
    Done { result: NewsShortVideo },
    Failed { error: DirectorError },
}

/// What the application must do next for the run.
pub enum RunAction {
    ExtractMaterial { news: NewsTitle },
    Synthesize { sentences: Vec<String>, apply_effect: bool },
    StoreDubbing { wav: Vec<u8>, file_name: String },
    StoreSubtitle { content: String, file_name: String },
    ComposeVideo { duration_ms: u64 },
    Mux { video_path: String, dubbing_path: String, subtitle_path: Option<String>, output_name: String },
    Finish {},
    Abort {},
}

/// The states a run can stand in under a given stage plan: speech states
/// exist only with a synthesizer, a subtitle is pending or attached only
/// with both a writer and a synthesizer, and the later stages presuppose
/// the roles that reach them.
pub open spec fn wf_run(plan: StagePlan, s: RunState) -> bool {
    &&& (s is AwaitingSpeech ==> plan.tts)
    &&& (s is AwaitingDubbingStore ==> plan.tts)
    &&& (s is AwaitingSubtitleStore ==> plan.tts && plan.subtitle)
    &&& (s matches RunState::AwaitingVideo { dubbing_path, subtitle_path, .. } ==> plan.video_editor
        && (dubbing_path is Some ==> plan.tts) && (subtitle_path is Some ==> plan.tts
        && plan.subtitle))
    &&& (s is AwaitingMux ==> plan.compose_tool && plan.tts && plan.video_editor)
}

/// A run configured without a subtitle writer is never about to store a
/// subtitle document, and never carries one.
pub proof fn lemma_no_writer_no_subtitle(plan: StagePlan, s: RunState)
    requires
        !plan.subtitle,
        wf_run(plan, s),
    ensures
        !(s is AwaitingSubtitleStore),
        s matches RunState::AwaitingVideo { subtitle_path, .. } ==> subtitle_path is None,
{
}

/// A run configured without a speech synthesizer never reaches a dubbing
/// or subtitle state, even when a subtitle writer is configured: timing
/// is derived from real speech, never invented.
pub proof fn lemma_no_speech_no_subtitle(plan: StagePlan, s: RunState)
    requires
        !plan.tts,
        wf_run(plan, s),
    ensures
        !(s is AwaitingSpeech),
        !(s is AwaitingDubbingStore),
        !(s is AwaitingSubtitleStore),
        s matches RunState::AwaitingVideo { dubbing_path, subtitle_path, .. } ==> dubbing_path
            is None && subtitle_path is None,
{
}

/// Takes the extractor's answer. With material in hand the run asks for
/// speech when a synthesizer is configured, otherwise goes straight to
/// the visual stage with the two-seconds-per-image duration heuristic.
pub fn on_material(plan: &StagePlan, state: RunState, res: Result<NewsMaterial, NewsMaterialError>)
    -> (r: (RunState, RunAction))
    requires
        state is AwaitingMaterial,
    ensures
        wf_run(*plan, r.0),
        !plan.subtitle ==> !(r.1 is StoreSubtitle),
        !plan.tts ==> !(r.1 is Synthesize) && !(r.1 is StoreDubbing) && !(r.1 is StoreSubtitle),
        match res {
            Err(e) => (r.0 matches RunState::Failed { error } && error
                == DirectorError::Material(e)) && r.1 is Abort,
            Ok(m) => {
                if plan.tts {
                    (r.0 matches RunState::AwaitingSpeech { title } && title == m.title) && (
                    r.1 matches RunAction::Synthesize { sentences, apply_effect } && sentences
                        == m.summary && apply_effect == plan.voice_edit_tool)
                } else if !plan.video_editor || m.pics@.len() * 2000 > u64::MAX {
                    (r.0 matches RunState::Failed { error } && error == DirectorError::VideoEditor(
                        VideoEditorError::Duration,
                    )) && r.1 is Abort
                } else {
                    (r.0 matches RunState::AwaitingVideo { title, dubbing_path, subtitle_path }
                        && title == m.title && dubbing_path is None && subtitle_path is None) && (
                    r.1 matches RunAction::ComposeVideo { duration_ms } && duration_ms == m.pics@.len()
                        * 2000)
                }
            },
        },
{
    match res {
        Err(e) => (RunState::Failed { error: DirectorError::Material(e) }, RunAction::Abort {  }),
        Ok(m) => {
            if plan.tts {
                (
                    RunState::AwaitingSpeech { title: m.title },
                    RunAction::Synthesize {
                        sentences: m.summary,
                        apply_effect: plan.voice_edit_tool,
                    },
                )
            } else if !plan.video_editor {
                (
                    RunState::Failed { error: DirectorError::VideoEditor(VideoEditorError::Duration) },
                    RunAction::Abort {  },
                )
            } else {
                match (m.pics.len() as u64).checked_mul(2000) {
                    Some(d) => (
                        RunState::AwaitingVideo {
                            title: m.title,
                            dubbing_path: None,
                            subtitle_path: None,
                        },
                        RunAction::ComposeVideo { duration_ms: d },
                    ),
                    None => (
                        RunState::Failed {
                            error: DirectorError::VideoEditor(VideoEditorError::Duration),
                        },
                        RunAction::Abort {  },
                    ),
                }
            }
        },
    }
}

/// Takes the speech stage's answer — synthesis and the optional voice
/// effect both report through it — then composes the dubbing audio out of
/// the segments and asks for it to be stored. On segments whose
/// composition and rendering fit, the run always advances to the store;
/// it fails only on segments that are not encodable.
pub fn on_speech(plan: &StagePlan, state: RunState, res: Result<Vec<SpeechClip>, DirectorError>)
    -> (r: (RunState, RunAction))
    requires
        state is AwaitingSpeech,
        wf_run(*plan, state),
    ensures
        wf_run(*plan, r.0),
        !plan.subtitle ==> !(r.1 is StoreSubtitle),
        match res {
            Err(e) => (r.0 matches RunState::Failed { error } && error == e) && r.1 is Abort,
            Ok(clips) => {
                &&& (clips@.len() == 0 ==> (r.0 matches RunState::Failed { error } && error
                    == DirectorError::TTS(TTSError::EmptyText)) && r.1 is Abort)
                &&& (state matches RunState::AwaitingSpeech { title: t } ==> match (r.0, r.1) {
                    (
                        RunState::AwaitingDubbingStore { title, pairs, total_ms },
                        RunAction::StoreDubbing { wav, file_name },
                    ) => {
                        &&& title == t
                        &&& dubbing_encodable(clips@)
                        &&& dubbing_ok(clips@, pairs@, total_ms)
                        &&& wav@ == wav_render(
                            clips_rate(clips@),
                            clips_channels(clips@),
                            stitched_samples(
                                clips@,
                                clips@.len() as int,
                                silence_seq(clips_rate(clips@), clips_channels(clips@)),
                            ),
                        )
                        &&& file_name@.len() == 31
                        &&& file_name@.subrange(21, 31) == "-final.wav"@
                    },
                    (RunState::Failed { error }, RunAction::Abort {  }) => {
                        &&& !dubbing_encodable(clips@)
                        &&& (error == DirectorError::TTS(TTSError::EmptyText) || error
                            is WavReader)
                    },
                    _ => false,
                })
            },
        },
{
    let t = match state {
        RunState::AwaitingSpeech { title } => title,
        _ => vstd::pervasive::unreached(),
    };
    match res {
        Err(e) => (RunState::Failed { error: e }, RunAction::Abort {  }),
        Ok(clips) => {
            match compose_audio(&clips) {
                Err(de) => (RunState::Failed { error: de }, RunAction::Abort {  }),
                Ok(d) => {
                    proof {
                        reveal_strlit("-final.wav");
                    }
                    let file_name = unique_name(21, "-final.wav");
                    (
                        RunState::AwaitingDubbingStore {
                            title: t,
                            pairs: d.pairs,
                            total_ms: d.total_ms,
                        },
                        RunAction::StoreDubbing { wav: d.wav, file_name },
                    )
                },
            }
        },
    }
}

/// Takes the stored dubbing's path. With a subtitle writer configured the
/// run renders the time-coded document from the reported durations and
/// asks for it to be stored; otherwise it goes to the visual stage, whose
/// target duration is the dubbing's reported total.
pub fn on_dubbing_stored(plan: &StagePlan, state: RunState, res: Result<String, String>) -> (r: (
    RunState,
    RunAction,
))
    requires
        state is AwaitingDubbingStore,
        wf_run(*plan, state),
    ensures
        wf_run(*plan, r.0),
        !plan.subtitle ==> !(r.1 is StoreSubtitle),
        match res {
            Err(msg) => (r.0 matches RunState::Failed { error } && error == DirectorError::IO(msg))
                && r.1 is Abort,
            Ok(path) => state matches RunState::AwaitingDubbingStore { title: t, pairs: ps, total_ms: tot }
                ==> {
                if plan.subtitle {
                    match (r.0, r.1) {
                        (
                            RunState::AwaitingSubtitleStore { title, dubbing_path, total_ms },
                            RunAction::StoreSubtitle { content, file_name },
                        ) => {
                            &&& title == t
                            &&& dubbing_path == path
                            &&& total_ms == tot
                            &&& caption_times_fit(ps@)
                            &&& content@ == srt_document(ps@)
                            &&& file_name@.len() == 14
                            &&& file_name@.subrange(10, 14) == ".srt"@
                        },
                        (RunState::Failed { error }, RunAction::Abort {  }) => !caption_times_fit(
                            ps@,
                        ) && error is Subtitle,
                        _ => false,
                    }
                } else if !plan.video_editor {
                    (r.0 matches RunState::Failed { error } && error == DirectorError::VideoEditor(
                        VideoEditorError::Duration,
                    )) && r.1 is Abort
                } else {
                    (r.0 matches RunState::AwaitingVideo { title, dubbing_path, subtitle_path }
                        && title == t && dubbing_path == Some(path) && subtitle_path is None) && (
                    r.1 matches RunAction::ComposeVideo { duration_ms } && duration_ms == tot)
                }
            },
        },
{
    let (t, ps, tot) = match state {
        RunState::AwaitingDubbingStore { title, pairs, total_ms } => (title, pairs, total_ms),
        _ => vstd::pervasive::unreached(),
    };
    match res {
        Err(msg) => (RunState::Failed { error: DirectorError::IO(msg) }, RunAction::Abort {  }),
        Ok(path) => {
            if plan.subtitle {
                match SrtSubtitle::new().subtitle_content(&ps) {
                    Some(content) => {
                        proof {
                            reveal_strlit(".srt");
                        }
                        let file_name = unique_name(10, ".srt");
                        (
                            RunState::AwaitingSubtitleStore {
                                title: t,
                                dubbing_path: path,
                                total_ms: tot,
                            },
                            RunAction::StoreSubtitle { content, file_name },
                        )
                    },
                    None => (
                        RunState::Failed {
                            error: DirectorError::Subtitle(
                                SubtitleError::IO(String::from_str("caption times overflow")),
                            ),
                        },
                        RunAction::Abort {  },
                    ),
                }
            } else if !plan.video_editor {
                (
                    RunState::Failed { error: DirectorError::VideoEditor(VideoEditorError::Duration) },
                    RunAction::Abort {  },
                )
            } else {
                (
                    RunState::AwaitingVideo {
                        title: t,
                        dubbing_path: Some(path),
                        subtitle_path: None,
                    },
                    RunAction::ComposeVideo { duration_ms: tot },
                )
            }
        },
    }
}

/// Takes the stored subtitle's path and goes to the visual stage, whose
/// target duration is the dubbing's reported total.
pub fn on_subtitle_stored(plan: &StagePlan, state: RunState, res: Result<String, String>) -> (r: (
    RunState,
    RunAction,
))
    requires
        state is AwaitingSubtitleStore,
        wf_run(*plan, state),
    ensures
        wf_run(*plan, r.0),
        !(r.1 is StoreSubtitle),
        match res {
            Err(msg) => (r.0 matches RunState::Failed { error } && error == DirectorError::Subtitle(
                SubtitleError::IO(msg),
            )) && r.1 is Abort,
            Ok(spath) => state matches RunState::AwaitingSubtitleStore { title: t, dubbing_path: dp, total_ms: tot }
                ==> {
                if !plan.video_editor {
                    (r.0 matches RunState::Failed { error } && error == DirectorError::VideoEditor(
                        VideoEditorError::Duration,
                    )) && r.1 is Abort
                } else {
                    (r.0 matches RunState::AwaitingVideo { title, dubbing_path, subtitle_path }
                        && title == t && dubbing_path == Some(dp) && subtitle_path == Some(spath))
                        && (r.1 matches RunAction::ComposeVideo { duration_ms } && duration_ms
                        == tot)
                }
            },
        },
{
    let (t, dp, tot) = match state {
        RunState::AwaitingSubtitleStore { title, dubbing_path, total_ms } => (
            title,
            dubbing_path,
            total_ms,
        ),
        _ => vstd::pervasive::unreached(),
    };
    match res {
        Err(msg) => (
            RunState::Failed { error: DirectorError::Subtitle(SubtitleError::IO(msg)) },
            RunAction::Abort {  },
        ),
        Ok(spath) => {
            if !plan.video_editor {
                (
                    RunState::Failed { error: DirectorError::VideoEditor(VideoEditorError::Duration) },
                    RunAction::Abort {  },
                )
            } else {
                (
                    RunState::AwaitingVideo {
                        title: t,
                        dubbing_path: Some(dp),
                        subtitle_path: Some(spath),
                    },
                    RunAction::ComposeVideo { duration_ms: tot },
                )
            }
        },
    }
}

/// Takes the silent video's path. Muxing needs a configured mux tool and
/// a produced dubbing; the subtitle document is attached when one exists.
pub fn on_video(plan: &StagePlan, state: RunState, res: Result<String, VideoEditorError>) -> (r: (
    RunState,
    RunAction,
))
    requires
        state is AwaitingVideo,
        wf_run(*plan, state),
    ensures
        wf_run(*plan, r.0),
        !(r.1 is StoreSubtitle),
        match res {
            Err(e) => (r.0 matches RunState::Failed { error } && error == DirectorError::VideoEditor(
                e,
            )) && r.1 is Abort,
            Ok(vpath) => state matches RunState::AwaitingVideo { title: t, dubbing_path: dp, subtitle_path: sp }
                ==> {
                if !plan.compose_tool {
                    (r.0 matches RunState::Failed { error } && error matches DirectorError::ComposeTool(
                        ComposeToolError::Fail(m),
                    ) && m@ == "compose tool has not set"@) && r.1 is Abort
                } else {
                    match dp {
                        Option::None => (r.0 matches RunState::Failed { error } && error matches
                            DirectorError::ComposeTool(ComposeToolError::Fail(m)) && m@
                            == "no dubbing produced"@) && r.1 is Abort,
                        Option::Some(d) => (r.0 matches RunState::AwaitingMux { title } && title
                            == t) && (r.1 matches RunAction::Mux {
                            video_path,
                            dubbing_path,
                            subtitle_path,
                            output_name,
                        } && video_path == vpath && dubbing_path == d && subtitle_path == sp
                            && output_name@.len() == 31 && output_name@.subrange(21, 31)
                            == "-final.mp4"@),
                    }
                }
            },
        },
{
    let (t, dp, sp) = match state {
        RunState::AwaitingVideo { title, dubbing_path, subtitle_path } => (
            title,
            dubbing_path,
            subtitle_path,
        ),
        _ => vstd::pervasive::unreached(),
    };
    match res {
        Err(e) => (RunState::Failed { error: DirectorError::VideoEditor(e) }, RunAction::Abort {  }),
        Ok(vpath) => {
            if !plan.compose_tool {
                (
                    RunState::Failed {
                        error: DirectorError::ComposeTool(
                            ComposeToolError::Fail(String::from_str("compose tool has not set")),
                        ),
                    },
                    RunAction::Abort {  },
                )
            } else {
                match dp {
                    None => (
                        RunState::Failed {
                            error: DirectorError::ComposeTool(
                                ComposeToolError::Fail(String::from_str("no dubbing produced")),
                            ),
                        },
                        RunAction::Abort {  },
                    ),
                    Some(d) => {
                        proof {
                            reveal_strlit("-final.mp4");
                        }
                        let output_name = unique_name(21, "-final.mp4");
                        (
                            RunState::AwaitingMux { title: t },
                            RunAction::Mux {
                                video_path: vpath,
                                dubbing_path: d,
                                subtitle_path: sp,
                                output_name,
                            },
                        )
                    },
                }
            }
        },
    }
}

/// Takes the muxer's answer and closes the run: the final artifact and
/// the title are handed to the caller, who owns them thereafter.
pub fn on_mux(plan: &StagePlan, state: RunState, res: Result<String, ComposeToolError>) -> (r: (
    RunState,
    RunAction,
))
    requires
        state is AwaitingMux,
        wf_run(*plan, state),
    ensures
        wf_run(*plan, r.0),
        !(r.1 is StoreSubtitle),
        match res {
            Err(e) => (r.0 matches RunState::Failed { error } && error == DirectorError::ComposeTool(
                e,
            )) && r.1 is Abort,
            Ok(p) => state matches RunState::AwaitingMux { title: t } ==> (r.0 matches
                RunState::Done { result } && result.title == t && result.path == p) && r.1
                is Finish,
        },
{
    let t = match state {
        RunState::AwaitingMux { title } => title,
        _ => vstd::pervasive::unreached(),
    };
    match res {
        Err(e) => (
            RunState::Failed { error: DirectorError::ComposeTool(e) },
            RunAction::Abort {  },
        ),
        Ok(p) => (
            RunState::Done { result: NewsShortVideo { title: t, path: p } },
            RunAction::Finish {  },
        ),
    }
}

} // verus!
