use vstd::prelude::*;

verus! {

/// Decoded 16-bit integer pulse-code audio: sample rate, channel count,
/// and the interleaved samples.
pub struct WavAudio {
    pub sample_rate: u32,
    pub channels: u16,
    pub samples: Vec<i16>,
}

/// The mathematical value of a decoded audio clip.
pub struct WavAudioView {
    pub sample_rate: u32,
    pub channels: u16,
    pub samples: Seq<i16>,
}

impl View for WavAudio {
    type V = WavAudioView;

    open spec fn view(&self) -> WavAudioView {
        WavAudioView {
            sample_rate: self.sample_rate,
            channels: self.channels,
            samples: self.samples@,
        }
    }
}

/// What decoding a WAV byte stream as 16-bit integer pulse-code audio
/// yields: a function of the bytes alone; `None` where the bytes do not
/// form such audio.
pub uninterp spec fn wav_parse(bytes: Seq<u8>) -> Option<WavAudioView>;

/// The WAV byte stream that renders the given 16-bit integer pulse-code
/// audio: a function of rate, channel count and samples alone.
pub uninterp spec fn wav_render(sample_rate: u32, channels: u16, samples: Seq<i16>) -> Seq<u8>;

/// The playback duration in milliseconds: per-channel sample count over
/// the sample rate. Meaningful only when rate and channel count are
/// positive.
pub open spec fn wav_duration_ms(w: WavAudioView) -> int {
    ((w.samples.len() as int / w.channels as int) * 1000) / (w.sample_rate as int)
}

/// Relies on hound::WavReader, reading every sample as a 16-bit integer:
/// parsing a WAV held in memory is a function of the bytes alone. Audio
/// whose samples do not fit that reading — wider or floating-point
/// formats — is reported as undecodable by the sample iterator itself.
/// The reader refuses zero channels and a sample count that is not a
/// multiple of the channel count, so decoded audio always has whole
/// inter-channel samples.
#[verifier::external_body]
pub(crate) fn decode_wav(bytes: &Vec<u8>) -> (r: Result<WavAudio, String>)
    ensures
        match r {
            Ok(w) => {
                &&& wav_parse(bytes@) == Some(w@)
                &&& w@.channels >= 1
                &&& w@.samples.len() as int % (w@.channels as int) == 0
            },
            Err(_) => wav_parse(bytes@) is None,
        },
{
    let mut reader = hound::WavReader::new(std::io::Cursor::new(bytes)).map_err(|e| e.to_string())?;
    let spec = reader.spec();
    let samples: Result<Vec<i16>, hound::Error> = reader.samples::<i16>().collect();
    match samples {
        Ok(samples) => Ok(WavAudio { sample_rate: spec.sample_rate, channels: spec.channels, samples }),
        Err(e) => Err(e.to_string()),
    }
}

/// Relies on hound::WavWriter over an in-memory cursor, whose writes and
/// seeks cannot fail: rendering 16-bit integer pulse-code audio to WAV
/// bytes is a function of rate, channel count and samples alone, and
/// succeeds whenever the writer's 32-bit header fields stay in range —
/// the byte rate (rate times two bytes times channels), and the data
/// bytes plus the larger header form's sixty — and the sample count
/// covers every channel, which the writer checks on finalizing.
#[verifier::external_body]
pub(crate) fn encode_wav(sample_rate: u32, channels: u16, samples: &Vec<i16>) -> (r: Vec<u8>)
    requires
        sample_rate >= 1,
        channels >= 1,
        sample_rate as int * 2 * (channels as int) <= u32::MAX,
        samples@.len() * 2 + 60 <= u32::MAX,
        samples@.len() as int % (channels as int) == 0,
    ensures
        r@ == wav_render(sample_rate, channels, samples@),
{
    let spec = hound::WavSpec {
        channels,
        sample_rate,
        bits_per_sample: 16,
        sample_format: hound::SampleFormat::Int,
    };
    let mut cursor = std::io::Cursor::new(Vec::new());
    let mut writer =
        hound::WavWriter::new(&mut cursor, spec).expect("writing the header cannot fail");
    for s in samples.iter() {
        writer.write_sample(*s).expect("writing a sample cannot fail");
    }
    writer.finalize().expect("finalizing the header cannot fail");
    cursor.into_inner()
}

} // verus!
