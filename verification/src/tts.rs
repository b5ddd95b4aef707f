use vstd::prelude::*;
use vstd::string::StringExecFns;
use crate::wav::{wav_parse, wav_duration_ms, decode_wav};

verus! {

/// Capability contract for the speech stage: synthesizes one audio file per
/// sentence, each with its source text and measured duration.
pub trait TTSService {
    fn tts(&self, text_list: &Vec<String>) -> Result<Vec<TTSFile>, TTSError>;
}

/// One synthesized speech segment: where its audio file lives, the text it
/// speaks, and its measured duration in milliseconds.
pub struct TTSFile {
    pub path: String,
    pub text: String,
    pub duration: u64,
}

#[derive(Debug)]
pub enum TTSError {
    NoSet,
    HandleFailed(String),
    EmptyText,
    Network(String),
    IO(String),
}

/// The audio playback duration in milliseconds of a WAV held in memory:
/// the per-channel sample count divided by the sample rate.
pub fn get_wav_len(wav: &Vec<u8>) -> (r: Result<u64, TTSError>)
    ensures
        match r {
            Ok(ms) => {
                &&& wav_parse(wav@) matches Some(w)
                &&& w.channels > 0
                &&& w.sample_rate > 0
                &&& ms == wav_duration_ms(w)
            },
            Err(e) => {
                &&& e is HandleFailed
                &&& match wav_parse(wav@) {
                    Option::None => true,
                    Option::Some(w) => w.channels == 0 || w.sample_rate == 0 || wav_duration_ms(w)
                        > u64::MAX,
                }
            },
        },
{
    let audio = match decode_wav(wav) {
        Ok(a) => a,
        Err(msg) => {
            return Err(TTSError::HandleFailed(msg));
        },
    };
    if audio.channels == 0 || audio.sample_rate == 0 {
        return Err(TTSError::HandleFailed(String::from_str("unsupported sample spec")));
    }
    let per_channel: usize = audio.samples.len() / (audio.channels as usize);
    let ms: u128 = (per_channel as u128) * 1000 / (audio.sample_rate as u128);
    if ms > u64::MAX as u128 {
        return Err(TTSError::HandleFailed(String::from_str("audio too long")));
    }
    Ok(ms as u64)
}

} // verus!
