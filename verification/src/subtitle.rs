use vstd::prelude::*;

pub mod srt;

verus! {

/// One caption: the sentence it shows and how long it stays on screen,
/// in milliseconds. The duration is the spoken segment's own length; the
/// fixed inter-caption gap is added by the timing generator, not stored here.
pub struct SingleSubtitle {
    pub text: String,
    pub duration: u64,
}

#[derive(Debug)]
pub enum SubtitleError {
    IO(String),
}

/// A stored subtitle document: the path of the file that holds it.
pub type SubtitleResult = Result<String, SubtitleError>;

/// Capability contract for the subtitle stage: renders the captions into a
/// time-coded document and stores it, returning where it was stored.
pub trait Subtitle {
    fn write_subtitle(&self, subtitles: &Vec<SingleSubtitle>) -> SubtitleResult;
}

} // verus!
