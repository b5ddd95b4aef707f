use vstd::prelude::*;

verus! {

/// Capability contract for the external tool that turns a list of still
/// images into a silent video clip.
pub trait VideoEditTool {
    fn compose_images(&self, file_list_path: &str, output: &str) -> Result<(), VideoEditToolError>;
}

#[derive(Debug)]
pub enum VideoEditToolError {
    Init(String),
}

/// Capability contract for the external tool that applies the voice effect
/// to one audio file, writing the transformed audio to a second file.
pub trait VoiceEditTool {
    fn cartoned_voice(&self, input: &str, output: &str) -> Result<(), VideoEditToolError>;
}

#[derive(Debug)]
pub enum VoiceEditToolError {
    Voice(String),
}

/// Capability contract for the external tool that muxes the silent video,
/// the dubbing audio and the subtitle document into the final artifact.
pub trait ComposeTool {
    fn compose_all(
        &self,
        video_input: &str,
        voice_input: &str,
        subtitle_input: &str,
        output: &str,
    ) -> Result<(), ComposeToolError>;
}

#[derive(Debug)]
pub enum ComposeToolError {
    Fail(String),
}

} // verus!
