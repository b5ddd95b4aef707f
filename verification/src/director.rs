use vstd::prelude::*;
use vstd::string::StringExecFns;

pub mod run;
pub mod source;

verus! {

use crate::director::source::SourceName;
use crate::mpeg::{ComposeToolError, VideoEditToolError, VoiceEditToolError};
use crate::news::{NewsMaterialError, NewsTitle};
use crate::subtitle::{Subtitle, SubtitleError};
use crate::tts::{TTSError, TTSService};
use crate::video::{VideoEditor, VideoEditorError};
use crate::mpeg::{ComposeTool, VideoEditTool, VoiceEditTool};

/// The unified failure of one production run: the first error any stage
/// reported, wrapped with the stage it came from.
#[derive(Debug)]
pub enum DirectorError {
    Source(String),
    Material(NewsMaterialError),
    TTS(TTSError),
    Subtitle(SubtitleError),
    IO(String),
    VideoEditor(VideoEditorError),
    VideoEditorTool(VideoEditToolError),
    VoiceEditorTool(VoiceEditToolError),
    ComposeTool(ComposeToolError),
    WavReader(String),
}

/// The terminal output of one successful run: the final artifact and the
/// title to show for it.
pub struct NewsShortVideo {
    pub title: String,
    pub path: String,
}

pub type DirectorResult<T> = Result<T, DirectorError>;

/// Which optional stages a director was configured with. The extractor is
/// mandatory and has no flag; every other role is optional.
pub struct StagePlan {
    pub tts: bool,
    pub subtitle: bool,
    pub video_editor: bool,
    pub voice_edit_tool: bool,
    pub compose_tool: bool,
}

/// The orchestrator: it knows the registered content sources and holds at
/// most one implementation of each optional stage, bound at construction
/// time. The sources are registered by name; the application binds each
/// name to its crawler and extractor.
pub struct Director<T, S, V, W, C> {
    pub sources: Vec<SourceName>,
    pub deepseek_api_key: String,
    pub tts: Option<T>,
    pub subtitle: Option<S>,
    pub video_editor: Option<V>,
    pub voice_edit_tool: Option<W>,
    pub compose_tool: Option<C>,
}

impl Director<(), (), (), (), ()> {
    pub fn new(deepseek_api_key: String) -> (r: Self)
        ensures
            r.sources@.len() == 1,
            r.sources@[0]@ == "pengpai"@,
            r.deepseek_api_key@ == deepseek_api_key@,
            r.tts is None,
            r.subtitle is None,
            r.video_editor is None,
            r.voice_edit_tool is None,
            r.compose_tool is None,
    {
        Self {
            sources: Self::get_all_sources(),
            deepseek_api_key,
            tts: None,
            subtitle: None,
            video_editor: None,
            voice_edit_tool: None,
            compose_tool: None,
        }
    }

    fn get_all_sources() -> (r: Vec<SourceName>)
        ensures
            r@.len() == 1,
            r@[0]@ == "pengpai"@,
    {
        let mut sources: Vec<SourceName> = Vec::new();
        sources.push(String::from_str(crate::news::pengpai_news::SOURCE_NAME));
        sources
    }
}

impl<T, S, V, W, C> Director<T, S, V, W, C> {
    /// Which stages this director has.
    pub open spec fn spec_plan(&self) -> StagePlan {
        StagePlan {
            tts: self.tts is Some,
            subtitle: self.subtitle is Some,
            video_editor: self.video_editor is Some,
            voice_edit_tool: self.voice_edit_tool is Some,
            compose_tool: self.compose_tool is Some,
        }
    }

    pub fn plan(&self) -> (r: StagePlan)
        ensures
            r == self.spec_plan(),
    {
        StagePlan {
            tts: self.tts.is_some(),
            subtitle: self.subtitle.is_some(),
            video_editor: self.video_editor.is_some(),
            voice_edit_tool: self.voice_edit_tool.is_some(),
            compose_tool: self.compose_tool.is_some(),
        }
    }

    pub fn with_tts<T2: TTSService>(self, tts: T2) -> (r: Director<T2, S, V, W, C>)
        ensures
            r.tts == Some(tts),
            r.sources == self.sources,
            r.deepseek_api_key == self.deepseek_api_key,
            r.subtitle == self.subtitle,
            r.video_editor == self.video_editor,
            r.voice_edit_tool == self.voice_edit_tool,
            r.compose_tool == self.compose_tool,
    {
        Director {
            sources: self.sources,
            deepseek_api_key: self.deepseek_api_key,
            tts: Some(tts),
            subtitle: self.subtitle,
            video_editor: self.video_editor,
            voice_edit_tool: self.voice_edit_tool,
            compose_tool: self.compose_tool,
        }
    }

    pub fn with_subtitle<S2: Subtitle>(self, subtitle: S2) -> (r: Director<T, S2, V, W, C>)
        ensures
            r.subtitle == Some(subtitle),
            r.sources == self.sources,
            r.deepseek_api_key == self.deepseek_api_key,
            r.tts == self.tts,
            r.video_editor == self.video_editor,
            r.voice_edit_tool == self.voice_edit_tool,
            r.compose_tool == self.compose_tool,
    {
        Director {
            sources: self.sources,
            deepseek_api_key: self.deepseek_api_key,
            tts: self.tts,
            subtitle: Some(subtitle),
            video_editor: self.video_editor,
            voice_edit_tool: self.voice_edit_tool,
            compose_tool: self.compose_tool,
        }
    }

    pub fn with_voice_edit_tool<W2: VoiceEditTool>(self, tool: W2) -> (r: Director<T, S, V, W2, C>)
        ensures
            r.voice_edit_tool == Some(tool),
            r.sources == self.sources,
            r.deepseek_api_key == self.deepseek_api_key,
            r.tts == self.tts,
            r.subtitle == self.subtitle,
            r.video_editor == self.video_editor,
            r.compose_tool == self.compose_tool,
    {
        Director {
            sources: self.sources,
            deepseek_api_key: self.deepseek_api_key,
            tts: self.tts,
            subtitle: self.subtitle,
            video_editor: self.video_editor,
            voice_edit_tool: Some(tool),
            compose_tool: self.compose_tool,
        }
    }

    pub fn with_compose_tool<C2: ComposeTool>(self, tool: C2) -> (r: Director<T, S, V, W, C2>)
        ensures
            r.compose_tool == Some(tool),
            r.sources == self.sources,
            r.deepseek_api_key == self.deepseek_api_key,
            r.tts == self.tts,
            r.subtitle == self.subtitle,
            r.video_editor == self.video_editor,
            r.voice_edit_tool == self.voice_edit_tool,
    {
        Director {
            sources: self.sources,
            deepseek_api_key: self.deepseek_api_key,
            tts: self.tts,
            subtitle: self.subtitle,
            video_editor: self.video_editor,
            voice_edit_tool: self.voice_edit_tool,
            compose_tool: Some(tool),
        }
    }

    pub fn with_video_editor<V2: VideoEditor>(self, video_editor: V2) -> (r: Director<
        T,
        S,
        V2,
        W,
        C,
    >)
        ensures
            r.video_editor == Some(video_editor),
            r.sources == self.sources,
            r.deepseek_api_key == self.deepseek_api_key,
            r.tts == self.tts,
            r.subtitle == self.subtitle,
            r.voice_edit_tool == self.voice_edit_tool,
            r.compose_tool == self.compose_tool,
    {
        Director {
            sources: self.sources,
            deepseek_api_key: self.deepseek_api_key,
            tts: self.tts,
            subtitle: self.subtitle,
            video_editor: Some(video_editor),
            voice_edit_tool: self.voice_edit_tool,
            compose_tool: self.compose_tool,
        }
    }

    /// Whether a source of this name is registered. Listing content for an
    /// unknown source yields an empty list; producing from one fails.
    pub fn has_source(&self, name: &String) -> (r: bool)
        ensures
            r == (exists|j: int|
                0 <= j < self.sources@.len() && #[trigger] self.sources@[j]@ == name@),
    {
        let n = self.sources.len();
        let mut i: usize = 0;
        while i < n
            invariant
                0 <= i <= n,
                n == self.sources@.len(),
                forall|j: int| 0 <= j < i ==> #[trigger] self.sources@[j]@ != name@,
            decreases n - i,
        {
            if self.sources[i].eq(name) {
                return true;
            }
            i = i + 1;
        }
        false
    }

    /// Opens one production run for the given piece of content: asks for
    /// its material when its source is registered, and fails the run with
    /// a source error otherwise.
    pub fn begin_run(&self, news_title: NewsTitle) -> (r: (run::RunState, run::RunAction))
        ensures
            run::wf_run(self.spec_plan(), r.0),
            (exists|j: int|
                0 <= j < self.sources@.len() && #[trigger] self.sources@[j]@
                    == news_title.source@) ==> {
                &&& r.0 is AwaitingMaterial
                &&& (r.1 matches run::RunAction::ExtractMaterial { news } && news == news_title)
            },
            !(exists|j: int|
                0 <= j < self.sources@.len() && #[trigger] self.sources@[j]@
                    == news_title.source@) ==> {
                &&& (r.0 matches run::RunState::Failed { error } && error matches
                    DirectorError::Source(msg) && msg@ == "Failed to find source: "@
                    + news_title.source@)
                &&& r.1 is Abort
            },
    {
        if self.has_source(&news_title.source) {
            (run::RunState::AwaitingMaterial {  }, run::RunAction::ExtractMaterial {
                news: news_title,
            })
        } else {
            let mut msg = String::from_str("Failed to find source: ");
            msg.append(news_title.source.as_str());
            (
                run::RunState::Failed { error: DirectorError::Source(msg) },
                run::RunAction::Abort {  },
            )
        }
    }
}

} // verus!
