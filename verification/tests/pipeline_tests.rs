use news_director::director::run::{
    on_dubbing_stored, on_material, on_mux, on_speech, on_subtitle_stored, on_video, RunAction,
    RunState, SpeechClip,
};
use news_director::director::{DirectorError, StagePlan};
use news_director::mpeg::{ComposeToolError, VideoEditToolError};
use news_director::news::{NewsMaterial, NewsMaterialError};
use news_director::subtitle::SubtitleError;
use news_director::tts::TTSError;
use news_director::video::VideoEditorError;

fn full_plan() -> StagePlan {
    StagePlan {
        tts: true,
        subtitle: true,
        video_editor: true,
        voice_edit_tool: false,
        compose_tool: true,
    }
}

fn two_image_material() -> NewsMaterial {
    NewsMaterial {
        title: "TITLE".to_string(),
        summary: vec!["First sentence".to_string(), "Second sentence".to_string()],
        pics: vec!["pic1".to_string(), "pic2".to_string()],
        videos: vec![],
    }
}

fn make_wav(sample_rate: u32, per_channel: u32) -> Vec<u8> {
    let spec = hound::WavSpec {
        channels: 1,
        sample_rate,
        bits_per_sample: 16,
        sample_format: hound::SampleFormat::Int,
    };
    let mut cursor = std::io::Cursor::new(Vec::new());
    {
        let mut writer = hound::WavWriter::new(&mut cursor, spec).unwrap();
        for _ in 0..per_channel {
            writer.write_sample(0i16).unwrap();
        }
        writer.finalize().unwrap();
    }
    cursor.into_inner()
}

#[test]
fn end_to_end_with_speech_and_subtitles() {
    let plan = full_plan();

    // Material arrives: the run asks for speech over the two sentences.
    let (state, action) =
        on_material(&plan, RunState::AwaitingMaterial {}, Ok(two_image_material()));
    match &action {
        RunAction::Synthesize { sentences, apply_effect } => {
            assert_eq!(sentences.len(), 2);
            assert!(!apply_effect);
        }
        _ => panic!("expected a synthesis request"),
    }

    // Speech arrives as a 1 s and a 1.5 s segment: the dubbing reports
    // 2.5 s in total and is handed out for storage.
    let clips = vec![
        SpeechClip { text: "First sentence".to_string(), wav: make_wav(8000, 8000) },
        SpeechClip { text: "Second sentence".to_string(), wav: make_wav(8000, 12000) },
    ];
    let (state, action) = on_speech(&plan, state, Ok(clips));
    let dubbing_name = match &action {
        RunAction::StoreDubbing { wav, file_name } => {
            assert!(!wav.is_empty());
            assert_eq!(file_name.len(), 31);
            assert!(file_name.ends_with("-final.wav"));
            file_name.clone()
        }
        _ => panic!("expected a dubbing store request"),
    };
    match &state {
        RunState::AwaitingDubbingStore { total_ms, pairs, .. } => {
            assert_eq!(*total_ms, 2500);
            assert_eq!(pairs.len(), 2);
        }
        _ => panic!("expected the dubbing-store state"),
    }

    // The dubbing is stored: the subtitle document is rendered with the
    // captions at [0, 1] and [1.2, 2.7] seconds.
    let (state, action) = on_dubbing_stored(&plan, state, Ok(dubbing_name));
    match &action {
        RunAction::StoreSubtitle { content, file_name } => {
            assert_eq!(
                content,
                "1\n00:00:00,000 --> 00:00:01,000\nFirst sentence\n\n\
                 2\n00:00:01,200 --> 00:00:02,700\nSecond sentence\n\n"
            );
            assert_eq!(file_name.len(), 14);
            assert!(file_name.ends_with(".srt"));
        }
        _ => panic!("expected a subtitle store request"),
    }

    // The subtitle is stored: the visual stage is asked for a 2.5 s video.
    let (state, action) = on_subtitle_stored(&plan, state, Ok("subs.srt".to_string()));
    match &action {
        RunAction::ComposeVideo { duration_ms } => assert_eq!(*duration_ms, 2500),
        _ => panic!("expected a video request"),
    }

    // The silent video arrives: everything is muxed together.
    let (state, action) = on_video(&plan, state, Ok("silent.mp4".to_string()));
    match &action {
        RunAction::Mux { video_path, dubbing_path, subtitle_path, output_name } => {
            assert_eq!(video_path, "silent.mp4");
            assert!(dubbing_path.ends_with("-final.wav"));
            assert_eq!(subtitle_path.as_deref(), Some("subs.srt"));
            assert!(output_name.ends_with("-final.mp4"));
        }
        _ => panic!("expected a mux request"),
    }

    // The muxer finishes: the run closes with the final artifact.
    let (state, action) = on_mux(&plan, state, Ok("out/final.mp4".to_string()));
    assert!(matches!(action, RunAction::Finish {}));
    match state {
        RunState::Done { result } => {
            assert_eq!(result.title, "TITLE");
            assert_eq!(result.path, "out/final.mp4");
        }
        _ => panic!("expected the run to be done"),
    }
}

#[test]
fn no_subtitle_writer_never_stores_a_subtitle() {
    let plan = StagePlan { subtitle: false, ..full_plan() };

    let (state, _) = on_material(&plan, RunState::AwaitingMaterial {}, Ok(two_image_material()));
    let clips = vec![SpeechClip { text: "First sentence".to_string(), wav: make_wav(8000, 8000) }];
    let (state, action) = on_speech(&plan, state, Ok(clips));
    assert!(matches!(action, RunAction::StoreDubbing { .. }));

    // With no writer, the run goes straight from the stored dubbing to the
    // visual stage; no subtitle document is ever produced.
    let (state, action) = on_dubbing_stored(&plan, state, Ok("dub.wav".to_string()));
    match &action {
        RunAction::ComposeVideo { duration_ms } => assert_eq!(*duration_ms, 1000),
        _ => panic!("expected a video request, not a subtitle"),
    }
    match &state {
        RunState::AwaitingVideo { subtitle_path, dubbing_path, .. } => {
            assert!(subtitle_path.is_none());
            assert_eq!(dubbing_path.as_deref(), Some("dub.wav"));
        }
        _ => panic!("expected the video state"),
    }
}

#[test]
fn subtitle_writer_without_speech_never_stores_a_subtitle() {
    let plan = StagePlan { tts: false, ..full_plan() };

    // Without a synthesizer the run never asks for speech, so there is no
    // timing data and no subtitle: the visual stage is asked directly,
    // with the two-seconds-per-image heuristic.
    let (state, action) = on_material(&plan, RunState::AwaitingMaterial {}, Ok(two_image_material()));
    match &action {
        RunAction::ComposeVideo { duration_ms } => assert_eq!(*duration_ms, 4000),
        _ => panic!("expected a video request, not speech or a subtitle"),
    }
    match &state {
        RunState::AwaitingVideo { subtitle_path, dubbing_path, .. } => {
            assert!(subtitle_path.is_none());
            assert!(dubbing_path.is_none());
        }
        _ => panic!("expected the video state"),
    }

    // Muxing then fails: the final cut needs a dubbing.
    let (state, action) = on_video(&plan, state, Ok("silent.mp4".to_string()));
    assert!(matches!(action, RunAction::Abort {}));
    match state {
        RunState::Failed { error: DirectorError::ComposeTool(_) } => {}
        _ => panic!("expected the muxing precondition failure"),
    }
}

#[test]
fn extraction_failure_aborts_the_run() {
    let plan = full_plan();
    let (state, action) = on_material(
        &plan,
        RunState::AwaitingMaterial {},
        Err(NewsMaterialError::Extraction("page gone".to_string())),
    );
    assert!(matches!(action, RunAction::Abort {}));
    assert!(matches!(state, RunState::Failed { error: DirectorError::Material(_) }));
}

#[test]
fn missing_video_editor_is_a_duration_failure() {
    let plan = StagePlan { tts: false, video_editor: false, ..full_plan() };
    let (state, action) = on_material(&plan, RunState::AwaitingMaterial {}, Ok(two_image_material()));
    assert!(matches!(action, RunAction::Abort {}));
    match state {
        RunState::Failed { error: DirectorError::VideoEditor(VideoEditorError::Duration) } => {}
        _ => panic!("expected the duration failure"),
    }
}

#[test]
fn missing_compose_tool_fails_before_muxing() {
    let plan = StagePlan { compose_tool: false, tts: false, subtitle: false, ..full_plan() };
    let (state, _) = on_material(&plan, RunState::AwaitingMaterial {}, Ok(two_image_material()));
    let (state, action) = on_video(&plan, state, Ok("silent.mp4".to_string()));
    assert!(matches!(action, RunAction::Abort {}));
    assert!(matches!(state, RunState::Failed { error: DirectorError::ComposeTool(_) }));
}

#[test]
fn each_stage_failure_carries_its_stage() {
    let plan = full_plan();

    // A network failure in the speech stage.
    let (state, _) = on_material(&plan, RunState::AwaitingMaterial {}, Ok(two_image_material()));
    let (failed, _) = on_speech(
        &plan,
        state,
        Err(DirectorError::TTS(TTSError::Network("timed out".to_string()))),
    );
    assert!(matches!(
        failed,
        RunState::Failed { error: DirectorError::TTS(TTSError::Network(_)) }
    ));

    // A failure of the voice-effect tool.
    let (state, _) = on_material(&plan, RunState::AwaitingMaterial {}, Ok(two_image_material()));
    let (failed, _) = on_speech(
        &plan,
        state,
        Err(DirectorError::VideoEditorTool(VideoEditToolError::Init("no ffmpeg".to_string()))),
    );
    assert!(matches!(failed, RunState::Failed { error: DirectorError::VideoEditorTool(_) }));

    // A failure storing the dubbing file.
    let state = RunState::AwaitingDubbingStore { title: "t".to_string(), pairs: vec![], total_ms: 0 };
    let (failed, _) = on_dubbing_stored(&plan, state, Err("disk full".to_string()));
    match failed {
        RunState::Failed { error: DirectorError::IO(msg) } => assert_eq!(msg, "disk full"),
        _ => panic!("expected an io failure"),
    }

    // A failure storing the subtitle document.
    let state = RunState::AwaitingSubtitleStore {
        title: "t".to_string(),
        dubbing_path: "dub.wav".to_string(),
        total_ms: 0,
    };
    let (failed, _) = on_subtitle_stored(&plan, state, Err("disk full".to_string()));
    assert!(matches!(
        failed,
        RunState::Failed { error: DirectorError::Subtitle(SubtitleError::IO(_)) }
    ));

    // A failure in the visual stage.
    let state = RunState::AwaitingVideo {
        title: "t".to_string(),
        dubbing_path: Some("dub.wav".to_string()),
        subtitle_path: None,
    };
    let (failed, _) = on_video(
        &plan,
        state,
        Err(VideoEditorError::NetWork("image gone".to_string())),
    );
    assert!(matches!(
        failed,
        RunState::Failed { error: DirectorError::VideoEditor(VideoEditorError::NetWork(_)) }
    ));

    // A failure in the final mux.
    let state = RunState::AwaitingMux { title: "t".to_string() };
    let (failed, _) = on_mux(&plan, state, Err(ComposeToolError::Fail("bad input".to_string())));
    assert!(matches!(
        failed,
        RunState::Failed { error: DirectorError::ComposeTool(ComposeToolError::Fail(_)) }
    ));
}

#[test]
fn empty_speech_aborts_the_run() {
    let plan = full_plan();
    let (state, _) = on_material(&plan, RunState::AwaitingMaterial {}, Ok(two_image_material()));
    let (state, action) = on_speech(&plan, state, Ok(vec![]));
    assert!(matches!(action, RunAction::Abort {}));
    match state {
        RunState::Failed { error: DirectorError::TTS(news_director::tts::TTSError::EmptyText) } => {}
        _ => panic!("expected the empty-input failure"),
    }
}
