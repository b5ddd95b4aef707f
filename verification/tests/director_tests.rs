use news_director::config::GlobalConfig;
use news_director::director::run::{RunAction, RunState};
use news_director::director::{Director, DirectorError};
use news_director::news::pengpai_news::{PengPaiHotNews, Video};
use news_director::news::{NewsMaterial, NewsTitle};
use news_director::subtitle::{SingleSubtitle, Subtitle, SubtitleResult};
use news_director::tts::{TTSError, TTSFile, TTSService};
use news_director::video::{VideoEditor, VideoEditorResult};

#[test]
fn new_director() {
    let director = Director::new("Fake DeepSeek API Key".to_string());

    assert_eq!(1, director.sources.len());
    assert!(director.tts.is_none());
    assert!(director.subtitle.is_none());
    assert!(director.video_editor.is_none());
}

#[test]
fn new_director_with_compoments() {
    struct FakeTTS;
    impl TTSService for FakeTTS {
        fn tts(&self, _: &Vec<String>) -> Result<Vec<TTSFile>, TTSError> {
            unreachable!();
        }
    }

    let director = Director::new("Fake DeepSeek API Key".to_string()).with_tts(FakeTTS);
    assert!(director.tts.is_some());

    struct FakeSubtitle;
    impl Subtitle for FakeSubtitle {
        fn write_subtitle(&self, _: &Vec<SingleSubtitle>) -> SubtitleResult {
            unreachable!();
        }
    }
    let director = Director::new("Fake DeepSeek API Key".to_string()).with_subtitle(FakeSubtitle);
    assert!(director.subtitle.is_some());

    struct FakeVideoEditor;
    impl VideoEditor for FakeVideoEditor {
        fn do_edit(&self, _: &NewsMaterial, _: u64) -> VideoEditorResult<String> {
            unreachable!();
        }
    }
    let director =
        Director::new("Fake DeepSeek API Key".to_string()).with_video_editor(FakeVideoEditor);
    assert!(director.video_editor.is_some());
}

fn sample_title(source: &str) -> NewsTitle {
    NewsTitle {
        source: source.to_string(),
        title: "TITLE".to_string(),
        url: "https://example.invalid/article".to_string(),
        pics: vec!["pic1".to_string()],
        videos: vec![],
    }
}

#[test]
fn director_knows_its_sources() {
    let director = Director::new("key".to_string());
    assert!(director.has_source(&"pengpai".to_string()));
    assert!(!director.has_source(&"unknown".to_string()));
}

#[test]
fn begin_run_with_known_source() {
    let director = Director::new("key".to_string());
    let (state, action) = director.begin_run(sample_title("pengpai"));
    assert!(matches!(state, RunState::AwaitingMaterial {}));
    match action {
        RunAction::ExtractMaterial { news } => assert_eq!(news.title, "TITLE"),
        _ => panic!("expected an extraction request"),
    }
}

#[test]
fn begin_run_with_unknown_source() {
    let director = Director::new("key".to_string());
    let (state, action) = director.begin_run(sample_title("somewhere"));
    match state {
        RunState::Failed { error: DirectorError::Source(msg) } => {
            assert_eq!(msg, "Failed to find source: somewhere");
        }
        _ => panic!("expected a source failure"),
    }
    assert!(matches!(action, RunAction::Abort {}));
}

#[test]
fn config_hands_back_its_settings() {
    let config = GlobalConfig::new(
        "https://tts.example.invalid".to_string(),
        "ali-key".to_string(),
        "deepseek-key".to_string(),
    );
    assert_eq!(config.get_tts_url(), "https://tts.example.invalid");
    assert_eq!(config.get_ali_dashscope_api_key(), "ali-key");
    assert_eq!(config.get_deepseek_api_key(), "deepseek-key");
}

#[test]
fn hot_news_without_video() {
    let entry = PengPaiHotNews {
        cont_id: "31415926".to_string(),
        name: "Some headline".to_string(),
        cover: "https://img.example.invalid/cover.jpg".to_string(),
        videos: None,
    };
    let title = entry.to_hot_news();
    assert_eq!(title.source, "pengpai");
    assert_eq!(title.title, "Some headline");
    assert_eq!(title.url, "https://www.thepaper.cn/newsDetail_forward_31415926");
    assert_eq!(title.pics, vec!["https://img.example.invalid/cover.jpg".to_string()]);
    assert!(title.videos.is_empty());
}

#[test]
fn hot_news_with_video() {
    let entry = PengPaiHotNews {
        cont_id: "27182818".to_string(),
        name: "Another headline".to_string(),
        cover: "cover.jpg".to_string(),
        videos: Some(Video { url: "clip.mp4".to_string(), cover: "frame.jpg".to_string() }),
    };
    let title = entry.to_hot_news();
    assert_eq!(title.url, "https://www.thepaper.cn/newsDetail_forward_27182818");
    assert_eq!(title.pics, vec!["cover.jpg".to_string(), "frame.jpg".to_string()]);
    assert_eq!(title.videos, vec!["clip.mp4".to_string()]);
}
