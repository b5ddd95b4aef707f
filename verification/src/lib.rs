pub mod config;
pub mod director;
pub mod mpeg;
pub mod news;
pub mod subtitle;
pub mod tts;
pub mod video;
pub mod wav;
