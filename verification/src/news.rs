use vstd::prelude::*;

pub mod pengpai_news;

verus! {

use crate::director::source::SourceName;

/// One piece of source content as a crawler lists it: where it came from,
/// its title, its page address, and the media attached to it.
pub struct NewsTitle {
    pub source: SourceName,
    pub title: String,
    pub url: String,
    pub pics: Vec<String>,
    pub videos: Vec<String>,
}

pub type NewsMaterialResult = Result<NewsMaterial, NewsMaterialError>;

#[derive(Debug)]
pub enum NewsMaterialError {
    Extraction(String),
}

/// The material one run works from: a title, the summary split into the
/// sentences that drive speech and subtitles, and the media to show.
pub struct NewsMaterial {
    pub title: String,
    pub summary: Vec<String>,
    pub pics: Vec<String>,
    pub videos: Vec<String>,
}

/// Capability contract for a crawler: lists the currently interesting
/// content of one source. May return an empty list; has no error channel.
pub trait NewsCrawler {
    fn get_hot_news_list(&self) -> Vec<NewsTitle>;
}

/// Capability contract for an extractor: produces the run's material from
/// one listed piece of content.
pub trait MaterialExtractor {
    fn get_material(&self, hot_news: &NewsTitle) -> NewsMaterialResult;
}

impl NewsTitle {
    /// Extracts the material from this piece of content with the given
    /// extractor; what comes back is whatever that extractor produces.
    pub fn get_news_material<T: MaterialExtractor>(&self, material_extractor: &T) -> NewsMaterialResult {
        material_extractor.get_material(self)
    }
}

} // verus!
