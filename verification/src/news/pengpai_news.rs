use vstd::prelude::*;
use vstd::string::StringExecFns;
use crate::news::NewsTitle;

verus! {

pub const SOURCE_NAME: &'static str = "pengpai";

/// One entry of the source's hot-content listing, as plain values: its
/// content id, display name, cover image address, and an optional video.
pub struct PengPaiHotNews {
    pub cont_id: String,
    pub name: String,
    pub cover: String,
    pub videos: Option<Video>,
}

/// A video attached to a listing entry: its address and its first frame.
pub struct Video {
    pub url: String,
    pub cover: String,
}

impl PengPaiHotNews {
    /// Turns one listing entry into a `NewsTitle`: the cover image comes
    /// first, a video contributes its address and its first frame, and the
    /// page address is built from the content id.
    pub fn to_hot_news(self) -> (r: NewsTitle)
        ensures
            r.source@ == SOURCE_NAME@,
            r.title@ == self.name@,
            r.url@ == "https://www.thepaper.cn/newsDetail_forward_"@ + self.cont_id@,
            match self.videos {
                None => r.pics@.len() == 1 && r.pics@[0]@ == self.cover@ && r.videos@.len() == 0,
                Some(v) => r.pics@.len() == 2 && r.pics@[0]@ == self.cover@ && r.pics@[1]@
                    == v.cover@ && r.videos@.len() == 1 && r.videos@[0]@ == v.url@,
            },
    {
        let mut pics: Vec<String> = Vec::new();
        let mut videos: Vec<String> = Vec::new();
        pics.push(self.cover);

        if let Some(video) = self.videos {
            videos.push(video.url);
            pics.push(video.cover);
        }

        let mut url = String::from_str("https://www.thepaper.cn/newsDetail_forward_");
        url.append(self.cont_id.as_str());

        NewsTitle {
            source: String::from_str(SOURCE_NAME),
            title: self.name,
            url,
            pics,
            videos,
        }
    }
}

} // verus!
