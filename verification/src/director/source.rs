use vstd::prelude::*;
use crate::news::{MaterialExtractor, NewsCrawler};

verus! {

pub type SourceName = String;

/// A content source: its name, how to list its content, and how to turn
/// one listed piece into material.
pub struct NewsSource<C, E> {
    pub name: SourceName,
    pub crawler: C,
    pub extractor: E,
}

impl<C: NewsCrawler, E: MaterialExtractor> NewsSource<C, E> {
    pub fn new(name: String, crawler: C, extractor: E) -> (r: Self)
        ensures
            r.name@ == name@,
            r.crawler == crawler,
            r.extractor == extractor,
    {
        Self { name, crawler, extractor }
    }
}

} // verus!
