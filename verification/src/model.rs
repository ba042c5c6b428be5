use vstd::prelude::*;

verus! {

/// A tag as the scraper reports it: its name and its page.
pub struct TagSrc {
    pub name: String,
    pub url: String,
}

/// One entry of a work's time table as the scraper reports it.
pub struct TimeTableSrc {
    pub index: i32,
    pub title: String,
    pub time: String,
}

/// A work as the scraper reports it, with its tags and time table.
pub struct MetaSrc {
    pub id: String,
    pub title: String,
    pub url: String,
    pub img_src: Option<String>,
    pub time: i64,
    pub cv: Vec<TagSrc>,
    pub genre: Vec<TagSrc>,
    pub illust: Vec<TagSrc>,
    pub circle: Vec<TagSrc>,
    pub series: Vec<TagSrc>,
    pub time_table: Vec<TimeTableSrc>,
}

/// The payload of an answer to a tag refresh request.
pub type UpdateTagResponse = Vec<TagSrc>;

/// The payload of an answer to a work request.
pub type FindMetaResponse = MetaSrc;

/// The payload of an answer to a listing request: the addresses of the works listed.
pub type FindDetailResponse = Vec<String>;

} // verus!
