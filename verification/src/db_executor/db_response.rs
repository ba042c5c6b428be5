use vstd::prelude::*;

verus! {

/// One entry of a work's time table, as answered to clients.
pub struct TimeTable {
    pub index: i32,
    pub title: String,
    pub time: String,
}

/// A tag, as answered to clients.
pub struct Tag {
    pub name: String,
    pub url: String,
}

/// A work with its tags and time table, as answered to clients.
#[derive(Default)]
pub struct Meta {
    pub id: String,
    pub title: String,
    pub url: String,
    pub img_src: Option<String>,
    pub time: i64,
    pub file_path: String,
    pub cv: Vec<Tag>,
    pub genre: Vec<Tag>,
    pub illust: Vec<Tag>,
    pub circle: Vec<Tag>,
    pub series: Vec<Tag>,
    pub time_table: Vec<TimeTable>,
}

/// The full record of one work.
pub type Detail = Meta;

/// One page of works in time order.
pub struct Roughs {
    pub index: i32,
    pub size: i32,
    pub result: Vec<Meta>,
}

} // verus!
