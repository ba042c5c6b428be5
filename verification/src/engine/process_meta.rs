use vstd::prelude::*;

use crate::text::{join, owned, str_eq};

verus! {

/// A listing page of the catalogue site: the kind of tag and the tag's name.
pub enum ScrapeMetaSrc<'a> {
    CV(&'a str),
    Circle(&'a str),
    Scenario(&'a str),
    Illust(&'a str),
    Series(&'a str),
    Genre(&'a str),
}

/// The kind named in a request is none of the known ones.
#[derive(Debug, PartialEq, Eq, Structural)]
pub enum ScrapeConvertErr {
    NotFound,
}

/// The query of a scraping request: the kind of tag and its name.
pub struct ProcessMetaQuery {
    pub kind: String,
    pub value: String,
}

/// The site under which every listing page lies.
pub open spec fn site_root() -> Seq<char> {
    "https://asmr18.fans/"@
}

/// The keyword by which a kind of listing is named, in requests and in the site's paths.
pub open spec fn kind_keyword(src: ScrapeMetaSrc) -> Seq<char> {
    match src {
        ScrapeMetaSrc::CV(_) => "cv"@,
        ScrapeMetaSrc::Circle(_) => "circle"@,
        ScrapeMetaSrc::Scenario(_) => "scenario"@,
        ScrapeMetaSrc::Illust(_) => "illust"@,
        ScrapeMetaSrc::Series(_) => "series"@,
        ScrapeMetaSrc::Genre(_) => "genre"@,
    }
}

/// The tag name that a listing source carries.
pub open spec fn src_content<'a>(src: ScrapeMetaSrc<'a>) -> &'a str {
    match src {
        ScrapeMetaSrc::CV(c) => c,
        ScrapeMetaSrc::Circle(c) => c,
        ScrapeMetaSrc::Scenario(c) => c,
        ScrapeMetaSrc::Illust(c) => c,
        ScrapeMetaSrc::Series(c) => c,
        ScrapeMetaSrc::Genre(c) => c,
    }
}

/// Whether a text is one of the six kind keywords.
pub open spec fn is_kind_keyword(s: Seq<char>) -> bool {
    s == "cv"@ || s == "circle"@ || s == "scenario"@ || s == "illust"@ || s == "series"@
        || s == "genre"@
}

/// The source that a kind keyword and a tag name denote, checked in this order.
pub open spec fn scrape_src_of<'b>(s: &'b str, content: &'b str) -> Result<
    ScrapeMetaSrc<'b>,
    ScrapeConvertErr,
> {
    if s@ == "cv"@ {
        Ok(ScrapeMetaSrc::CV(content))
    } else if s@ == "circle"@ {
        Ok(ScrapeMetaSrc::Circle(content))
    } else if s@ == "scenario"@ {
        Ok(ScrapeMetaSrc::Scenario(content))
    } else if s@ == "illust"@ {
        Ok(ScrapeMetaSrc::Illust(content))
    } else if s@ == "series"@ {
        Ok(ScrapeMetaSrc::Series(content))
    } else if s@ == "genre"@ {
        Ok(ScrapeMetaSrc::Genre(content))
    } else {
        Err(ScrapeConvertErr::NotFound)
    }
}

/// The listing page of a source: the site, the kind keyword, `/`, the tag name, `/`.
pub open spec fn listing_url(src: ScrapeMetaSrc) -> Seq<char> {
    site_root() + kind_keyword(src) + "/"@ + src_content(src)@ + "/"@
}

impl<'a> ScrapeMetaSrc<'a> {
    /// The source for a kind keyword and a tag name; `NotFound` for any other keyword.
    pub fn from_str_to_src<'b>(s: &'b str, content: &'b str) -> (r: Result<
        ScrapeMetaSrc<'b>,
        ScrapeConvertErr,
    >)
        ensures
            r == scrape_src_of(s, content),
            r is Ok <==> is_kind_keyword(s@),
    {
        if str_eq(s, "cv") {
            Ok(ScrapeMetaSrc::CV(content))
        } else if str_eq(s, "circle") {
            Ok(ScrapeMetaSrc::Circle(content))
        } else if str_eq(s, "scenario") {
            Ok(ScrapeMetaSrc::Scenario(content))
        } else if str_eq(s, "illust") {
            Ok(ScrapeMetaSrc::Illust(content))
        } else if str_eq(s, "series") {
            Ok(ScrapeMetaSrc::Series(content))
        } else if str_eq(s, "genre") {
            Ok(ScrapeMetaSrc::Genre(content))
        } else {
            Err(ScrapeConvertErr::NotFound)
        }
    }

    /// The address of the listing page of this source.
    pub fn to_url(&self) -> (r: String)
        ensures
            r@ == listing_url(*self),
    {
        let (keyword, content): (&str, &str) = match self {
            ScrapeMetaSrc::CV(c) => ("cv", *c),
            ScrapeMetaSrc::Circle(c) => ("circle", *c),
            ScrapeMetaSrc::Scenario(c) => ("scenario", *c),
            ScrapeMetaSrc::Illust(c) => ("illust", *c),
            ScrapeMetaSrc::Series(c) => ("series", *c),
            ScrapeMetaSrc::Genre(c) => ("genre", *c),
        };
        let url = owned("https://asmr18.fans/");
        let url = join(url, keyword);
        let url = join(url, "/");
        let url = join(url, content);
        join(url, "/")
    }
}

/// A request's kind keyword and tag name lead to the listing page whose path begins with
/// that very keyword and then holds the tag name.
pub proof fn law_listing_url_of_request<'b>(s: &'b str, content: &'b str)
    requires
        is_kind_keyword(s@),
    ensures
        scrape_src_of(s, content) is Ok,
        listing_url(scrape_src_of(s, content)->Ok_0) == site_root() + s@ + "/"@ + content@
            + "/"@,
{
}

/// The progress that is reported once `n` works are saved: every tenth one.
pub open spec fn progress_report(n: int) -> Option<i32> {
    if n % 10 == 0 {
        Some(n as i32)
    } else {
        None
    }
}

/// The progress reports of a run in which `k` works were saved, in order.
pub open spec fn reports_of_run(k: nat) -> Seq<i32>
    decreases k,
{
    if k == 0 {
        Seq::empty()
    } else {
        let earlier = reports_of_run((k - 1) as nat);
        match progress_report(k as int) {
            Some(v) => earlier.push(v),
            None => earlier,
        }
    }
}

/// The running count of the works that a scraping run has saved.
pub struct ProgressCounter {
    count: i32,
}

impl ProgressCounter {
    pub closed spec fn count(&self) -> i32 {
        self.count
    }

    /// A count of none.
    pub fn new() -> (c: Self)
        ensures
            c.count() == 0,
    {
        ProgressCounter { count: 0 }
    }

    /// Counts one saved work, and gives the count where it is to be reported.
    pub fn record_saved(&mut self) -> (r: Option<i32>)
        requires
            old(self).count() < i32::MAX,
        ensures
            final(self).count() == old(self).count() + 1,
            r == progress_report(final(self).count() as int),
    {
        self.count = self.count + 1;
        if self.count % 10 == 0 {
            Some(self.count)
        } else {
            None
        }
    }

    /// The count so far, which is also the last report of a run.
    pub fn total(&self) -> (r: i32)
        ensures
            r == self.count(),
    {
        self.count
    }
}

/// A run that saves `k` works reports 10, 20, 30, ... up to the largest multiple of 10
/// that is at most `k`, each once and in this order.
pub proof fn law_progress_every_tenth(k: nat)
    requires
        k <= i32::MAX,
    ensures
        reports_of_run(k) == Seq::new(k / 10, |i: int| (10 * (i + 1)) as i32),
    decreases k,
{
    if k > 0 {
        law_progress_every_tenth((k - 1) as nat);
        if k % 10 == 0 {
            assert(k / 10 == (k - 1) as nat / 10 + 1);
        } else {
            assert(k / 10 == (k - 1) as nat / 10);
        }
        assert(reports_of_run(k) =~= Seq::new(k / 10, |i: int| (10 * (i + 1)) as i32));
    } else {
        assert(reports_of_run(k) =~= Seq::new(k / 10, |i: int| (10 * (i + 1)) as i32));
    }
}

} // verus!
