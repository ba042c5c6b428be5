use vstd::prelude::*;

use crate::db_executor::create_meta::TagKind;

verus! {

/// What a client asks of a page of works: its position and size, and the names of the
/// tags that every work on it carries.
pub struct TagFinderStruct {
    pub index: Option<i32>,
    pub size: Option<i32>,
    pub cvs: Option<Vec<String>>,
    pub illusts: Option<Vec<String>>,
    pub series: Option<Vec<String>>,
    pub circles: Option<Vec<String>>,
    pub genres: Option<Vec<String>>,
}

/// The position and size of a page of works, and the rows to skip and take.
pub struct RoughsPage {
    pub index: i32,
    pub size: i32,
    pub offset: u64,
    pub limit: u64,
}

/// The page asked for, where the position defaults to 0 and the size to 25.
pub open spec fn page_index(index: Option<i32>) -> int {
    match index {
        Some(i) => i as int,
        None => 0,
    }
}

pub open spec fn page_size(size: Option<i32>) -> int {
    match size {
        Some(s) => s as int,
        None => 25,
    }
}

/// Whether a page can be fetched: the rows to skip, `index * size`, fit in an `i32` and
/// are not negative, and the size is not negative.
pub open spec fn page_fetchable(index: Option<i32>, size: Option<i32>) -> bool {
    let p = page_index(index) * page_size(size);
    &&& i32::MIN <= p <= i32::MAX
    &&& p >= 0
    &&& page_size(size) >= 0
}

impl RoughsPage {
    /// The page for a request; `None` where it cannot be fetched.
    pub fn of_request(index: Option<i32>, size: Option<i32>) -> (r: Option<RoughsPage>)
        ensures
            r is Some <==> page_fetchable(index, size),
            r matches Some(p) ==> {
                &&& p.index == page_index(index)
                &&& p.size == page_size(size)
                &&& p.offset == page_index(index) * page_size(size)
                &&& p.limit == page_size(size)
            },
    {
        let i: i32 = match index {
            Some(i) => i,
            None => 0,
        };
        let s: i32 = match size {
            Some(s) => s,
            None => 25,
        };
        assert(-4611686018427387904 <= (i as int) * (s as int) <= 4611686018427387904) by (nonlinear_arith)
            requires
                -2147483648 <= i <= 2147483647,
                -2147483648 <= s <= 2147483647,
        ;
        let p: i64 = (i as i64) * (s as i64);
        if p < i32::MIN as i64 || p > i32::MAX as i64 || p < 0 || s < 0 {
            return None;
        }
        Some(RoughsPage { index: i, size: s, offset: p as u64, limit: s as u64 })
    }
}

/// The identifiers that were found, in order, dropping the names that matched nothing.
pub open spec fn found_ids(found: Seq<Option<i32>>) -> Seq<i32>
    decreases found.len(),
{
    if found.len() == 0 {
        Seq::empty()
    } else {
        let rest = found_ids(found.drop_last());
        match found.last() {
            Some(id) => rest.push(id),
            None => rest,
        }
    }
}

/// The identifiers of the tags named in a request: none where no tag was named, or
/// where none of the names matched a tag.
pub fn collect_found_ids(found: Option<Vec<Option<i32>>>) -> (r: Option<Vec<i32>>)
    ensures
        match found {
            None => r is None,
            Some(f) => if found_ids(f@).len() == 0 {
                r is None
            } else {
                r matches Some(ids) && ids@ == found_ids(f@)
            },
        },
{
    match found {
        None => None,
        Some(f) => {
            let mut ids: Vec<i32> = Vec::new();
            let mut i: usize = 0;
            while i < f.len()
                invariant
                    i <= f.len(),
                    ids@ == found_ids(f@.take(i as int)),
                decreases f.len() - i,
            {
                assert(f@.take(i + 1).drop_last() =~= f@.take(i as int));
                match f[i] {
                    Some(id) => ids.push(id),
                    None => {},
                }
                i += 1;
            }
            assert(f@.take(f.len() as int) =~= f@);
            if ids.len() == 0 {
                None
            } else {
                Some(ids)
            }
        },
    }
}

/// One filter of a page query: works are joined to their tags of `kind`, and each of
/// `ids` is required.
pub struct KindFilter {
    pub kind: TagKind,
    pub ids: Vec<i32>,
}

pub open spec fn filter_entry(kind: TagKind, ids: Option<Vec<i32>>) -> Seq<(TagKind, Seq<i32>)> {
    match ids {
        Some(v) => seq![(kind, v@)],
        None => Seq::empty(),
    }
}

/// The filters of a page query: one for each kind of tag of which some named tag was
/// found, in the order voices, illustrators, series, circles, genres.
pub open spec fn filter_plan(
    cv: Option<Vec<i32>>,
    illust: Option<Vec<i32>>,
    series: Option<Vec<i32>>,
    circle: Option<Vec<i32>>,
    genre: Option<Vec<i32>>,
) -> Seq<(TagKind, Seq<i32>)> {
    filter_entry(TagKind::Cv, cv) + filter_entry(TagKind::Illust, illust) + filter_entry(
        TagKind::Series,
        series,
    ) + filter_entry(TagKind::Circle, circle) + filter_entry(TagKind::Genre, genre)
}

/// Whether `r` holds, in order, the filters of `plan`.
pub open spec fn filters_are(r: Seq<KindFilter>, plan: Seq<(TagKind, Seq<i32>)>) -> bool {
    &&& r.len() == plan.len()
    &&& forall|i: int| 0 <= i < r.len() ==> (#[trigger] r[i]).kind == plan[i].0 && r[i].ids@ == plan[i].1
}

fn push_filter(r: &mut Vec<KindFilter>, kind: TagKind, ids: Option<Vec<i32>>)
    ensures
        forall|plan: Seq<(TagKind, Seq<i32>)>|
            filters_are(old(r)@, plan) ==> filters_are(final(r)@, plan + filter_entry(kind, ids)),
{
    let ghost entry = filter_entry(kind, ids);
    match ids {
        Some(v) => {
            r.push(KindFilter { kind, ids: v });
        },
        None => {},
    }
    assert forall|plan: Seq<(TagKind, Seq<i32>)>| filters_are(old(r)@, plan) implies filters_are(
        final(r)@,
        plan + entry,
    ) by {
        let np = plan + entry;
        assert forall|i: int| 0 <= i < r@.len() implies (#[trigger] r@[i]).kind == np[i].0
            && r@[i].ids@ == np[i].1 by {
            if i < old(r)@.len() {
                assert(r@[i] == old(r)@[i]);
            }
        }
    }
}

/// The filters of a page query for the identifiers found of each kind.
pub fn roughs_filters(
    cv: Option<Vec<i32>>,
    illust: Option<Vec<i32>>,
    series: Option<Vec<i32>>,
    circle: Option<Vec<i32>>,
    genre: Option<Vec<i32>>,
) -> (r: Vec<KindFilter>)
    ensures
        filters_are(r@, filter_plan(cv, illust, series, circle, genre)),
        forall|i: int|
            0 <= i < r@.len() ==> match (#[trigger] r@[i]).kind {
                TagKind::Cv => cv matches Some(v) && r@[i].ids@ == v@,
                TagKind::Illust => illust matches Some(v) && r@[i].ids@ == v@,
                TagKind::Series => series matches Some(v) && r@[i].ids@ == v@,
                TagKind::Circle => circle matches Some(v) && r@[i].ids@ == v@,
                TagKind::Genre => genre matches Some(v) && r@[i].ids@ == v@,
            },
        cv is Some ==> exists|i: int| 0 <= i < r@.len() && (#[trigger] r@[i]).kind == TagKind::Cv,
        illust is Some ==> exists|i: int| 0 <= i < r@.len() && (#[trigger] r@[i]).kind == TagKind::Illust,
        series is Some ==> exists|i: int| 0 <= i < r@.len() && (#[trigger] r@[i]).kind == TagKind::Series,
        circle is Some ==> exists|i: int| 0 <= i < r@.len() && (#[trigger] r@[i]).kind == TagKind::Circle,
        genre is Some ==> exists|i: int| 0 <= i < r@.len() && (#[trigger] r@[i]).kind == TagKind::Genre,
        forall|i: int, j: int| 0 <= i < j < r@.len() ==> r@[i].kind != r@[j].kind,
{
    let ghost (c0, c1, c2, c3, c4) = (cv, illust, series, circle, genre);
    let mut r: Vec<KindFilter> = Vec::new();
    assert(filters_are(r@, Seq::empty()));
    push_filter(&mut r, TagKind::Cv, cv);
    push_filter(&mut r, TagKind::Illust, illust);
    push_filter(&mut r, TagKind::Series, series);
    push_filter(&mut r, TagKind::Circle, circle);
    push_filter(&mut r, TagKind::Genre, genre);
    assert(Seq::<(TagKind, Seq<i32>)>::empty() + filter_entry(TagKind::Cv, c0) =~= filter_entry(
        TagKind::Cv,
        c0,
    ));
    proof {
        law_filter_plan_kinds(c0, c1, c2, c3, c4);
        let plan = filter_plan(c0, c1, c2, c3, c4);
        if c0 is Some {
            let k = choose|k: int| 0 <= k < plan.len() && (#[trigger] plan[k]).0 == TagKind::Cv;
            assert(r@[k].kind == TagKind::Cv);
        }
        if c1 is Some {
            let k = choose|k: int| 0 <= k < plan.len() && (#[trigger] plan[k]).0 == TagKind::Illust;
            assert(r@[k].kind == TagKind::Illust);
        }
        if c2 is Some {
            let k = choose|k: int| 0 <= k < plan.len() && (#[trigger] plan[k]).0 == TagKind::Series;
            assert(r@[k].kind == TagKind::Series);
        }
        if c3 is Some {
            let k = choose|k: int| 0 <= k < plan.len() && (#[trigger] plan[k]).0 == TagKind::Circle;
            assert(r@[k].kind == TagKind::Circle);
        }
        if c4 is Some {
            let k = choose|k: int| 0 <= k < plan.len() && (#[trigger] plan[k]).0 == TagKind::Genre;
            assert(r@[k].kind == TagKind::Genre);
        }
        assert forall|i: int, j: int| 0 <= i < j < r@.len() implies r@[i].kind != r@[j].kind by {
            assert(r@[i].kind == plan[i].0);
            assert(r@[j].kind == plan[j].0);
        }
    }
    r
}

/// Each filter of a page query is built from the identifiers named for its own kind of
/// tag: an entry of kind `k` holds exactly the identifiers given for `k`, every kind for
/// which identifiers were given has an entry, and no kind has two.
pub proof fn law_filter_plan_kinds(
    cv: Option<Vec<i32>>,
    illust: Option<Vec<i32>>,
    series: Option<Vec<i32>>,
    circle: Option<Vec<i32>>,
    genre: Option<Vec<i32>>,
)
    ensures
        ({
            let plan = filter_plan(cv, illust, series, circle, genre);
            &&& forall|i: int|
                0 <= i < plan.len() ==> match (#[trigger] plan[i]).0 {
                    TagKind::Cv => cv matches Some(v) && plan[i].1 == v@,
                    TagKind::Illust => illust matches Some(v) && plan[i].1 == v@,
                    TagKind::Series => series matches Some(v) && plan[i].1 == v@,
                    TagKind::Circle => circle matches Some(v) && plan[i].1 == v@,
                    TagKind::Genre => genre matches Some(v) && plan[i].1 == v@,
                }
            &&& cv is Some ==> exists|i: int| 0 <= i < plan.len() && (#[trigger] plan[i]).0 == TagKind::Cv
            &&& illust is Some ==> exists|i: int| 0 <= i < plan.len() && (#[trigger] plan[i]).0 == TagKind::Illust
            &&& series is Some ==> exists|i: int| 0 <= i < plan.len() && (#[trigger] plan[i]).0 == TagKind::Series
            &&& circle is Some ==> exists|i: int| 0 <= i < plan.len() && (#[trigger] plan[i]).0 == TagKind::Circle
            &&& genre is Some ==> exists|i: int| 0 <= i < plan.len() && (#[trigger] plan[i]).0 == TagKind::Genre
            &&& forall|i: int, j: int| 0 <= i < j < plan.len() ==> plan[i].0 != plan[j].0
        }),
{
    let e0 = filter_entry(TagKind::Cv, cv);
    let e1 = filter_entry(TagKind::Illust, illust);
    let e2 = filter_entry(TagKind::Series, series);
    let e3 = filter_entry(TagKind::Circle, circle);
    let e4 = filter_entry(TagKind::Genre, genre);
    let p1 = e0 + e1;
    let p2 = p1 + e2;
    let p3 = p2 + e3;
    let plan = p3 + e4;
    assert(plan == filter_plan(cv, illust, series, circle, genre));
    // Each entry's kind, and where it stands.
    assert forall|i: int| 0 <= i < plan.len() implies {
        &&& (plan[i].0 == TagKind::Cv ==> i < e0.len() && plan[i] == e0[i])
        &&& (plan[i].0 == TagKind::Illust ==> e0.len() <= i < p1.len() && plan[i] == e1[i - e0.len()])
        &&& (plan[i].0 == TagKind::Series ==> p1.len() <= i < p2.len() && plan[i] == e2[i - p1.len()])
        &&& (plan[i].0 == TagKind::Circle ==> p2.len() <= i < p3.len() && plan[i] == e3[i - p2.len()])
        &&& (plan[i].0 == TagKind::Genre ==> p3.len() <= i && plan[i] == e4[i - p3.len()])
    } by {
        if i < e0.len() {
            assert(plan[i] == e0[i]);
        } else if i < p1.len() {
            assert(plan[i] == e1[i - e0.len()]);
        } else if i < p2.len() {
            assert(plan[i] == e2[i - p1.len()]);
        } else if i < p3.len() {
            assert(plan[i] == e3[i - p2.len()]);
        } else {
            assert(plan[i] == e4[i - p3.len()]);
        }
    }
    if cv is Some {
        assert(plan[0] == e0[0]);
    }
    if illust is Some {
        assert(plan[e0.len() as int] == e1[0]);
    }
    if series is Some {
        assert(plan[p1.len() as int] == e2[0]);
    }
    if circle is Some {
        assert(plan[p2.len() as int] == e3[0]);
    }
    if genre is Some {
        assert(plan[p3.len() as int] == e4[0]);
    }
}

} // verus!
