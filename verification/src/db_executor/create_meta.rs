use vstd::prelude::*;

use crate::model::MetaSrc;
use crate::text::{ascii_upper, join, owned, to_ascii_upper};

verus! {

/// Where the stream of the first storage lies.
pub open spec fn primary_root() -> Seq<char> {
    "https://cdn3.cloudintech.net/file/"@
}

/// Where the stream of the second storage lies.
pub open spec fn fallback_root() -> Seq<char> {
    "https://cdn3.cloudintech.net/file1/"@
}

/// The playlist of a work under a storage root: the identifier in upper case, `/`, the
/// identifier again and `.m3u8`.
pub open spec fn playlist_url(root: Seq<char>, id: Seq<char>) -> Seq<char> {
    root + ascii_upper(id) + "/"@ + ascii_upper(id) + ".m3u8"@
}

/// How the probe of the first storage went.
pub enum HeadOutcome<E> {
    /// The storage answered with a success status.
    Reached,
    /// The storage answered with an error status.
    ErrorStatus,
    /// The probe timed out.
    TimedOut,
    /// The probe failed otherwise.
    Failed(E),
}

fn playlist(root: &str, id: &str) -> (r: String)
    ensures
        r@ == playlist_url(root@, id@),
{
    let upper = to_ascii_upper(id);
    let r = owned(root);
    let r = join(r, upper.as_str());
    let r = join(r, "/");
    let r = join(r, upper.as_str());
    join(r, ".m3u8")
}

/// The address that is probed to learn whether a work lies in the first storage.
pub fn head_target(id: &str) -> (r: String)
    ensures
        r@ == playlist_url(primary_root(), id@),
{
    playlist("https://cdn3.cloudintech.net/file/", id)
}

/// The playlist of a work: in the first storage where it answered the probe with a
/// success status, in the second where it answered with an error status or did not
/// answer in time; any other failure of the probe is handed back.
pub fn choose_file_path<E>(id: &str, outcome: HeadOutcome<E>) -> (r: Result<String, E>)
    ensures
        match outcome {
            HeadOutcome::Reached => r matches Ok(p) && p@ == playlist_url(primary_root(), id@),
            HeadOutcome::ErrorStatus => r matches Ok(p) && p@ == playlist_url(
                fallback_root(),
                id@,
            ),
            HeadOutcome::TimedOut => r matches Ok(p) && p@ == playlist_url(fallback_root(), id@),
            HeadOutcome::Failed(e) => r == Err::<String, E>(e),
        },
{
    match outcome {
        HeadOutcome::Reached => Ok(head_target(id)),
        HeadOutcome::ErrorStatus => Ok(playlist("https://cdn3.cloudintech.net/file1/", id)),
        HeadOutcome::TimedOut => Ok(playlist("https://cdn3.cloudintech.net/file1/", id)),
        HeadOutcome::Failed(e) => Err(e),
    }
}

/// The kinds of tag that a stored work is linked to, in the order in which they are stored.
#[derive(Debug, Clone, Copy, PartialEq, Eq, Structural)]
pub enum TagKind {
    Cv,
    Genre,
    Circle,
    Illust,
    Series,
}

/// One piece of storing a work: a tag of the given kind at a position of the source's
/// list of that kind, or a row of its time table.
#[derive(Debug, Clone, Copy, PartialEq, Eq, Structural)]
pub enum UpsertItem {
    Tag(TagKind, usize),
    TimeRow(usize),
}

pub open spec fn kind_items(kind: TagKind, n: nat) -> Seq<UpsertItem> {
    Seq::new(n, |i: int| UpsertItem::Tag(kind, i as usize))
}

/// The pieces of storing a work, in order: its voices, genres, circles, illustrators and
/// series, each list in its own order, then the rows of its time table.
pub open spec fn plan_of(src: MetaSrc) -> Seq<UpsertItem> {
    kind_items(TagKind::Cv, src.cv@.len()) + kind_items(TagKind::Genre, src.genre@.len())
        + kind_items(TagKind::Circle, src.circle@.len()) + kind_items(
        TagKind::Illust,
        src.illust@.len(),
    ) + kind_items(TagKind::Series, src.series@.len()) + Seq::new(
        src.time_table@.len(),
        |i: int| UpsertItem::TimeRow(i as usize),
    )
}

/// The length of the source's list of a kind.
pub open spec fn kind_len(src: MetaSrc, kind: TagKind) -> nat {
    match kind {
        TagKind::Cv => src.cv@.len(),
        TagKind::Genre => src.genre@.len(),
        TagKind::Circle => src.circle@.len(),
        TagKind::Illust => src.illust@.len(),
        TagKind::Series => src.series@.len(),
    }
}

fn push_kind(plan: &mut Vec<UpsertItem>, kind: TagKind, n: usize)
    ensures
        final(plan)@ == old(plan)@ + kind_items(kind, n as nat),
{
    let ghost start = plan@;
    let mut i: usize = 0;
    while i < n
        invariant
            i <= n,
            plan@ == start + kind_items(kind, i as nat),
        decreases n - i,
    {
        plan.push(UpsertItem::Tag(kind, i));
        i += 1;
        assert(plan@ =~= start + kind_items(kind, i as nat));
    }
}

/// The pieces of storing `src`, in the order in which they are stored.
pub fn upsert_plan(src: &MetaSrc) -> (r: Vec<UpsertItem>)
    ensures
        r@ == plan_of(*src),
{
    let mut plan: Vec<UpsertItem> = Vec::new();
    push_kind(&mut plan, TagKind::Cv, src.cv.len());
    push_kind(&mut plan, TagKind::Genre, src.genre.len());
    push_kind(&mut plan, TagKind::Circle, src.circle.len());
    push_kind(&mut plan, TagKind::Illust, src.illust.len());
    push_kind(&mut plan, TagKind::Series, src.series.len());
    let ghost before = plan@;
    let n = src.time_table.len();
    let mut i: usize = 0;
    while i < n
        invariant
            i <= n,
            n == src.time_table@.len(),
            plan@ == before + Seq::new(i as nat, |k: int| UpsertItem::TimeRow(k as usize)),
        decreases n - i,
    {
        plan.push(UpsertItem::TimeRow(i));
        i += 1;
        assert(plan@ =~= before + Seq::new(i as nat, |k: int| UpsertItem::TimeRow(k as usize)));
    }
    assert(plan@ =~= plan_of(*src));
    plan
}

pub open spec fn kind_offset(src: MetaSrc, kind: TagKind) -> nat {
    match kind {
        TagKind::Cv => 0,
        TagKind::Genre => src.cv@.len(),
        TagKind::Circle => src.cv@.len() + src.genre@.len(),
        TagKind::Illust => src.cv@.len() + src.genre@.len() + src.circle@.len(),
        TagKind::Series => src.cv@.len() + src.genre@.len() + src.circle@.len()
            + src.illust@.len(),
    }
}

pub open spec fn tags_len(src: MetaSrc) -> nat {
    src.cv@.len() + src.genre@.len() + src.circle@.len() + src.illust@.len() + src.series@.len()
}

proof fn lemma_plan_at(src: MetaSrc, j: int)
    requires
        0 <= j < plan_of(src).len(),
    ensures
        plan_of(src).len() == tags_len(src) + src.time_table@.len(),
        j < tags_len(src) ==> exists|kind: TagKind|
            kind_offset(src, kind) <= j < kind_offset(src, kind) + kind_len(src, kind)
                && plan_of(src)[j] == UpsertItem::Tag(kind, (j - kind_offset(src, kind)) as usize),
        j >= tags_len(src) ==> plan_of(src)[j] == UpsertItem::TimeRow((j - tags_len(src)) as usize),
{
    let a = src.cv@.len();
    let b = src.genre@.len();
    let c = src.circle@.len();
    let d = src.illust@.len();
    let e = src.series@.len();
    if j < a {
        assert(kind_offset(src, TagKind::Cv) <= j < kind_offset(src, TagKind::Cv) + kind_len(src, TagKind::Cv));
    } else if j < a + b {
        assert(kind_offset(src, TagKind::Genre) <= j < kind_offset(src, TagKind::Genre) + kind_len(src, TagKind::Genre));
    } else if j < a + b + c {
        assert(kind_offset(src, TagKind::Circle) <= j < kind_offset(src, TagKind::Circle) + kind_len(src, TagKind::Circle));
    } else if j < a + b + c + d {
        assert(kind_offset(src, TagKind::Illust) <= j < kind_offset(src, TagKind::Illust) + kind_len(src, TagKind::Illust));
    } else if j < a + b + c + d + e {
        assert(kind_offset(src, TagKind::Series) <= j < kind_offset(src, TagKind::Series) + kind_len(src, TagKind::Series));
    }
}

/// The lists of a source are `Vec`s, so their lengths fit in a `usize`.
pub(crate) proof fn lemma_lengths_fit(src: MetaSrc)
    ensures
        forall|kind: TagKind| #[trigger] kind_len(src, kind) <= usize::MAX,
        src.time_table@.len() <= usize::MAX,
{
    assert(src.cv.len() == src.cv@.len());
    assert(src.genre.len() == src.genre@.len());
    assert(src.circle.len() == src.circle@.len());
    assert(src.illust.len() == src.illust@.len());
    assert(src.series.len() == src.series@.len());
    assert(src.time_table.len() == src.time_table@.len());
}

/// `item` stands at position `j` of `plan` and at no other.
pub open spec fn at_exactly(plan: Seq<UpsertItem>, item: UpsertItem, j: int) -> bool {
    &&& 0 <= j < plan.len()
    &&& plan[j] == item
    &&& forall|k: int| 0 <= k < plan.len() && #[trigger] plan[k] == item ==> k == j
}

/// Storing a work takes up each of its tags, and each row of its time table, exactly
/// once: tags in the order of the kinds and of each list, then the rows in order.
pub proof fn law_plan_covers_source_once(src: MetaSrc)
    ensures
        forall|kind: TagKind, i: int|
            0 <= i < kind_len(src, kind) ==> #[trigger] at_exactly(
                plan_of(src),
                UpsertItem::Tag(kind, i as usize),
                kind_offset(src, kind) + i,
            ),
        forall|i: int|
            0 <= i < src.time_table@.len() ==> #[trigger] at_exactly(
                plan_of(src),
                UpsertItem::TimeRow(i as usize),
                tags_len(src) + i,
            ),
{
    assert forall|kind: TagKind, i: int| 0 <= i < kind_len(src, kind) implies #[trigger] at_exactly(
        plan_of(src),
        UpsertItem::Tag(kind, i as usize),
        kind_offset(src, kind) + i,
    ) by {
        lemma_lengths_fit(src);
        let j = kind_offset(src, kind) + i;
        let item = UpsertItem::Tag(kind, i as usize);
        lemma_plan_at(src, j);
        assert forall|k: int| 0 <= k < plan_of(src).len() && #[trigger] plan_of(src)[k] == item implies k
            == j by {
            lemma_plan_at(src, k);
            if k < tags_len(src) {
                let kk = choose|kk: TagKind|
                    kind_offset(src, kk) <= k < kind_offset(src, kk) + kind_len(src, kk)
                        && plan_of(src)[k] == UpsertItem::Tag(kk, (k - kind_offset(src, kk)) as usize);
                assert(kk == kind);
            }
        }
    }
    assert forall|i: int| 0 <= i < src.time_table@.len() implies #[trigger] at_exactly(
        plan_of(src),
        UpsertItem::TimeRow(i as usize),
        tags_len(src) + i,
    ) by {
        lemma_lengths_fit(src);
        let j = tags_len(src) + i;
        let item = UpsertItem::TimeRow(i as usize);
        lemma_plan_at(src, j);
        assert forall|k: int| 0 <= k < plan_of(src).len() && #[trigger] plan_of(src)[k] == item implies k
            == j by {
            lemma_plan_at(src, k);
            if k < tags_len(src) {
                let kk = choose|kk: TagKind|
                    kind_offset(src, kk) <= k < kind_offset(src, kk) + kind_len(src, kk)
                        && plan_of(src)[k] == UpsertItem::Tag(kk, (k - kind_offset(src, kk)) as usize);
            }
        }
    }
}

/// The row of a work in the store.
pub struct MetaRow {
    pub id: String,
    pub title: String,
    pub url: String,
    pub img_src: Option<String>,
    pub time: i64,
    pub file_path: String,
}

/// Whether two optional texts are both absent or hold the same characters.
pub open spec fn same_text(a: Option<String>, b: Option<String>) -> bool {
    match (a, b) {
        (Some(x), Some(y)) => x@ == y@,
        (None, None) => true,
        _ => false,
    }
}

/// The row that a new work is inserted as: the source's identifier, title, address,
/// image and time, and the playlist that the probe of the storages found.
pub fn new_meta_row(src: &MetaSrc, file_path: String) -> (r: MetaRow)
    ensures
        r.id@ == src.id@,
        r.title@ == src.title@,
        r.url@ == src.url@,
        same_text(r.img_src, src.img_src),
        r.time == src.time,
        r.file_path == file_path,
{
    let img_src = match &src.img_src {
        Some(i) => Some(i.clone()),
        None => None,
    };
    MetaRow {
        id: src.id.clone(),
        title: src.title.clone(),
        url: src.url.clone(),
        img_src,
        time: src.time,
        file_path,
    }
}

/// The step that storing the work itself is at: looking it up by its title, probing the
/// storages for its playlist, inserting it with the playlist found, or done with the
/// identifier under which it is stored.
pub enum MetaIdStep {
    LookUp,
    Probe,
    Insert(String),
    Known(String),
}

/// What the store or the probe answered.
pub enum MetaAnswer {
    Found(String),
    Missing,
    FilePath(String),
    Inserted(String),
}

/// A work stored under the same title is reused as it is; only a new work is probed for
/// and inserted. An answer that does not fit the step leaves it as it is.
pub open spec fn meta_id_next(step: MetaIdStep, answer: MetaAnswer) -> MetaIdStep {
    match (step, answer) {
        (MetaIdStep::LookUp, MetaAnswer::Found(id)) => MetaIdStep::Known(id),
        (MetaIdStep::LookUp, MetaAnswer::Missing) => MetaIdStep::Probe,
        (MetaIdStep::Probe, MetaAnswer::FilePath(p)) => MetaIdStep::Insert(p),
        (MetaIdStep::Insert(_), MetaAnswer::Inserted(id)) => MetaIdStep::Known(id),
        (s, _) => s,
    }
}

/// The next step of storing the work itself.
pub fn meta_id_step(step: MetaIdStep, answer: MetaAnswer) -> (r: MetaIdStep)
    ensures
        r == meta_id_next(step, answer),
{
    match (step, answer) {
        (MetaIdStep::LookUp, MetaAnswer::Found(id)) => MetaIdStep::Known(id),
        (MetaIdStep::LookUp, MetaAnswer::Missing) => MetaIdStep::Probe,
        (MetaIdStep::Probe, MetaAnswer::FilePath(p)) => MetaIdStep::Insert(p),
        (MetaIdStep::Insert(_), MetaAnswer::Inserted(id)) => MetaIdStep::Known(id),
        (s, _) => s,
    }
}

/// The step reached after a run of answers, starting from the look-up of the work.
pub open spec fn meta_run(answers: Seq<MetaAnswer>) -> MetaIdStep
    decreases answers.len(),
{
    if answers.len() == 0 {
        MetaIdStep::LookUp
    } else {
        meta_id_next(meta_run(answers.drop_last()), answers.last())
    }
}

/// A work whose title is stored already keeps the identifier it is stored under: once
/// the look-up has found it, no later answer leads to a probe, an insert or another
/// identifier.
pub proof fn law_existing_work_reused(id: String, rest: Seq<MetaAnswer>)
    ensures
        meta_run(seq![MetaAnswer::Found(id)] + rest) == MetaIdStep::Known(id),
    decreases rest.len(),
{
    let all = seq![MetaAnswer::Found(id)] + rest;
    if rest.len() == 0 {
        assert(all.drop_last() =~= Seq::<MetaAnswer>::empty());
        assert(all.last() == MetaAnswer::Found(id));
        assert(meta_run(all.drop_last()) == MetaIdStep::LookUp);
    } else {
        law_existing_work_reused(id, rest.drop_last());
        assert(all.drop_last() =~= seq![MetaAnswer::Found(id)] + rest.drop_last());
        assert(meta_run(all.drop_last()) == MetaIdStep::Known(id));
    }
}

/// The step that storing one tag of a work is at: looking the tag up by its name,
/// inserting it with no works counted, looking up its link to the work, linking it and
/// counting the work, or done.
#[derive(Debug, Clone, Copy, PartialEq, Eq, Structural)]
pub enum TagUpsert {
    LookUpTag,
    InsertTag,
    LookUpLink(i32),
    LinkAndCount(i32),
    Done,
}

/// What the store answered to the last step.
#[derive(Debug, Clone, Copy, PartialEq, Eq, Structural)]
pub enum TagAnswer {
    TagFound(i32),
    TagMissing,
    TagInserted(i32),
    LinkFound,
    LinkMissing,
    Counted,
}

/// A tag stored under the same name is reused; a link that exists already is left alone,
/// and a missing one is made and the work counted. An answer that does not fit the step
/// leaves it as it is.
pub open spec fn tag_upsert_next(step: TagUpsert, answer: TagAnswer) -> TagUpsert {
    match (step, answer) {
        (TagUpsert::LookUpTag, TagAnswer::TagFound(id)) => TagUpsert::LookUpLink(id),
        (TagUpsert::LookUpTag, TagAnswer::TagMissing) => TagUpsert::InsertTag,
        (TagUpsert::InsertTag, TagAnswer::TagInserted(id)) => TagUpsert::LookUpLink(id),
        (TagUpsert::LookUpLink(_), TagAnswer::LinkFound) => TagUpsert::Done,
        (TagUpsert::LookUpLink(id), TagAnswer::LinkMissing) => TagUpsert::LinkAndCount(id),
        (TagUpsert::LinkAndCount(_), TagAnswer::Counted) => TagUpsert::Done,
        (s, _) => s,
    }
}

/// The next step of storing one tag of a work.
pub fn tag_upsert_step(step: TagUpsert, answer: TagAnswer) -> (r: TagUpsert)
    ensures
        r == tag_upsert_next(step, answer),
{
    match (step, answer) {
        (TagUpsert::LookUpTag, TagAnswer::TagFound(id)) => TagUpsert::LookUpLink(id),
        (TagUpsert::LookUpTag, TagAnswer::TagMissing) => TagUpsert::InsertTag,
        (TagUpsert::InsertTag, TagAnswer::TagInserted(id)) => TagUpsert::LookUpLink(id),
        (TagUpsert::LookUpLink(_), TagAnswer::LinkFound) => TagUpsert::Done,
        (TagUpsert::LookUpLink(id), TagAnswer::LinkMissing) => TagUpsert::LinkAndCount(id),
        (TagUpsert::LinkAndCount(_), TagAnswer::Counted) => TagUpsert::Done,
        (s, _) => s,
    }
}

/// The step reached after a run of answers, starting from the look-up of the tag.
pub open spec fn tag_run(answers: Seq<TagAnswer>) -> TagUpsert
    decreases answers.len(),
{
    if answers.len() == 0 {
        TagUpsert::LookUpTag
    } else {
        tag_upsert_next(tag_run(answers.drop_last()), answers.last())
    }
}

/// How many times a run links the tag to the work and counts the work.
pub open spec fn count_raises(answers: Seq<TagAnswer>) -> nat
    decreases answers.len(),
{
    if answers.len() == 0 {
        0
    } else {
        count_raises(answers.drop_last()) + if tag_run(answers.drop_last()) is LinkAndCount
            && answers.last() is Counted {
            1nat
        } else {
            0nat
        }
    }
}

/// How many times a run inserts the tag.
pub open spec fn count_inserts(answers: Seq<TagAnswer>) -> nat
    decreases answers.len(),
{
    if answers.len() == 0 {
        0
    } else {
        count_inserts(answers.drop_last()) + if tag_run(answers.drop_last()) is InsertTag
            && answers.last() is TagInserted {
            1nat
        } else {
            0nat
        }
    }
}

/// Whether, in a run, the store answered that the link between the tag and the work
/// was missing.
pub open spec fn link_seen_missing(answers: Seq<TagAnswer>) -> bool
    decreases answers.len(),
{
    if answers.len() == 0 {
        false
    } else {
        link_seen_missing(answers.drop_last()) || (tag_run(answers.drop_last()) is LookUpLink
            && answers.last() is LinkMissing)
    }
}

/// Whether, in a run, the store answered that no tag of that name was stored.
pub open spec fn tag_seen_missing(answers: Seq<TagAnswer>) -> bool
    decreases answers.len(),
{
    if answers.len() == 0 {
        false
    } else {
        tag_seen_missing(answers.drop_last()) || (tag_run(answers.drop_last()) is LookUpTag
            && answers.last() is TagMissing)
    }
}

/// Storing one tag of a work, whatever the store answers, inserts the tag at most once
/// and only after the store reported none of that name, and links it to the work and
/// counts the work at most once and only after the store reported the link missing.
pub proof fn law_tag_stored_at_most_once(answers: Seq<TagAnswer>)
    ensures
        count_inserts(answers) <= 1,
        count_inserts(answers) == 1 ==> tag_seen_missing(answers),
        count_raises(answers) <= 1,
        count_raises(answers) == 1 ==> link_seen_missing(answers),
        count_raises(answers) == 1 ==> tag_run(answers) is Done,
    decreases answers.len(),
{
    if answers.len() > 0 {
        let p = answers.drop_last();
        law_tag_stored_at_most_once(p);
        lemma_tag_run_shape(p);
    } else {
        lemma_tag_run_shape(answers);
    }
}

proof fn lemma_tag_run_shape(answers: Seq<TagAnswer>)
    ensures
        count_inserts(answers) <= 1,
        tag_run(answers) is InsertTag ==> tag_seen_missing(answers) && count_inserts(answers) == 0,
        tag_run(answers) is LookUpTag ==> count_inserts(answers) == 0 && count_raises(answers) == 0,
        count_inserts(answers) == 1 ==> tag_seen_missing(answers),
        count_raises(answers) <= 1,
        tag_run(answers) is LinkAndCount ==> link_seen_missing(answers) && count_raises(answers) == 0,
        count_raises(answers) == 1 ==> link_seen_missing(answers) && tag_run(answers) is Done,
        tag_run(answers) is LookUpLink ==> count_raises(answers) == 0,
        tag_run(answers) is LookUpTag || tag_run(answers) is InsertTag || tag_run(answers) is LookUpLink
            ==> !link_seen_missing(answers),
        link_seen_missing(answers) ==> (tag_run(answers) is LinkAndCount && count_raises(answers)
            == 0) || (tag_run(answers) is Done && count_raises(answers) == 1),
    decreases answers.len(),
{
    if answers.len() > 0 {
        lemma_tag_run_shape(answers.drop_last());
    }
}

/// A run that ends with the tag done, after the store reported the link missing, has
/// linked the tag and counted the work exactly once.
pub proof fn law_missing_link_counted_once(answers: Seq<TagAnswer>)
    requires
        tag_run(answers) is Done,
        link_seen_missing(answers),
    ensures
        count_raises(answers) == 1,
{
    lemma_tag_run_shape(answers);
}

/// A tag that the store has already, linked to the work already, is neither inserted
/// nor linked nor counted again: after the two look-ups find both, the run is done and
/// stays done whatever follows.
pub proof fn law_found_tag_writes_nothing(id: i32, rest: Seq<TagAnswer>)
    ensures
        tag_run(seq![TagAnswer::TagFound(id), TagAnswer::LinkFound] + rest) is Done,
        count_inserts(seq![TagAnswer::TagFound(id), TagAnswer::LinkFound] + rest) == 0,
        count_raises(seq![TagAnswer::TagFound(id), TagAnswer::LinkFound] + rest) == 0,
    decreases rest.len(),
{
    let head = seq![TagAnswer::TagFound(id), TagAnswer::LinkFound];
    let all = head + rest;
    if rest.len() == 0 {
        assert(all =~= head);
        assert(head.drop_last() =~= seq![TagAnswer::TagFound(id)]);
        assert(seq![TagAnswer::TagFound(id)].drop_last() =~= Seq::<TagAnswer>::empty());
        let one = seq![TagAnswer::TagFound(id)];
        assert(tag_run(one.drop_last()) == TagUpsert::LookUpTag);
        assert(count_inserts(one.drop_last()) == 0 && count_raises(one.drop_last()) == 0);
        assert(tag_run(one) == TagUpsert::LookUpLink(id));
        assert(count_inserts(one) == 0 && count_raises(one) == 0);
        assert(tag_run(head) == TagUpsert::Done);
        assert(count_inserts(head) == 0 && count_raises(head) == 0);
    } else {
        law_found_tag_writes_nothing(id, rest.drop_last());
        assert(all.drop_last() =~= head + rest.drop_last());
        assert(tag_run(all.drop_last()) == TagUpsert::Done);
    }
}

/// The step that storing one row of a work's time table is at.
#[derive(Debug, Clone, Copy, PartialEq, Eq, Structural)]
pub enum TimeRowStep {
    LookUp,
    Insert,
    Done,
}

/// What the store answered about a row of a time table.
#[derive(Debug, Clone, Copy, PartialEq, Eq, Structural)]
pub enum RowAnswer {
    RowFound,
    RowMissing,
    RowInserted,
}

/// A row stored already with the same title, position, time and work is left alone; a
/// missing one is inserted. An answer that does not fit the step leaves it as it is.
pub open spec fn time_row_next(step: TimeRowStep, answer: RowAnswer) -> TimeRowStep {
    match (step, answer) {
        (TimeRowStep::LookUp, RowAnswer::RowFound) => TimeRowStep::Done,
        (TimeRowStep::LookUp, RowAnswer::RowMissing) => TimeRowStep::Insert,
        (TimeRowStep::Insert, RowAnswer::RowInserted) => TimeRowStep::Done,
        (s, _) => s,
    }
}

/// The next step of storing one row of a work's time table.
pub fn time_row_step(step: TimeRowStep, answer: RowAnswer) -> (r: TimeRowStep)
    ensures
        r == time_row_next(step, answer),
{
    match (step, answer) {
        (TimeRowStep::LookUp, RowAnswer::RowFound) => TimeRowStep::Done,
        (TimeRowStep::LookUp, RowAnswer::RowMissing) => TimeRowStep::Insert,
        (TimeRowStep::Insert, RowAnswer::RowInserted) => TimeRowStep::Done,
        (s, _) => s,
    }
}

} // verus!
