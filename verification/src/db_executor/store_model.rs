use vstd::prelude::*;

use crate::db_executor::create_meta::{
    at_exactly, kind_len, kind_offset, law_plan_covers_source_once, lemma_lengths_fit, meta_id_next,
    plan_of, tags_len, tag_upsert_next, time_row_next, MetaAnswer, MetaIdStep, RowAnswer,
    TagAnswer, TagKind, TagUpsert, TimeRowStep, UpsertItem,
};
use crate::model::{MetaSrc, TagSrc};

verus! {

/// What the store holds of one kind of tag: the identifier of each tag by name, the
/// count of works kept on each tag, the links between works and tags, and the
/// identifier that the store gives the next tag.
pub struct TagStoreModel {
    pub ids: Map<Seq<char>, i32>,
    pub works: Map<i32, int>,
    pub links: Set<(Seq<char>, i32)>,
    pub next_id: i32,
}

/// The number of works linked to the tag `id`.
pub open spec fn link_count(links: Set<(Seq<char>, i32)>, id: i32) -> nat {
    links.filter(|p: (Seq<char>, i32)| p.1 == id).len()
}

/// The store is consistent: every tag's count of works is the number of works linked to
/// it, every named tag and every link has a count, and every identifier given out lies
/// below the next one.
pub open spec fn counts_match(st: TagStoreModel) -> bool {
    &&& st.links.finite()
    &&& forall|id: i32| #[trigger] st.works.contains_key(id) ==> st.works[id] == link_count(st.links, id)
    &&& forall|id: i32| #[trigger] st.works.contains_key(id) ==> id < st.next_id
    &&& forall|n: Seq<char>| #[trigger] st.ids.contains_key(n) ==> st.works.contains_key(st.ids[n])
    &&& forall|p: (Seq<char>, i32)| #[trigger] st.links.contains(p) ==> st.works.contains_key(p.1)
}

/// What a store that answers truly gives for the step of storing the tag `name` of the
/// work `work`.
pub open spec fn store_answer(st: TagStoreModel, step: TagUpsert, name: Seq<char>, work: Seq<char>) -> TagAnswer {
    match step {
        TagUpsert::LookUpTag => if st.ids.contains_key(name) {
            TagAnswer::TagFound(st.ids[name])
        } else {
            TagAnswer::TagMissing
        },
        TagUpsert::InsertTag => TagAnswer::TagInserted(st.next_id),
        TagUpsert::LookUpLink(id) => if st.links.contains((work, id)) {
            TagAnswer::LinkFound
        } else {
            TagAnswer::LinkMissing
        },
        TagUpsert::LinkAndCount(_) => TagAnswer::Counted,
        TagUpsert::Done => TagAnswer::Counted,
    }
}

/// What the store holds after a step: an inserted tag gets the next identifier and no
/// works; linking adds the link (where it is missing) and counts one more work.
pub open spec fn store_effect(st: TagStoreModel, step: TagUpsert, name: Seq<char>, work: Seq<char>) -> TagStoreModel {
    match step {
        TagUpsert::InsertTag => TagStoreModel {
            ids: st.ids.insert(name, st.next_id),
            works: st.works.insert(st.next_id, 0),
            links: st.links,
            next_id: (st.next_id + 1) as i32,
        },
        TagUpsert::LinkAndCount(id) => TagStoreModel {
            ids: st.ids,
            works: st.works.insert(id, st.works[id] + 1),
            links: st.links.insert((work, id)),
            next_id: st.next_id,
        },
        _ => st,
    }
}

/// The store and the step after `n` steps of storing the tag `name` of `work` against a
/// store that answers truly.
pub open spec fn store_run(st: TagStoreModel, step: TagUpsert, name: Seq<char>, work: Seq<char>, n: nat) -> (TagStoreModel, TagUpsert)
    decreases n,
{
    if n == 0 {
        (st, step)
    } else {
        store_run(
            store_effect(st, step, name, work),
            tag_upsert_next(step, store_answer(st, step, name, work)),
            name,
            work,
            (n - 1) as nat,
        )
    }
}

/// What holds of the store at each step of a run.
pub open spec fn step_fits(st: TagStoreModel, step: TagUpsert, name: Seq<char>, work: Seq<char>) -> bool {
    match step {
        TagUpsert::LookUpTag => st.next_id < i32::MAX,
        TagUpsert::InsertTag => !st.ids.contains_key(name) && st.next_id < i32::MAX,
        TagUpsert::LookUpLink(id) => st.ids.contains_key(name) && st.ids[name] == id,
        TagUpsert::LinkAndCount(id) => st.ids.contains_key(name) && st.ids[name] == id
            && !st.links.contains((work, id)),
        TagUpsert::Done => st.ids.contains_key(name) && st.links.contains((work, st.ids[name])),
    }
}

proof fn lemma_store_step(st: TagStoreModel, step: TagUpsert, name: Seq<char>, work: Seq<char>)
    requires
        counts_match(st),
        step_fits(st, step, name, work),
    ensures
        counts_match(store_effect(st, step, name, work)),
        step_fits(
            store_effect(st, step, name, work),
            tag_upsert_next(step, store_answer(st, step, name, work)),
            name,
            work,
        ),
{
    let st2 = store_effect(st, step, name, work);
    match step {
        TagUpsert::InsertTag => {
            let nid = st.next_id;
            assert forall|id: i32| #[trigger] st2.works.contains_key(id) implies st2.works[id]
                == link_count(st2.links, id) by {
                if id == nid {
                    let f = st.links.filter(|p: (Seq<char>, i32)| p.1 == id);
                    assert(f =~= Set::empty()) by {
                        assert forall|p: (Seq<char>, i32)| !f.contains(p) by {
                            if st.links.contains(p) {
                                assert(st.works.contains_key(p.1));
                            }
                        }
                    }
                }
            }
            assert forall|n: Seq<char>| #[trigger] st2.ids.contains_key(n) implies st2.works.contains_key(
                st2.ids[n],
            ) by {
                if n != name {
                    assert(st.ids.contains_key(n));
                }
            }
        },
        TagUpsert::LinkAndCount(id) => {
            let p0 = (work, id);
            st.links.lemma_len_filter(|p: (Seq<char>, i32)| p.1 == id);
            assert forall|i: i32| #[trigger] st2.works.contains_key(i) implies st2.works[i]
                == link_count(st2.links, i) by {
                let f = st.links.filter(|p: (Seq<char>, i32)| p.1 == i);
                let f2 = st2.links.filter(|p: (Seq<char>, i32)| p.1 == i);
                if i == id {
                    assert(f2 =~= f.insert(p0));
                    st.links.lemma_len_filter(|p: (Seq<char>, i32)| p.1 == i);
                    assert(!f.contains(p0));
                } else {
                    assert(f2 =~= f);
                }
            }
            assert forall|p: (Seq<char>, i32)| #[trigger] st2.links.contains(p) implies st2.works.contains_key(
                p.1,
            ) by {
                if p != p0 {
                    assert(st.links.contains(p));
                }
            }
        },
        _ => {},
    }
}

proof fn lemma_store_run(st: TagStoreModel, step: TagUpsert, name: Seq<char>, work: Seq<char>, n: nat)
    requires
        counts_match(st),
        step_fits(st, step, name, work),
    ensures
        counts_match(store_run(st, step, name, work, n).0),
        step_fits(store_run(st, step, name, work, n).0, store_run(st, step, name, work, n).1, name, work),
    decreases n,
{
    if n > 0 {
        lemma_store_step(st, step, name, work);
        lemma_store_run(
            store_effect(st, step, name, work),
            tag_upsert_next(step, store_answer(st, step, name, work)),
            name,
            work,
            (n - 1) as nat,
        );
    }
}

/// Storing a tag keeps each tag's count of works equal to the number of works linked to
/// it, at every step, whatever the store held before as long as it was consistent.
pub proof fn law_works_match_links(st: TagStoreModel, name: Seq<char>, work: Seq<char>, n: nat)
    requires
        counts_match(st),
        st.next_id < i32::MAX,
    ensures
        counts_match(store_run(st, TagUpsert::LookUpTag, name, work, n).0),
{
    lemma_store_run(st, TagUpsert::LookUpTag, name, work, n);
}

/// Storing a tag ends within four steps, with the tag stored and linked to the work.
pub proof fn law_tag_stored_in_four_steps(st: TagStoreModel, name: Seq<char>, work: Seq<char>)
    requires
        counts_match(st),
        st.next_id < i32::MAX,
    ensures
        store_run(st, TagUpsert::LookUpTag, name, work, 4).1 == TagUpsert::Done,
        store_run(st, TagUpsert::LookUpTag, name, work, 4).0.ids.contains_key(name),
        store_run(st, TagUpsert::LookUpTag, name, work, 4).0.links.contains(
            (work, store_run(st, TagUpsert::LookUpTag, name, work, 4).0.ids[name]),
        ),
{
    lemma_store_run(st, TagUpsert::LookUpTag, name, work, 4);
    let s1 = store_effect(st, TagUpsert::LookUpTag, name, work);
    let t1 = tag_upsert_next(TagUpsert::LookUpTag, store_answer(st, TagUpsert::LookUpTag, name, work));
    let s2 = store_effect(s1, t1, name, work);
    let t2 = tag_upsert_next(t1, store_answer(s1, t1, name, work));
    let s3 = store_effect(s2, t2, name, work);
    let t3 = tag_upsert_next(t2, store_answer(s2, t2, name, work));
    let s4 = store_effect(s3, t3, name, work);
    let t4 = tag_upsert_next(t3, store_answer(s3, t3, name, work));
    assert(store_run(s3, t3, name, work, 1) == store_run(s4, t4, name, work, 0));
    assert(store_run(s2, t2, name, work, 2) == store_run(s3, t3, name, work, 1));
    assert(store_run(s1, t1, name, work, 3) == store_run(s2, t2, name, work, 2));
    lemma_store_step(st, TagUpsert::LookUpTag, name, work);
    lemma_store_step(s1, t1, name, work);
    lemma_store_step(s2, t2, name, work);
    lemma_store_step(s3, t3, name, work);
}

proof fn lemma_stored_tag_run(st: TagStoreModel, step: TagUpsert, name: Seq<char>, work: Seq<char>, n: nat)
    requires
        st.ids.contains_key(name),
        st.links.contains((work, st.ids[name])),
        step == TagUpsert::LookUpTag || step == TagUpsert::LookUpLink(st.ids[name]) || step
            == TagUpsert::Done,
    ensures
        store_run(st, step, name, work, n).0 == st,
        store_run(st, step, name, work, n).1 == TagUpsert::Done || n == 0 || (n == 1 && step
            == TagUpsert::LookUpTag),
    decreases n,
{
    if n > 0 {
        let next = tag_upsert_next(step, store_answer(st, step, name, work));
        lemma_stored_tag_run(st, next, name, work, (n - 1) as nat);
    }
}

/// Storing a tag that is stored and linked to the work already changes nothing in the
/// store: no tag is inserted, no link made and no work counted, at any step.
pub proof fn law_restoring_tag_changes_nothing(st: TagStoreModel, name: Seq<char>, work: Seq<char>, n: nat)
    requires
        st.ids.contains_key(name),
        st.links.contains((work, st.ids[name])),
    ensures
        store_run(st, TagUpsert::LookUpTag, name, work, n).0 == st,
{
    lemma_stored_tag_run(st, TagUpsert::LookUpTag, name, work, n);
}

/// Storing the same tag of the same work twice leaves the store as the first time left
/// it: the second run inserts, links and counts nothing.
pub proof fn law_storing_tag_twice(st: TagStoreModel, name: Seq<char>, work: Seq<char>, n: nat)
    requires
        counts_match(st),
        st.next_id < i32::MAX,
    ensures
        store_run(store_run(st, TagUpsert::LookUpTag, name, work, 4).0, TagUpsert::LookUpTag, name, work, n).0
            == store_run(st, TagUpsert::LookUpTag, name, work, 4).0,
{
    law_tag_stored_in_four_steps(st, name, work);
    law_restoring_tag_changes_nothing(store_run(st, TagUpsert::LookUpTag, name, work, 4).0, name, work, n);
}

/// The store `b` holds every tag of `a` under the same identifier, and every link of `a`.
pub open spec fn tag_grows(a: TagStoreModel, b: TagStoreModel) -> bool {
    &&& forall|n: Seq<char>| #[trigger] a.ids.contains_key(n) ==> b.ids.contains_key(n) && b.ids[n] == a.ids[n]
    &&& forall|p: (Seq<char>, i32)| #[trigger] a.links.contains(p) ==> b.links.contains(p)
}

/// The tag `name` is stored and linked to `work`.
pub open spec fn tag_present(st: TagStoreModel, name: Seq<char>, work: Seq<char>) -> bool {
    st.ids.contains_key(name) && st.links.contains((work, st.ids[name]))
}

proof fn lemma_store_run_grows(
    st: TagStoreModel,
    step: TagUpsert,
    name: Seq<char>,
    work: Seq<char>,
    n: nat,
    base: int,
)
    requires
        counts_match(st),
        step_fits(st, step, name, work),
        (step is LookUpTag || step is InsertTag) ==> st.next_id == base,
        base <= st.next_id <= base + 1,
    ensures
        tag_grows(st, store_run(st, step, name, work, n).0),
        base <= store_run(st, step, name, work, n).0.next_id <= base + 1,
    decreases n,
{
    if n > 0 {
        let st2 = store_effect(st, step, name, work);
        let step2 = tag_upsert_next(step, store_answer(st, step, name, work));
        lemma_store_step(st, step, name, work);
        lemma_store_run_grows(st2, step2, name, work, (n - 1) as nat, base);
        let r = store_run(st2, step2, name, work, (n - 1) as nat).0;
        assert forall|k: Seq<char>| #[trigger] st.ids.contains_key(k) implies r.ids.contains_key(k)
            && r.ids[k] == st.ids[k] by {
            assert(st2.ids.contains_key(k) && st2.ids[k] == st.ids[k]);
        }
        assert forall|p: (Seq<char>, i32)| #[trigger] st.links.contains(p) implies r.links.contains(p) by {
            assert(st2.links.contains(p));
        }
    }
}

/// What the store holds of the works by title.
pub type MetaStoreModel = Map<Seq<char>, String>;

/// What a store that answers truly gives for the step of storing the work itself under
/// `title`; a new work is given the identifier `new_id`, and the probe finds `file_path`.
pub open spec fn meta_answer(
    metas: MetaStoreModel,
    step: MetaIdStep,
    title: Seq<char>,
    new_id: String,
    file_path: String,
) -> MetaAnswer {
    match step {
        MetaIdStep::LookUp => if metas.contains_key(title) {
            MetaAnswer::Found(metas[title])
        } else {
            MetaAnswer::Missing
        },
        MetaIdStep::Probe => MetaAnswer::FilePath(file_path),
        MetaIdStep::Insert(_) => MetaAnswer::Inserted(new_id),
        MetaIdStep::Known(_) => MetaAnswer::Missing,
    }
}

pub open spec fn meta_effect(metas: MetaStoreModel, step: MetaIdStep, title: Seq<char>, new_id: String) -> MetaStoreModel {
    match step {
        MetaIdStep::Insert(_) => metas.insert(title, new_id),
        _ => metas,
    }
}

pub open spec fn meta_store_run(
    metas: MetaStoreModel,
    step: MetaIdStep,
    title: Seq<char>,
    new_id: String,
    file_path: String,
    n: nat,
) -> (MetaStoreModel, MetaIdStep)
    decreases n,
{
    if n == 0 {
        (metas, step)
    } else {
        meta_store_run(
            meta_effect(metas, step, title, new_id),
            meta_id_next(step, meta_answer(metas, step, title, new_id, file_path)),
            title,
            new_id,
            file_path,
            (n - 1) as nat,
        )
    }
}

proof fn lemma_known_meta_run(metas: MetaStoreModel, title: Seq<char>, new_id: String, file_path: String, n: nat)
    requires
        metas.contains_key(title),
    ensures
        n > 0 ==> meta_store_run(metas, MetaIdStep::LookUp, title, new_id, file_path, n)
            == (metas, MetaIdStep::Known(metas[title])),
{
    if n > 0 {
        lemma_known_stays(metas, metas[title], title, new_id, file_path, (n - 1) as nat);
    }
}

proof fn lemma_known_stays(metas: MetaStoreModel, id: String, title: Seq<char>, new_id: String, file_path: String, n: nat)
    ensures
        meta_store_run(metas, MetaIdStep::Known(id), title, new_id, file_path, n) == (
            metas,
            MetaIdStep::Known(id),
        ),
    decreases n,
{
    if n > 0 {
        lemma_known_stays(metas, id, title, new_id, file_path, (n - 1) as nat);
    }
}

proof fn lemma_meta_four_steps(metas: MetaStoreModel, title: Seq<char>, new_id: String, file_path: String)
    ensures
        meta_store_run(metas, MetaIdStep::LookUp, title, new_id, file_path, 4).0.contains_key(title),
        meta_store_run(metas, MetaIdStep::LookUp, title, new_id, file_path, 4).1 == MetaIdStep::Known(
            meta_store_run(metas, MetaIdStep::LookUp, title, new_id, file_path, 4).0[title],
        ),
{
    if metas.contains_key(title) {
        lemma_known_meta_run(metas, title, new_id, file_path, 4);
    } else {
        let m2 = metas.insert(title, new_id);
        assert(meta_store_run(metas, MetaIdStep::LookUp, title, new_id, file_path, 4)
            == meta_store_run(metas, MetaIdStep::Probe, title, new_id, file_path, 3));
        assert(meta_store_run(metas, MetaIdStep::Probe, title, new_id, file_path, 3)
            == meta_store_run(metas, MetaIdStep::Insert(file_path), title, new_id, file_path, 2));
        assert(meta_store_run(metas, MetaIdStep::Insert(file_path), title, new_id, file_path, 2)
            == meta_store_run(m2, MetaIdStep::Known(new_id), title, new_id, file_path, 1));
        lemma_known_stays(m2, new_id, title, new_id, file_path, 1);
    }
}

/// A row of a time table: its title, position, time and work.
pub type RowKey = (Seq<char>, i32, Seq<char>, Seq<char>);

pub open spec fn row_answer(rows: Set<RowKey>, step: TimeRowStep, row: RowKey) -> RowAnswer {
    match step {
        TimeRowStep::LookUp => if rows.contains(row) {
            RowAnswer::RowFound
        } else {
            RowAnswer::RowMissing
        },
        _ => RowAnswer::RowInserted,
    }
}

pub open spec fn row_effect(rows: Set<RowKey>, step: TimeRowStep, row: RowKey) -> Set<RowKey> {
    match step {
        TimeRowStep::Insert => rows.insert(row),
        _ => rows,
    }
}

pub open spec fn row_run(rows: Set<RowKey>, step: TimeRowStep, row: RowKey, n: nat) -> (Set<RowKey>, TimeRowStep)
    decreases n,
{
    if n == 0 {
        (rows, step)
    } else {
        row_run(row_effect(rows, step, row), time_row_next(step, row_answer(rows, step, row)), row, (n - 1) as nat)
    }
}

proof fn lemma_row_present_run(rows: Set<RowKey>, step: TimeRowStep, row: RowKey, n: nat)
    requires
        rows.contains(row),
        step == TimeRowStep::LookUp || step == TimeRowStep::Done,
    ensures
        row_run(rows, step, row, n).0 == rows,
    decreases n,
{
    if n > 0 {
        lemma_row_present_run(rows, time_row_next(step, row_answer(rows, step, row)), row, (n - 1) as nat);
    }
}

proof fn lemma_row_two_steps(rows: Set<RowKey>, row: RowKey)
    ensures
        row_run(rows, TimeRowStep::LookUp, row, 2).0 == rows.insert(row),
{
    if rows.contains(row) {
        lemma_row_present_run(rows, TimeRowStep::LookUp, row, 2);
        assert(rows.insert(row) =~= rows);
    } else {
        assert(row_run(rows, TimeRowStep::LookUp, row, 2) == row_run(rows, TimeRowStep::Insert, row, 1));
        assert(row_run(rows, TimeRowStep::Insert, row, 1) == row_run(rows.insert(row), TimeRowStep::Done, row, 0));
    }
}

/// What the store holds of works, of each kind of tag, and of time-table rows.
pub struct WorkStoreModel {
    pub metas: MetaStoreModel,
    pub kinds: Map<TagKind, TagStoreModel>,
    pub rows: Set<RowKey>,
}

/// The source's list of tags of a kind.
pub open spec fn tag_list(src: MetaSrc, kind: TagKind) -> Seq<TagSrc> {
    match kind {
        TagKind::Cv => src.cv@,
        TagKind::Genre => src.genre@,
        TagKind::Circle => src.circle@,
        TagKind::Illust => src.illust@,
        TagKind::Series => src.series@,
    }
}

/// The row that a position of the source's time table stands for, for `work`.
pub open spec fn row_key(src: MetaSrc, i: int, work: Seq<char>) -> RowKey {
    let t = src.time_table@[i];
    (t.title@, t.index, t.time@, work)
}

/// The store after one piece of storing a work, against a store that answers truly.
pub open spec fn apply_item(ws: WorkStoreModel, src: MetaSrc, work: Seq<char>, item: UpsertItem) -> WorkStoreModel {
    match item {
        UpsertItem::Tag(kind, i) => WorkStoreModel {
            kinds: ws.kinds.insert(
                kind,
                store_run(ws.kinds[kind], TagUpsert::LookUpTag, tag_list(src, kind)[i as int].name@, work, 4).0,
            ),
            ..ws
        },
        UpsertItem::TimeRow(i) => WorkStoreModel {
            rows: row_run(ws.rows, TimeRowStep::LookUp, row_key(src, i as int, work), 2).0,
            ..ws
        },
    }
}

pub open spec fn fold_items(ws: WorkStoreModel, src: MetaSrc, work: Seq<char>, items: Seq<UpsertItem>) -> WorkStoreModel
    decreases items.len(),
{
    if items.len() == 0 {
        ws
    } else {
        apply_item(fold_items(ws, src, work, items.drop_last()), src, work, items.last())
    }
}

/// The identifier under which the work ends up stored, when the look-up of its title
/// runs against a store that answers truly.
pub open spec fn stored_work_id(metas: MetaStoreModel, src: MetaSrc, file_path: String) -> Seq<char> {
    match meta_store_run(metas, MetaIdStep::LookUp, src.title@, src.id, file_path, 4).1 {
        MetaIdStep::Known(id) => id@,
        _ => Seq::empty(),
    }
}

/// The store after storing the work `src` whole: the work itself, then every piece of
/// its plan in order; `file_path` is what the probe of the storages finds.
pub open spec fn work_after(ws: WorkStoreModel, src: MetaSrc, file_path: String) -> WorkStoreModel {
    let metas = meta_store_run(ws.metas, MetaIdStep::LookUp, src.title@, src.id, file_path, 4).0;
    fold_items(
        WorkStoreModel { metas, ..ws },
        src,
        stored_work_id(ws.metas, src, file_path),
        plan_of(src),
    )
}

/// Every kind of tag is in the store, and consistent.
pub open spec fn kinds_consistent(ws: WorkStoreModel) -> bool {
    forall|k: TagKind| #[trigger] ws.kinds.contains_key(k) && counts_match(ws.kinds[k])
}

/// Every kind's next identifier leaves room for `n` more tags.
pub open spec fn room_for(ws: WorkStoreModel, n: int) -> bool {
    forall|k: TagKind| #[trigger] ws.kinds[k].next_id + n < i32::MAX
}

pub open spec fn item_present(ws: WorkStoreModel, src: MetaSrc, work: Seq<char>, item: UpsertItem) -> bool {
    match item {
        UpsertItem::Tag(kind, i) => tag_present(ws.kinds[kind], tag_list(src, kind)[i as int].name@, work),
        UpsertItem::TimeRow(i) => ws.rows.contains(row_key(src, i as int, work)),
    }
}

pub open spec fn work_grows(a: WorkStoreModel, b: WorkStoreModel) -> bool {
    &&& forall|k: TagKind| #[trigger] tag_grows(a.kinds[k], b.kinds[k])
    &&& forall|r: RowKey| #[trigger] a.rows.contains(r) ==> b.rows.contains(r)
}

proof fn lemma_present_kept(a: WorkStoreModel, b: WorkStoreModel, src: MetaSrc, work: Seq<char>, item: UpsertItem)
    requires
        work_grows(a, b),
        item_present(a, src, work, item),
    ensures
        item_present(b, src, work, item),
{
    match item {
        UpsertItem::Tag(kind, i) => {
            assert(tag_grows(a.kinds[kind], b.kinds[kind]));
            let name = tag_list(src, kind)[i as int].name@;
            assert(a.kinds[kind].ids.contains_key(name));
            assert(a.kinds[kind].links.contains((work, a.kinds[kind].ids[name])));
        },
        UpsertItem::TimeRow(i) => {},
    }
}

proof fn lemma_apply_item_first(ws: WorkStoreModel, src: MetaSrc, work: Seq<char>, item: UpsertItem, n: int)
    requires
        n >= 0,
        kinds_consistent(ws),
        room_for(ws, n + 1),
    ensures
        kinds_consistent(apply_item(ws, src, work, item)),
        room_for(apply_item(ws, src, work, item), n),
        work_grows(ws, apply_item(ws, src, work, item)),
        item_present(apply_item(ws, src, work, item), src, work, item),
        apply_item(ws, src, work, item).metas == ws.metas,
{
    let r = apply_item(ws, src, work, item);
    match item {
        UpsertItem::Tag(kind, i) => {
            let st = ws.kinds[kind];
            let name = tag_list(src, kind)[i as int].name@;
            assert(ws.kinds.contains_key(kind) && counts_match(st));
            assert(st.next_id + n + 1 < i32::MAX);
            law_works_match_links(st, name, work, 4);
            law_tag_stored_in_four_steps(st, name, work);
            lemma_store_run_grows(st, TagUpsert::LookUpTag, name, work, 4, st.next_id as int);
            assert forall|k: TagKind| #[trigger] r.kinds.contains_key(k) && counts_match(r.kinds[k]) by {
                assert(ws.kinds.contains_key(k));
            }
            assert forall|k: TagKind| #[trigger] r.kinds[k].next_id + n < i32::MAX by {
                assert(ws.kinds[k].next_id + n + 1 < i32::MAX);
            }
            assert forall|k: TagKind| #[trigger] tag_grows(ws.kinds[k], r.kinds[k]) by {
                if k != kind {
                    assert(r.kinds[k] == ws.kinds[k]);
                }
            }
        },
        UpsertItem::TimeRow(i) => {
            lemma_row_two_steps(ws.rows, row_key(src, i as int, work));
            assert forall|k: TagKind| #[trigger] r.kinds.contains_key(k) && counts_match(r.kinds[k]) by {
                assert(ws.kinds.contains_key(k));
            }
            assert forall|k: TagKind| #[trigger] r.kinds[k].next_id + n < i32::MAX by {
                assert(ws.kinds[k].next_id + n + 1 < i32::MAX);
            }
            assert forall|k: TagKind| #[trigger] tag_grows(ws.kinds[k], r.kinds[k]) by {
            }
        },
    }
}

proof fn lemma_fold_first(ws: WorkStoreModel, src: MetaSrc, work: Seq<char>, items: Seq<UpsertItem>, n: int)
    requires
        n >= 0,
        kinds_consistent(ws),
        room_for(ws, n + items.len()),
    ensures
        kinds_consistent(fold_items(ws, src, work, items)),
        room_for(fold_items(ws, src, work, items), n),
        work_grows(ws, fold_items(ws, src, work, items)),
        fold_items(ws, src, work, items).metas == ws.metas,
        forall|j: int| 0 <= j < items.len() ==> item_present(fold_items(ws, src, work, items), src, work, #[trigger] items[j]),
    decreases items.len(),
{
    if items.len() > 0 {
        let p = items.drop_last();
        lemma_fold_first(ws, src, work, p, n + 1);
        let r0 = fold_items(ws, src, work, p);
        lemma_apply_item_first(r0, src, work, items.last(), n);
        let r = fold_items(ws, src, work, items);
        assert forall|k: TagKind| #[trigger] tag_grows(ws.kinds[k], r.kinds[k]) by {
            assert(tag_grows(ws.kinds[k], r0.kinds[k]));
            assert(tag_grows(r0.kinds[k], r.kinds[k]));
            assert forall|nm: Seq<char>| #[trigger] ws.kinds[k].ids.contains_key(nm) implies r.kinds[k].ids.contains_key(nm)
                && r.kinds[k].ids[nm] == ws.kinds[k].ids[nm] by {
                assert(r0.kinds[k].ids.contains_key(nm));
            }
            assert forall|q: (Seq<char>, i32)| #[trigger] ws.kinds[k].links.contains(q) implies r.kinds[k].links.contains(q) by {
                assert(r0.kinds[k].links.contains(q));
            }
        }
        assert forall|j: int| 0 <= j < items.len() implies item_present(r, src, work, #[trigger] items[j]) by {
            if j < items.len() - 1 {
                assert(p[j] == items[j]);
                lemma_present_kept(r0, r, src, work, items[j]);
            }
        }
    }
}

proof fn lemma_apply_item_again(ws: WorkStoreModel, src: MetaSrc, work: Seq<char>, item: UpsertItem)
    requires
        item_present(ws, src, work, item),
        forall|k: TagKind| #[trigger] ws.kinds.contains_key(k),
    ensures
        apply_item(ws, src, work, item) == ws,
{
    match item {
        UpsertItem::Tag(kind, i) => {
            let name = tag_list(src, kind)[i as int].name@;
            law_restoring_tag_changes_nothing(ws.kinds[kind], name, work, 4);
            assert(ws.kinds.insert(kind, ws.kinds[kind]) =~= ws.kinds);
        },
        UpsertItem::TimeRow(i) => {
            lemma_row_present_run(ws.rows, TimeRowStep::LookUp, row_key(src, i as int, work), 2);
        },
    }
}

proof fn lemma_fold_again(ws: WorkStoreModel, src: MetaSrc, work: Seq<char>, items: Seq<UpsertItem>)
    requires
        forall|j: int| 0 <= j < items.len() ==> item_present(ws, src, work, #[trigger] items[j]),
        forall|k: TagKind| #[trigger] ws.kinds.contains_key(k),
    ensures
        fold_items(ws, src, work, items) == ws,
    decreases items.len(),
{
    if items.len() > 0 {
        let p = items.drop_last();
        assert forall|j: int| 0 <= j < p.len() implies item_present(ws, src, work, #[trigger] p[j]) by {
            assert(p[j] == items[j]);
        }
        lemma_fold_again(ws, src, work, p);
        assert(item_present(ws, src, work, items[items.len() - 1]));
        lemma_apply_item_again(ws, src, work, items.last());
    }
}

/// Storing a work against a consistent store leaves it consistent: every tag's count of
/// works is the number of works linked to it.
pub proof fn law_storing_work_keeps_counts(ws: WorkStoreModel, src: MetaSrc, file_path: String)
    requires
        kinds_consistent(ws),
        room_for(ws, plan_of(src).len() as int),
    ensures
        kinds_consistent(work_after(ws, src, file_path)),
{
    let metas = meta_store_run(ws.metas, MetaIdStep::LookUp, src.title@, src.id, file_path, 4).0;
    let w0 = WorkStoreModel { metas, ..ws };
    lemma_fold_first(w0, src, stored_work_id(ws.metas, src, file_path), plan_of(src), 0);
}

/// Storing a work leaves it in the store under its title, and, for the identifier it
/// is stored under, each of its tags stored and linked to it and each row of its time
/// table present.
pub proof fn law_stored_work_present(ws: WorkStoreModel, src: MetaSrc, file_path: String)
    requires
        kinds_consistent(ws),
        room_for(ws, plan_of(src).len() as int),
    ensures
        work_after(ws, src, file_path).metas.contains_key(src.title@),
        stored_work_id(ws.metas, src, file_path) == work_after(ws, src, file_path).metas[src.title@]@,
        forall|kind: TagKind, i: int|
            0 <= i < kind_len(src, kind) ==> #[trigger] tag_present(
                work_after(ws, src, file_path).kinds[kind],
                tag_list(src, kind)[i].name@,
                stored_work_id(ws.metas, src, file_path),
            ),
        forall|i: int|
            0 <= i < src.time_table@.len() ==> #[trigger] work_after(ws, src, file_path).rows.contains(
                row_key(src, i, stored_work_id(ws.metas, src, file_path)),
            ),
{
    let run1 = meta_store_run(ws.metas, MetaIdStep::LookUp, src.title@, src.id, file_path, 4);
    let w0 = WorkStoreModel { metas: run1.0, ..ws };
    let work = stored_work_id(ws.metas, src, file_path);
    let plan = plan_of(src);
    let w1 = work_after(ws, src, file_path);
    lemma_meta_four_steps(ws.metas, src.title@, src.id, file_path);
    lemma_fold_first(w0, src, work, plan, 0);
    law_plan_covers_source_once(src);
    lemma_lengths_fit(src);
    assert forall|kind: TagKind, i: int| 0 <= i < kind_len(src, kind) implies #[trigger] tag_present(
        w1.kinds[kind],
        tag_list(src, kind)[i].name@,
        work,
    ) by {
        assert(at_exactly(plan, UpsertItem::Tag(kind, i as usize), kind_offset(src, kind) + i));
        let j = kind_offset(src, kind) + i;
        assert(item_present(w1, src, work, plan[j]));
        assert(kind_len(src, kind) <= usize::MAX);
    }
    assert forall|i: int| 0 <= i < src.time_table@.len() implies #[trigger] w1.rows.contains(
        row_key(src, i, work),
    ) by {
        assert(at_exactly(plan, UpsertItem::TimeRow(i as usize), tags_len(src) + i));
        let j = tags_len(src) + i;
        assert(item_present(w1, src, work, plan[j]));
    }
}

/// Storing the same work twice leaves the store as the first time left it: the second
/// time the work is found under its title (so no storage is probed), and every tag,
/// link and row is found, so nothing is inserted and no work is counted again.
pub proof fn law_storing_work_twice(ws: WorkStoreModel, src: MetaSrc, file_path: String, file_path2: String)
    requires
        kinds_consistent(ws),
        room_for(ws, plan_of(src).len() as int),
    ensures
        work_after(work_after(ws, src, file_path), src, file_path2) == work_after(ws, src, file_path),
        meta_store_run(work_after(ws, src, file_path).metas, MetaIdStep::LookUp, src.title@, src.id, file_path2, 4).1
            == meta_store_run(ws.metas, MetaIdStep::LookUp, src.title@, src.id, file_path, 4).1,
{
    let run1 = meta_store_run(ws.metas, MetaIdStep::LookUp, src.title@, src.id, file_path, 4);
    let metas = run1.0;
    let w0 = WorkStoreModel { metas, ..ws };
    let work = stored_work_id(ws.metas, src, file_path);
    lemma_meta_four_steps(ws.metas, src.title@, src.id, file_path);
    lemma_fold_first(w0, src, work, plan_of(src), 0);
    let w1 = work_after(ws, src, file_path);
    assert(w1.metas == metas);
    lemma_known_meta_run(metas, src.title@, src.id, file_path2, 4);
    assert(stored_work_id(w1.metas, src, file_path2) == work);
    let w1b = WorkStoreModel { metas: w1.metas, ..w1 };
    assert(w1b == w1);
    assert forall|k: TagKind| #[trigger] w1.kinds.contains_key(k) by {
        assert(kinds_consistent(w1));
    }
    lemma_fold_again(w1, src, work, plan_of(src));
}

} // verus!
