use meta_engine::db_executor::{
    meta_id_step, new_meta_row, tag_upsert_step, time_row_step, upsert_plan, MetaAnswer, MetaIdStep, RowAnswer,
    TagAnswer, TagKind, TagUpsert, TimeRowStep, UpsertItem,
};
use meta_engine::model::{MetaSrc, TagSrc, TimeTableSrc};

fn tag(n: &str) -> TagSrc {
    TagSrc { name: n.to_string(), url: format!("u/{n}") }
}

fn source() -> MetaSrc {
    MetaSrc {
        id: "rj1".into(),
        title: "t".into(),
        url: "u".into(),
        img_src: None,
        time: 5,
        cv: vec![tag("a"), tag("b")],
        genre: vec![tag("g")],
        illust: vec![tag("i")],
        circle: vec![],
        series: vec![tag("s")],
        time_table: vec![TimeTableSrc { index: 1, title: "x".into(), time: "0:00".into() }],
    }
}

#[test]
fn plan_order_of_a_work() {
    assert_eq!(
        upsert_plan(&source()),
        vec![
            UpsertItem::Tag(TagKind::Cv, 0),
            UpsertItem::Tag(TagKind::Cv, 1),
            UpsertItem::Tag(TagKind::Genre, 0),
            UpsertItem::Tag(TagKind::Illust, 0),
            UpsertItem::Tag(TagKind::Series, 0),
            UpsertItem::TimeRow(0),
        ]
    );
}

#[test]
fn tag_steps_for_a_new_tag() {
    let s = tag_upsert_step(TagUpsert::LookUpTag, TagAnswer::TagMissing);
    assert_eq!(s, TagUpsert::InsertTag);
    let s = tag_upsert_step(s, TagAnswer::TagInserted(9));
    assert_eq!(s, TagUpsert::LookUpLink(9));
    let s = tag_upsert_step(s, TagAnswer::LinkMissing);
    assert_eq!(s, TagUpsert::LinkAndCount(9));
    let s = tag_upsert_step(s, TagAnswer::Counted);
    assert_eq!(s, TagUpsert::Done);
    assert_eq!(tag_upsert_step(s, TagAnswer::LinkMissing), TagUpsert::Done);
}

#[test]
fn tag_steps_for_a_linked_tag() {
    let s = tag_upsert_step(TagUpsert::LookUpTag, TagAnswer::TagFound(3));
    assert_eq!(s, TagUpsert::LookUpLink(3));
    assert_eq!(tag_upsert_step(s, TagAnswer::LinkFound), TagUpsert::Done);
    assert_eq!(tag_upsert_step(TagUpsert::InsertTag, TagAnswer::Counted), TagUpsert::InsertTag);
}

#[test]
fn work_steps() {
    assert!(matches!(
        meta_id_step(MetaIdStep::LookUp, MetaAnswer::Found("old".into())),
        MetaIdStep::Known(id) if id == "old"
    ));
    assert!(matches!(meta_id_step(MetaIdStep::LookUp, MetaAnswer::Missing), MetaIdStep::Probe));
    assert!(matches!(
        meta_id_step(MetaIdStep::Probe, MetaAnswer::FilePath("p".into())),
        MetaIdStep::Insert(p) if p == "p"
    ));
    assert!(matches!(
        meta_id_step(MetaIdStep::Insert("p".into()), MetaAnswer::Inserted("new".into())),
        MetaIdStep::Known(id) if id == "new"
    ));
}

#[test]
fn time_row_steps() {
    assert_eq!(time_row_step(TimeRowStep::LookUp, RowAnswer::RowFound), TimeRowStep::Done);
    assert_eq!(time_row_step(TimeRowStep::LookUp, RowAnswer::RowMissing), TimeRowStep::Insert);
    assert_eq!(time_row_step(TimeRowStep::Insert, RowAnswer::RowInserted), TimeRowStep::Done);
    assert_eq!(time_row_step(TimeRowStep::Done, RowAnswer::RowMissing), TimeRowStep::Done);
}

#[test]
fn found_tag_and_link_write_nothing() {
    let s = tag_upsert_step(TagUpsert::LookUpTag, TagAnswer::TagFound(5));
    let s = tag_upsert_step(s, TagAnswer::LinkFound);
    assert_eq!(s, TagUpsert::Done);
    for a in [TagAnswer::TagMissing, TagAnswer::TagInserted(1), TagAnswer::LinkMissing, TagAnswer::Counted] {
        assert_eq!(tag_upsert_step(s, a), TagUpsert::Done);
    }
}

#[test]
fn new_work_row() {
    let src = source();
    let row = new_meta_row(&src, "https://cdn3.cloudintech.net/file/RJ1/RJ1.m3u8".to_string());
    assert_eq!(row.id, "rj1");
    assert_eq!(row.title, "t");
    assert_eq!(row.url, "u");
    assert_eq!(row.img_src, None);
    assert_eq!(row.time, 5);
    assert_eq!(row.file_path, "https://cdn3.cloudintech.net/file/RJ1/RJ1.m3u8");
    let mut src2 = source();
    src2.img_src = Some("img".into());
    assert_eq!(new_meta_row(&src2, String::new()).img_src, Some("img".to_string()));
}
