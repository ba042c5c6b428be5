pub mod create_meta;
pub mod db_response;
pub mod err;
pub mod find_roughs;
pub mod store_model;

pub use create_meta::{
    choose_file_path, head_target, meta_id_step, new_meta_row, MetaRow, tag_upsert_step, time_row_step, upsert_plan,
    HeadOutcome, MetaAnswer, MetaIdStep, RowAnswer, TagAnswer, TagKind, TagUpsert, TimeRowStep,
    UpsertItem,
};
pub use db_response::{Detail, Meta, Roughs, Tag, TimeTable};
pub use err::DBExecutorErr;
pub use find_roughs::{collect_found_ids, roughs_filters, KindFilter, RoughsPage, TagFinderStruct};
