use vstd::prelude::*;

verus! {

/// The buffer sizes of the channels of a scraping run.
pub struct EngineConfig {
    pub count_channel_buf: usize,
    pub sse_channel_buf: usize,
}

} // verus!
