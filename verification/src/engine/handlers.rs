use vstd::prelude::*;

use crate::text::{format_i32, int_text, join, law_i32_text_round_trip, owned};

verus! {

/// The address of page `k` (counted from 0) of a listing: the listing itself for the
/// first page, then the listing followed by `/page/` and the page's number from 1.
pub open spec fn page_url(base: Seq<char>, k: int) -> Seq<char> {
    if k == 0 {
        base
    } else {
        base + "/page/"@ + int_text(k + 1)
    }
}

/// The address of page `k` (counted from 0) of the listing `base`.
pub fn page_url_for(base: &str, k: i32) -> (r: String)
    requires
        0 <= k < i32::MAX,
    ensures
        r@ == page_url(base@, k as int),
{
    if k == 0 {
        owned(base)
    } else {
        let u = join(owned(base), "/page/");
        let n = format_i32(k + 1);
        join(u, n.as_str())
    }
}

/// The pages of a listing are asked for at distinct addresses: no page is fetched twice.
pub proof fn law_page_urls_distinct(base: Seq<char>, j: int, k: int)
    requires
        0 <= j < k < i32::MAX,
    ensures
        page_url(base, j) != page_url(base, k),
{
    let pre = base + "/page/"@;
    if j == 0 {
        law_i32_text_round_trip((k + 1) as i32);
        assert(int_text(k + 1).len() > 0);
        assert(page_url(base, k).len() > base.len());
    } else {
        law_i32_text_round_trip((j + 1) as i32);
        law_i32_text_round_trip((k + 1) as i32);
        if page_url(base, j) == page_url(base, k) {
            let a = int_text(j + 1);
            let b = int_text(k + 1);
            assert((pre + a).subrange(pre.len() as int, (pre + a).len() as int) =~= a);
            assert((pre + b).subrange(pre.len() as int, (pre + b).len() as int) =~= b);
            assert(a == b);
        }
    }
}

} // verus!
