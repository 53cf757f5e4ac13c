//! The frame uploader's copy plan.
//!
//! Each frame, every draw list's vertex and index arrays are copied
//! contiguously, in list order, into the mapped vertex and index
//! buffers. The verified core computes the partition — one copy span per
//! list, with running destination offsets — and the shell performs the
//! byte copies through the mapped pointers.

use vstd::prelude::*;

use crate::draw::DrawData;
use crate::draw::DrawList;
use crate::draw::lemma_sum_counts_take;
use crate::draw::sum_idx_counts;
use crate::draw::sum_vtx_counts;

verus! {

/// One copy: draw list `list`'s vertices go to `vtx_offset` elements
/// into the mapped vertex buffer, its indices to `idx_offset` elements
/// into the mapped index buffer.
#[derive(Clone, Copy, PartialEq, Eq, Structural, Debug)]
pub struct UploadSpan {
    pub list: usize,
    pub vtx_offset: usize,
    pub idx_offset: usize,
    pub vtx_count: usize,
    pub idx_count: usize,
}

/// The copy plan of a sequence of lists: one span per list, in order,
/// each span's offsets the sums of the counts before it.
pub open spec fn spec_upload_spans(lists: Seq<DrawList>) -> Seq<UploadSpan>
    decreases lists.len(),
{
    if lists.len() == 0 {
        Seq::empty()
    } else {
        spec_upload_spans(lists.drop_last()).push(
            UploadSpan {
                list: (lists.len() - 1) as usize,
                vtx_offset: sum_vtx_counts(lists.drop_last()) as usize,
                idx_offset: sum_idx_counts(lists.drop_last()) as usize,
                vtx_count: lists.last().vtx_count,
                idx_count: lists.last().idx_count,
            },
        )
    }
}

/// The copy plan has one span per list.
pub proof fn lemma_upload_spans_len(lists: Seq<DrawList>)
    ensures
        spec_upload_spans(lists).len() == lists.len(),
    decreases lists.len(),
{
    if lists.len() > 0 {
        lemma_upload_spans_len(lists.drop_last());
    }
}

/// The copy plan partitions the buffers: span `i` covers list `i`, its
/// offsets are the sums of the earlier lists' counts, so the spans are
/// contiguous and in list order.
pub proof fn lemma_upload_spans_partition(lists: Seq<DrawList>, i: int)
    requires
        0 <= i < lists.len(),
    ensures
        spec_upload_spans(lists).len() == lists.len(),
        spec_upload_spans(lists)[i] == (UploadSpan {
            list: i as usize,
            vtx_offset: sum_vtx_counts(lists.take(i)) as usize,
            idx_offset: sum_idx_counts(lists.take(i)) as usize,
            vtx_count: lists[i].vtx_count,
            idx_count: lists[i].idx_count,
        }),
    decreases lists.len(),
{
    lemma_upload_spans_len(lists.drop_last());
    if i == lists.len() - 1 {
        assert(lists.take(i) =~= lists.drop_last());
    } else {
        lemma_upload_spans_partition(lists.drop_last(), i);
        assert(lists.drop_last().take(i) =~= lists.take(i));
        assert(lists.drop_last()[i] == lists[i]);
    }
}

/// Computes the frame's copy plan.
pub fn upload_spans(dd: &DrawData) -> (spans: Vec<UploadSpan>)
    requires
        dd.wf(),
    ensures
        spans@ == spec_upload_spans(dd.draw_lists@),
{
    let ghost lists = dd.draw_lists@;
    let mut spans: Vec<UploadSpan> = Vec::new();
    let mut vtx: usize = 0;
    let mut idx: usize = 0;
    let mut i: usize = 0;
    while i < dd.draw_lists.len()
        invariant
            dd.wf(),
            lists == dd.draw_lists@,
            0 <= i <= lists.len(),
            spans@ == spec_upload_spans(lists.take(i as int)),
            vtx == sum_vtx_counts(lists.take(i as int)),
            idx == sum_idx_counts(lists.take(i as int)),
        decreases lists.len() - i,
    {
        let list = &dd.draw_lists[i];
        proof {
            assert(lists.take(i as int + 1).drop_last() =~= lists.take(i as int));
            assert(lists.take(i as int + 1).last() == lists[i as int]);
            lemma_sum_counts_take(lists, i as int + 1);
        }
        spans.push(
            UploadSpan {
                list: i,
                vtx_offset: vtx,
                idx_offset: idx,
                vtx_count: list.vtx_count,
                idx_count: list.idx_count,
            },
        );
        vtx = vtx + list.vtx_count;
        idx = idx + list.idx_count;
        i = i + 1;
    }
    proof {
        assert(lists.take(lists.len() as int) =~= lists);
    }
    spans
}

} // verus!
