//! Putting clips in timeline order, measuring the timeline, finding gaps.

use vstd::prelude::*;
use vstd::string::*;
use crate::model::{Clip, ClipView, clip_views};
use crate::text::{
    is_text_less, lemma_bytes_less_total, lemma_bytes_less_transitive, lemma_encoding_injective,
    text_less,
};

verus! {

/// A pause between clips shorter than this many microseconds is jitter, not
/// a gap.
pub const GAP_TOLERANCE: i64 = 10_000;

/// Whether `a` has its place on the timeline strictly before `b`: the
/// earlier start first; at the same start the lower track; on the same
/// track the smaller id.
pub open spec fn key_less(a: ClipView, b: ClipView) -> bool {
    a.start_time < b.start_time || (a.start_time == b.start_time && (a.track() < b.track() || (
    a.track() == b.track() && text_less(a.id, b.id))))
}

/// Whether `a` and `b` have the same place on the timeline.
pub open spec fn same_key(a: ClipView, b: ClipView) -> bool {
    a.start_time == b.start_time && a.track() == b.track() && a.id == b.id
}

/// Of two clips exactly one of these holds: the first goes before the
/// second, the second before the first, or they have the same place.
pub proof fn lemma_key_order_total(a: ClipView, b: ClipView)
    ensures
        key_less(a, b) || key_less(b, a) || same_key(a, b),
        !(key_less(a, b) && key_less(b, a)),
        !(key_less(a, b) && same_key(a, b)),
        !(key_less(b, a) && same_key(a, b)),
{
    let x = vstd::utf8::encode_utf8(a.id);
    let y = vstd::utf8::encode_utf8(b.id);
    lemma_bytes_less_total(x, y);
    if x == y {
        lemma_encoding_injective(a.id, b.id);
    }
    if a.id == b.id {
        crate::text::lemma_bytes_less_irreflexive(x);
    }
}

/// The order of places on the timeline is transitive.
pub proof fn lemma_key_order_transitive(a: ClipView, b: ClipView, c: ClipView)
    requires
        key_less(a, b),
        key_less(b, c),
    ensures
        key_less(a, c),
{
    if a.start_time == b.start_time && b.start_time == c.start_time && a.track() == b.track()
        && b.track() == c.track() {
        lemma_bytes_less_transitive(
            vstd::utf8::encode_utf8(a.id),
            vstd::utf8::encode_utf8(b.id),
            vstd::utf8::encode_utf8(c.id),
        );
    }
}

/// Whether the clip at `i` goes before the clip at `j` in timeline order:
/// the one with the earlier place, and of two with the same place the one
/// that was given first.
pub open spec fn goes_before(clips: Seq<ClipView>, i: int, j: int) -> bool {
    key_less(clips[i], clips[j]) || (same_key(clips[i], clips[j]) && i < j)
}

/// Going before is transitive.
pub proof fn lemma_goes_before_transitive(clips: Seq<ClipView>, i: int, j: int, k: int)
    requires
        goes_before(clips, i, j),
        goes_before(clips, j, k),
    ensures
        goes_before(clips, i, k),
{
    let a = clips[i];
    let b = clips[j];
    let c = clips[k];
    if key_less(a, b) && key_less(b, c) {
        lemma_key_order_transitive(a, b, c);
    }
}

/// Of two different positions one goes before the other, never both.
pub proof fn lemma_goes_before_total(clips: Seq<ClipView>, i: int, j: int)
    ensures
        i != j ==> goes_before(clips, i, j) || goes_before(clips, j, i),
        !(goes_before(clips, i, j) && goes_before(clips, j, i)),
{
    lemma_key_order_total(clips[i], clips[j]);
}

/// Whether `order` lists the positions of `clips` in timeline order, each
/// position once.
pub open spec fn is_timeline_order(clips: Seq<ClipView>, order: Seq<usize>) -> bool {
    &&& order.len() == clips.len()
    &&& forall|k: int| 0 <= k < order.len() ==> 0 <= #[trigger] order[k] < clips.len()
    &&& forall|a: int, b: int|
        0 <= a < b < order.len() ==> goes_before(clips, #[trigger] order[a] as int, #[trigger] order[b] as int)
}

/// Every position of `clips` occurs in a timeline order of them.
pub proof fn lemma_timeline_order_covers(clips: Seq<ClipView>, order: Seq<usize>, i: int)
    requires
        is_timeline_order(clips, order),
        0 <= i < clips.len(),
    ensures
        exists|k: int| 0 <= k < order.len() && #[trigger] order[k] == i,
{
    let n = clips.len() as int;
    let ints = Seq::new(order.len(), |k: int| order[k] as int);
    assert forall|a: int, b: int| 0 <= a < ints.len() && 0 <= b < ints.len() && a != b implies ints[a]
        != ints[b] by {
        lemma_goes_before_total(clips, order[a] as int, order[b] as int);
        if a < b {
            assert(goes_before(clips, order[a] as int, order[b] as int));
        } else {
            assert(goes_before(clips, order[b] as int, order[a] as int));
        }
    }
    ints.unique_seq_to_set();
    vstd::set_lib::lemma_int_range(0, n);
    let range = vstd::set_lib::set_int_range(0, n);
    assert forall|v: int| ints.to_set().contains(v) implies range.contains(v) by {
        let k = choose|k: int| 0 <= k < ints.len() && ints[k] == v;
        assert(0 <= order[k] < n);
    }
    vstd::set_lib::lemma_subset_equality(ints.to_set(), range);
    assert(range.contains(i));
    assert(ints.to_set().contains(i));
    let k = choose|k: int| 0 <= k < ints.len() && ints[k] == i;
    assert(order[k] == i);
}

proof fn lemma_orders_agree_below(
    clips: Seq<ClipView>,
    first: Seq<usize>,
    second: Seq<usize>,
    k: int,
)
    requires
        is_timeline_order(clips, first),
        is_timeline_order(clips, second),
        0 <= k <= clips.len(),
    ensures
        forall|j: int| 0 <= j < k ==> first[j] == second[j],
    decreases k,
{
    if k > 0 {
        lemma_orders_agree_below(clips, first, second, k - 1);
        let x = first[k - 1] as int;
        let y = second[k - 1] as int;
        if x != y {
            lemma_goes_before_total(clips, x, y);
            if goes_before(clips, x, y) {
                lemma_misplaced(clips, first, second, k - 1);
            } else {
                lemma_misplaced(clips, second, first, k - 1);
            }
        }
    }
}

/// Where two timeline orders agree below `k` and differ at `k`, the first
/// one's entry does not go before the second one's.
proof fn lemma_misplaced(clips: Seq<ClipView>, first: Seq<usize>, second: Seq<usize>, k: int)
    requires
        is_timeline_order(clips, first),
        is_timeline_order(clips, second),
        0 <= k < clips.len(),
        forall|j: int| 0 <= j < k ==> first[j] == second[j],
        first[k] != second[k],
    ensures
        !goes_before(clips, first[k] as int, second[k] as int),
{
    let x = first[k] as int;
    let y = second[k] as int;
    lemma_timeline_order_covers(clips, second, x);
    let m = choose|m: int| 0 <= m < second.len() && #[trigger] second[m] == x;
    lemma_goes_before_total(clips, x, x);
    lemma_goes_before_total(clips, x, y);
    if m < k {
        assert(first[m] == second[m]);
        assert(goes_before(clips, first[m] as int, first[k] as int));
    } else if m > k {
        assert(goes_before(clips, second[k] as int, second[m] as int));
    }
}

/// The timeline order of a list of clips is unique: whatever brings the
/// clips into timeline order arrives at the same arrangement.
pub proof fn lemma_timeline_order_unique(
    clips: Seq<ClipView>,
    first: Seq<usize>,
    second: Seq<usize>,
)
    requires
        is_timeline_order(clips, first),
        is_timeline_order(clips, second),
    ensures
        first == second,
{
    lemma_orders_agree_below(clips, first, second, clips.len() as int);
    assert(first =~= second);
}

/// In a timeline order, clips that start at the same time come sorted by
/// track, and on the same track by id.
pub proof fn lemma_same_start_sorted_by_track_and_id(
    clips: Seq<ClipView>,
    order: Seq<usize>,
    a: int,
    b: int,
)
    requires
        is_timeline_order(clips, order),
        0 <= a < b < order.len(),
        clips[order[a] as int].start_time == clips[order[b] as int].start_time,
    ensures
        ({
            let x = clips[order[a] as int];
            let y = clips[order[b] as int];
            x.track() < y.track() || (x.track() == y.track() && (text_less(x.id, y.id) || x.id
                == y.id))
        }),
{
    assert(goes_before(clips, order[a] as int, order[b] as int));
}

/// Whether `arranged` holds the clips of `clips` in the order that `order`
/// gives.
pub open spec fn is_arranged(arranged: Seq<ClipView>, clips: Seq<ClipView>, order: Seq<usize>) -> bool {
    &&& arranged.len() == order.len()
    &&& forall|k: int|
        0 <= k < order.len() ==> 0 <= #[trigger] order[k] < clips.len() && arranged[k]
            == clips[order[k] as int]
}

/// The latest end among the clips, in microseconds; 0 for no clips.
pub open spec fn latest_end(clips: Seq<ClipView>) -> int
    decreases clips.len(),
{
    if clips.len() == 0 {
        0
    } else if clips.len() == 1 {
        clips[0].end()
    } else {
        let rest = latest_end(clips.drop_last());
        if clips.last().end() > rest {
            clips.last().end()
        } else {
            rest
        }
    }
}

/// The pause before the clip at `i`: from the end of the clip before it, or
/// from the origin of the timeline for the first clip. Negative where clips
/// overlap.
pub open spec fn gap_before(clips: Seq<ClipView>, i: int) -> int {
    if i == 0 {
        clips[i].start_time
    } else {
        clips[i].start_time - clips[i - 1].end()
    }
}

/// Whether a pause is long enough to count as a gap.
pub open spec fn is_significant(gap: int) -> bool {
    gap > GAP_TOLERANCE
}

/// A gap on the timeline.
#[derive(Clone, Copy, Debug, PartialEq, Eq, Structural)]
pub struct Gap {
    /// The position of the clip that follows the gap.
    pub before: usize,
    /// The length of the gap in microseconds.
    pub duration: i128,
}

/// Clips in timeline order.
pub struct Timeline {
    /// The clips, earliest first.
    pub clips: Vec<Clip>,
    /// For each clip of `clips`, its position in the list it came from.
    pub order: Vec<usize>,
    /// When the last clip ends, in microseconds.
    pub expected_duration: i128,
}

/// Whether `a` has its place on the timeline strictly before `b`.
pub fn clip_precedes(a: &Clip, b: &Clip) -> (r: bool)
    ensures
        r == key_less(a@, b@),
{
    if a.start_time != b.start_time {
        a.start_time < b.start_time
    } else if a.track() != b.track() {
        a.track() < b.track()
    } else {
        is_text_less(a.id.as_str(), b.id.as_str())
    }
}

/// The positions of `clips` in timeline order. Clips with the same start,
/// track and id keep the order in which they were given.
pub fn sort_clips(clips: &Vec<Clip>) -> (order: Vec<usize>)
    ensures
        is_timeline_order(clip_views(clips@), order@),
{
    let ghost views = clip_views(clips@);
    let mut order: Vec<usize> = Vec::new();
    let mut i: usize = 0;
    while i < clips.len()
        invariant
            i <= clips.len(),
            views == clip_views(clips@),
            order.len() == i,
            forall|k: int| 0 <= k < order.len() ==> 0 <= #[trigger] order[k] < i,
            forall|a: int, b: int|
                0 <= a < b < order.len() ==> goes_before(
                    views,
                    #[trigger] order[a] as int,
                    #[trigger] order[b] as int,
                ),
        decreases clips.len() - i,
    {
        let mut p: usize = i;
        while p > 0 && clip_precedes(&clips[i], &clips[order[p - 1]])
            invariant
                p <= i,
                i < clips.len(),
                order.len() == i,
                views == clip_views(clips@),
                forall|k: int| 0 <= k < order.len() ==> 0 <= #[trigger] order[k] < i,
                forall|k: int|
                    p <= k < i ==> key_less(views[i as int], views[#[trigger] order[k] as int]),
            decreases p,
        {
            p -= 1;
        }
        let ghost before = order@;
        proof {
            if p > 0 {
                let q = before[p - 1] as int;
                lemma_key_order_total(views[i as int], views[q]);
                assert(goes_before(views, q, i as int));
                assert forall|k: int| 0 <= k < p - 1 implies goes_before(
                    views,
                    #[trigger] before[k] as int,
                    i as int,
                ) by {
                    lemma_goes_before_transitive(views, before[k] as int, q, i as int);
                }
            }
        }
        order.insert(p, i);
        proof {
            assert forall|a: int, b: int| 0 <= a < b < order.len() implies goes_before(
                views,
                #[trigger] order[a] as int,
                #[trigger] order[b] as int,
            ) by {
                if b < p {
                    assert(order[a] == before[a] && order[b] == before[b]);
                } else if b == p {
                    assert(order[a] == before[a]);
                } else if a < p {
                    assert(order[a] == before[a] && order[b] == before[b - 1]);
                } else if a == p {
                    assert(order[b] == before[b - 1]);
                } else {
                    assert(order[a] == before[a - 1] && order[b] == before[b - 1]);
                }
            }
            assert forall|k: int| 0 <= k < order.len() implies 0 <= #[trigger] order[k] < i
                + 1 by {
                if k < p {
                    assert(order[k] == before[k]);
                } else if k > p {
                    assert(order[k] == before[k - 1]);
                }
            }
        }
        i += 1;
    }
    order
}

/// The clips of `clips` in the order that `order` gives.
pub fn arrange(clips: &Vec<Clip>, order: &Vec<usize>) -> (arranged: Vec<Clip>)
    requires
        forall|k: int| 0 <= k < order.len() ==> 0 <= #[trigger] order[k] < clips.len(),
    ensures
        is_arranged(clip_views(arranged@), clip_views(clips@), order@),
{
    let mut arranged: Vec<Clip> = Vec::new();
    let mut k: usize = 0;
    while k < order.len()
        invariant
            k <= order.len(),
            arranged.len() == k,
            forall|j: int| 0 <= j < order.len() ==> 0 <= #[trigger] order[j] < clips.len(),
            forall|j: int| 0 <= j < k ==> arranged[j]@ == clips[order[j] as int]@,
        decreases order.len() - k,
    {
        arranged.push(clips[order[k]].duplicate());
        k += 1;
    }
    arranged
}

/// The latest end among the clips is the greatest of their ends.
pub proof fn lemma_latest_end_is_maximum(clips: Seq<ClipView>)
    ensures
        forall|i: int| 0 <= i < clips.len() ==> (#[trigger] clips[i]).end() <= latest_end(clips),
        clips.len() > 0 ==> exists|i: int|
            0 <= i < clips.len() && (#[trigger] clips[i]).end() == latest_end(clips),
    decreases clips.len(),
{
    if clips.len() > 1 {
        let rest = clips.drop_last();
        lemma_latest_end_is_maximum(rest);
        assert forall|i: int| 0 <= i < clips.len() implies (#[trigger] clips[i]).end()
            <= latest_end(clips) by {
            if i < rest.len() {
                assert(clips[i] == rest[i]);
            }
        }
        if clips.last().end() > latest_end(rest) {
            assert(clips[clips.len() - 1].end() == latest_end(clips));
        } else {
            let w = choose|i: int| 0 <= i < rest.len() && (#[trigger] rest[i]).end() == latest_end(rest);
            assert(clips[w] == rest[w]);
        }
    } else if clips.len() == 1 {
        assert(clips[0].end() == latest_end(clips));
    }
}

/// When the last clip ends: the greatest `start_time + duration` among the
/// clips, in whatever order they are given; 0 for no clips.
pub fn expected_duration(clips: &Vec<Clip>) -> (latest: i128)
    ensures
        latest == latest_end(clip_views(clips@)),
        forall|i: int| 0 <= i < clips.len() ==> clips[i]@.end() <= latest,
        clips.len() > 0 ==> exists|i: int| 0 <= i < clips.len() && clips[i]@.end() == latest,
        clips.len() == 0 ==> latest == 0,
{
    let ghost views = clip_views(clips@);
    let mut latest: i128 = 0;
    let mut i: usize = 0;
    while i < clips.len()
        invariant
            i <= clips.len(),
            views == clip_views(clips@),
            latest == latest_end(views.take(i as int)),
        decreases clips.len() - i,
    {
        let end = clips[i].end();
        proof {
            let now = views.take(i + 1);
            assert(now.drop_last() =~= views.take(i as int));
            assert(now.last() == clips[i as int]@);
        }
        if i == 0 || end > latest {
            latest = end;
        }
        i += 1;
    }
    proof {
        assert(views.take(clips.len() as int) =~= views);
        lemma_latest_end_is_maximum(views);
        assert forall|i: int| 0 <= i < clips.len() implies clips[i]@.end() <= latest by {
            assert(views[i] == clips[i]@);
        }
        if clips.len() > 0 {
            let w = choose|i: int| 0 <= i < views.len() && (#[trigger] views[i]).end() == latest;
            assert(clips[w]@.end() == latest);
        }
    }
    latest
}

/// The pause before the clip at `i`, in microseconds.
pub fn gap_before_clip(clips: &Vec<Clip>, i: usize) -> (gap: i128)
    requires
        i < clips.len(),
    ensures
        gap == gap_before(clip_views(clips@), i as int),
{
    if i == 0 {
        clips[i].start_time as i128
    } else {
        clips[i].start_time as i128 - clips[i - 1].end()
    }
}

/// Whether a pause of `gap` microseconds counts as a gap.
pub fn is_significant_gap(gap: i128) -> (r: bool)
    ensures
        r == is_significant(gap as int),
{
    gap > GAP_TOLERANCE as i128
}

/// Whether `gaps` lists exactly the significant gaps of `clips`, in order.
pub open spec fn lists_gaps(clips: Seq<ClipView>, gaps: Seq<Gap>) -> bool {
    &&& forall|k: int|
        0 <= k < gaps.len() ==> {
            &&& 0 <= (#[trigger] gaps[k]).before < clips.len()
            &&& gaps[k].duration == gap_before(clips, gaps[k].before as int)
            &&& is_significant(gaps[k].duration as int)
        }
    &&& forall|a: int, b: int|
        0 <= a < b < gaps.len() ==> (#[trigger] gaps[a]).before < (#[trigger] gaps[b]).before
    &&& forall|i: int|
        0 <= i < clips.len() && is_significant(#[trigger] gap_before(clips, i)) ==> exists|k: int|
            0 <= k < gaps.len() && (#[trigger] gaps[k]).before == i
}

/// The significant gaps of `clips`, which must already be in timeline order
/// for the result to mean anything: for each clip that starts more than the
/// tolerance after the clip before it ended, the length of the pause.
pub fn find_gaps(clips: &Vec<Clip>) -> (gaps: Vec<Gap>)
    ensures
        lists_gaps(clip_views(clips@), gaps@),
{
    let ghost views = clip_views(clips@);
    let mut gaps: Vec<Gap> = Vec::new();
    let mut i: usize = 0;
    while i < clips.len()
        invariant
            i <= clips.len(),
            views == clip_views(clips@),
            forall|k: int|
                0 <= k < gaps.len() ==> {
                    &&& 0 <= (#[trigger] gaps[k]).before < i
                    &&& gaps[k].duration == gap_before(views, gaps[k].before as int)
                    &&& is_significant(gaps[k].duration as int)
                },
            forall|a: int, b: int|
                0 <= a < b < gaps.len() ==> (#[trigger] gaps[a]).before < (
                #[trigger] gaps[b]).before,
            forall|j: int|
                0 <= j < i && is_significant(#[trigger] gap_before(views, j)) ==> exists|k: int|
                    0 <= k < gaps.len() && (#[trigger] gaps[k]).before == j,
        decreases clips.len() - i,
    {
        let gap = gap_before_clip(clips, i);
        let ghost before = gaps@;
        if is_significant_gap(gap) {
            gaps.push(Gap { before: i, duration: gap });
            proof {
                assert(gaps[before.len() as int].before == i);
                assert forall|j: int|
                    0 <= j < i + 1 && is_significant(
                        #[trigger] gap_before(views, j),
                    ) implies exists|k: int|
                    0 <= k < gaps.len() && (#[trigger] gaps[k]).before == j by {
                    if j < i {
                        let k = choose|k: int|
                            0 <= k < before.len() && (#[trigger] before[k]).before == j;
                        assert(gaps[k] == before[k]);
                    }
                }
            }
        }
        i += 1;
    }
    gaps
}

/// Whether any clip of `clips` is preceded by a significant gap.
pub fn check_for_gaps(clips: &Vec<Clip>) -> (found: bool)
    ensures
        found == exists|i: int|
            0 <= i < clips.len() && is_significant(#[trigger] gap_before(clip_views(clips@), i)),
{
    let ghost views = clip_views(clips@);
    let mut i: usize = 0;
    while i < clips.len()
        invariant
            i <= clips.len(),
            views == clip_views(clips@),
            forall|j: int| 0 <= j < i ==> !is_significant(#[trigger] gap_before(views, j)),
        decreases clips.len() - i,
    {
        if is_significant_gap(gap_before_clip(clips, i)) {
            return true;
        }
        i += 1;
    }
    false
}

/// Brings `clips` into timeline order and measures the timeline.
pub fn normalize(clips: &Vec<Clip>) -> (timeline: Timeline)
    ensures
        is_timeline_order(clip_views(clips@), timeline.order@),
        is_arranged(clip_views(timeline.clips@), clip_views(clips@), timeline.order@),
        timeline.expected_duration == latest_end(clip_views(clips@)),
        forall|a: int, b: int|
            0 <= a < b < timeline.clips.len() ==> !key_less(
                #[trigger] timeline.clips[b]@,
                #[trigger] timeline.clips[a]@,
            ),
{
    let order = sort_clips(clips);
    let arranged = arrange(clips, &order);
    let latest = expected_duration(clips);
    proof {
        let views = clip_views(clips@);
        assert forall|a: int, b: int| 0 <= a < b < arranged.len() implies !key_less(
            #[trigger] arranged[b]@,
            #[trigger] arranged[a]@,
        ) by {
            assert(clip_views(arranged@)[a] == views[order[a] as int]);
            assert(clip_views(arranged@)[b] == views[order[b] as int]);
            assert(goes_before(views, order[a] as int, order[b] as int));
            lemma_key_order_total(views[order[a] as int], views[order[b] as int]);
        }
    }
    Timeline { clips: arranged, order, expected_duration: latest }
}

} // verus!
