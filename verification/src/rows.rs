//! The selectable-row mask: the rendered list interleaves one non-selectable
//! date header row before each run of records that share a date label, and
//! one selectable row per record. Only the mask is computed here; drawing the
//! rows themselves is the renderer's business.

use vstd::prelude::*;
use crate::clock::date_label_of;
use crate::timer::Timer;

verus! {

/// The date labels of the records, in order.
pub open spec fn labels_of(ts: Seq<Timer>) -> Seq<Seq<char>> {
    ts.map_values(|t: Timer| date_label_of(t.start_time_s))
}

/// The mask for a list of per-record date labels: a `false` header before
/// the first record and before every record whose label differs from its
/// predecessor's, a `true` for each record.
pub open spec fn mask_of_labels(labels: Seq<Seq<char>>) -> Seq<bool>
    decreases labels.len(),
{
    if labels.len() == 0 {
        Seq::empty()
    } else if labels.len() == 1 {
        seq![false, true]
    } else if labels.last() == labels[labels.len() - 2] {
        mask_of_labels(labels.drop_last()).push(true)
    } else {
        mask_of_labels(labels.drop_last()) + seq![false, true]
    }
}

/// Compute the selectable-row mask for the rendered list of `timers`.
/// The renderer writes this back into the session model after layout; it is
/// the model's only feedback from rendering.
pub fn selectable_mask(timers: &Vec<Timer>) -> (m: Vec<bool>)
    requires
        forall|i: int| 0 <= i < timers@.len() ==> (#[trigger] timers@[i]).wf(),
    ensures
        m@ == mask_of_labels(labels_of(timers@)),
{
    let ghost labels = labels_of(timers@);
    let mut m: Vec<bool> = Vec::new();
    if timers.len() == 0 {
        proof {
            assert(m@ =~= mask_of_labels(labels));
        }
        return m;
    }
    let mut current_date = timers[0].formatted_date();
    m.push(false);
    m.push(true);
    proof {
        assert(labels.take(1).len() == 1);
        assert(m@ =~= mask_of_labels(labels.take(1)));
    }
    let mut i: usize = 1;
    while i < timers.len()
        invariant
            1 <= i <= timers@.len(),
            labels == labels_of(timers@),
            labels.len() == timers@.len(),
            forall|j: int| 0 <= j < timers@.len() ==> (#[trigger] timers@[j]).wf(),
            current_date@ == labels[i - 1],
            m@ == mask_of_labels(labels.take(i as int)),
        decreases timers@.len() - i,
    {
        let label = timers[i].formatted_date();
        let same = current_date == label;
        proof {
            let pre = labels.take(i + 1);
            assert(pre.drop_last() =~= labels.take(i as int));
            assert(pre.last() == labels[i as int]);
            assert(pre[pre.len() - 2] == labels[i - 1]);
        }
        if same {
            m.push(true);
        } else {
            m.push(false);
            m.push(true);
            current_date = label;
        }
        proof {
            assert(m@ =~= mask_of_labels(labels.take(i + 1)));
        }
        i = i + 1;
    }
    proof {
        assert(labels.take(timers@.len() as int) =~= labels);
    }
    m
}

/// Every mask entry is preceded only by entries of its own prefix: the
/// number of `true` entries in the whole mask equals the number of records.
pub proof fn lemma_mask_true_count(labels: Seq<Seq<char>>)
    ensures
        count_true(mask_of_labels(labels), mask_of_labels(labels).len() as int) == labels.len(),
    decreases labels.len(),
{
    if labels.len() == 0 {
    } else if labels.len() == 1 {
        let m = mask_of_labels(labels);
        assert(count_true(m, 2) == count_true(m, 1) + 1);
        assert(count_true(m, 1) == count_true(m, 0) + 0);
    } else {
        lemma_mask_true_count(labels.drop_last());
        let prev = mask_of_labels(labels.drop_last());
        let m = mask_of_labels(labels);
        if labels.last() == labels[labels.len() - 2] {
            assert(m == prev.push(true));
            lemma_count_true_extend(prev, m);
            assert(m[prev.len() as int]);
            assert(count_true(m, m.len() as int) == count_true(m, prev.len() as int) + 1);
        } else {
            assert(m == prev + seq![false, true]);
            lemma_count_true_extend(prev, m);
            assert(!m[prev.len() as int]);
            assert(m[prev.len() as int + 1]);
            assert(count_true(m, prev.len() as int + 1) == count_true(m, prev.len() as int));
            assert(count_true(m, m.len() as int) == count_true(m, prev.len() as int + 1) + 1);
        }
    }
}

/// The number of `true` entries among the first `upto` mask entries: how
/// many selectable rows come before a given row.
pub open spec fn count_true(mask: Seq<bool>, upto: int) -> nat
    decreases upto,
{
    if upto <= 0 {
        0
    } else {
        count_true(mask, upto - 1) + if 0 <= upto - 1 < mask.len() && mask[upto - 1] {
            1nat
        } else {
            0nat
        }
    }
}

/// Counting over an extension agrees with counting over the prefix.
proof fn lemma_count_true_extend(prefix: Seq<bool>, whole: Seq<bool>)
    requires
        prefix.len() <= whole.len(),
        forall|j: int| 0 <= j < prefix.len() ==> prefix[j] == whole[j],
    ensures
        count_true(whole, prefix.len() as int) == count_true(prefix, prefix.len() as int),
    decreases prefix.len(),
{
    if prefix.len() > 0 {
        lemma_count_true_extend(prefix.drop_last(), whole);
        lemma_count_true_prefix_step(prefix);
    }
}

/// One unfolding step of `count_true` against `drop_last`.
proof fn lemma_count_true_prefix_step(mask: Seq<bool>)
    requires
        mask.len() > 0,
    ensures
        count_true(mask, mask.len() as int) == count_true(mask.drop_last(), mask.len() - 1)
            + if mask.last() { 1nat } else { 0nat },
    decreases mask.len(),
{
    lemma_count_true_agree(mask.drop_last(), mask, mask.len() - 1);
}

/// `count_true` only looks at entries below `upto`.
proof fn lemma_count_true_agree(a: Seq<bool>, b: Seq<bool>, upto: int)
    requires
        upto <= a.len(),
        upto <= b.len(),
        forall|j: int| 0 <= j < upto ==> a[j] == b[j],
    ensures
        count_true(a, upto) == count_true(b, upto),
    decreases upto,
{
    if upto > 0 {
        lemma_count_true_agree(a, b, upto - 1);
    }
}

} // verus!
