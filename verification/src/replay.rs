//! The decisions of a pass that replays a recorded circuit section by
//! section: where the text is cut, and which results are taken together.

use vstd::prelude::*;

verus! {

/// Whether a section ends before line `i`: the line before it is marked as a
/// measurement or a snapshot, and line `i` is not.
pub open spec fn is_cut(marked: Seq<bool>, i: int) -> bool {
    0 < i < marked.len() && marked[i - 1] && !marked[i]
}

/// The cuts below `n`, in increasing order.
pub open spec fn cuts_below(marked: Seq<bool>, n: nat) -> Seq<int>
    decreases n,
{
    if n == 0 {
        Seq::empty()
    } else {
        let before = cuts_below(marked, (n - 1) as nat);
        if is_cut(marked, n - 1) {
            before.push(n - 1)
        } else {
            before
        }
    }
}

/// The sections of a text of `marked.len()` lines, each as the range of its
/// lines, first line included and last excluded: one section up to every
/// cut, and one for what follows the last cut, which may be empty.
pub open spec fn section_ranges_of(marked: Seq<bool>) -> Seq<(int, int)> {
    let cuts = cuts_below(marked, marked.len());
    Seq::new(
        cuts.len() + 1,
        |k: int|
            (
                if k == 0 {
                    0
                } else {
                    cuts[k - 1]
                },
                if k == cuts.len() {
                    marked.len() as int
                } else {
                    cuts[k]
                },
            ),
    )
}

/// Every cut below `n` is a line index below `n`.
pub proof fn lemma_cuts_in_range(marked: Seq<bool>, n: nat)
    requires
        n <= marked.len(),
    ensures
        cuts_below(marked, n).len() <= n,
        forall|k: int|
            0 <= k < cuts_below(marked, n).len() ==> 0 < #[trigger] cuts_below(marked, n)[k] < n,
    decreases n,
{
    if n > 0 {
        lemma_cuts_in_range(marked, (n - 1) as nat);
    }
}

/// Cuts a text into sections, given for each of its lines whether it is a
/// measurement or a snapshot: a section takes the lines up to the end of a
/// run of marked lines, and the last section takes what is left.
pub fn section_ranges(marked: &[bool]) -> (r: Vec<(usize, usize)>)
    ensures
        r@.len() == section_ranges_of(marked@).len(),
        forall|k: int|
            0 <= k < r@.len() ==> (#[trigger] r@[k]).0 == section_ranges_of(marked@)[k].0 && r@[k].1
                == section_ranges_of(marked@)[k].1,
{
    let mut ranges: Vec<(usize, usize)> = Vec::new();
    let mut start: usize = 0;
    let mut i: usize = 0;
    while i < marked.len()
        invariant
            i <= marked@.len(),
            start <= i,
            ranges@.len() == cuts_below(marked@, i as nat).len(),
            start == if ranges@.len() == 0 {
                0
            } else {
                cuts_below(marked@, i as nat)[ranges@.len() - 1]
            },
            forall|k: int|
                0 <= k < ranges@.len() ==> (#[trigger] ranges@[k]).1 == cuts_below(
                    marked@,
                    i as nat,
                )[k] && ranges@[k].0 == if k == 0 {
                    0
                } else {
                    cuts_below(marked@, i as nat)[k - 1]
                },
        decreases marked@.len() - i,
    {
        proof {
            lemma_cuts_in_range(marked@, i as nat);
        }
        if i > 0 && marked[i - 1] && !marked[i] {
            ranges.push((start, i));
            start = i;
        }
        i += 1;
    }
    ranges.push((start, marked.len()));
    ranges
}

/// Whether every line from `start` up to `end`, `end` left out, is blank.
pub open spec fn all_blank(blank: Seq<bool>, start: int, end: int) -> bool {
    forall|i: int| start <= i < end ==> blank[i]
}

/// The sections that are replayed: those of `section_ranges_of`, without the
/// last one where all its lines are blank.
pub open spec fn kept_ranges_of(marked: Seq<bool>, blank: Seq<bool>) -> Seq<(int, int)> {
    let ranges = section_ranges_of(marked);
    if all_blank(blank, ranges.last().0, ranges.last().1) {
        ranges.drop_last()
    } else {
        ranges
    }
}

/// Cuts a text into the sections that are replayed, given for each of its
/// lines whether it is a measurement or a snapshot and whether it is blank:
/// the sections of `section_ranges`, of which the last is dropped where it
/// holds nothing but blank lines.
pub fn kept_ranges(marked: &[bool], blank: &[bool]) -> (r: Vec<(usize, usize)>)
    requires
        blank@.len() == marked@.len(),
    ensures
        r@.len() == kept_ranges_of(marked@, blank@).len(),
        forall|k: int|
            0 <= k < r@.len() ==> (#[trigger] r@[k]).0 == kept_ranges_of(marked@, blank@)[k].0
                && r@[k].1 == kept_ranges_of(marked@, blank@)[k].1,
{
    let mut ranges = section_ranges(marked);
    proof {
        lemma_cuts_in_range(marked@, marked@.len());
    }
    let (start, end) = ranges[ranges.len() - 1];
    let mut i: usize = start;
    while i < end
        invariant
            start <= i <= end <= blank@.len(),
            all_blank(blank@, start as int, i as int),
            start == section_ranges_of(marked@).last().0,
            end == section_ranges_of(marked@).last().1,
            ranges@.len() == section_ranges_of(marked@).len(),
            forall|k: int|
                0 <= k < ranges@.len() ==> (#[trigger] ranges@[k]).0 == section_ranges_of(
                    marked@,
                )[k].0 && ranges@[k].1 == section_ranges_of(marked@)[k].1,
        decreases end - i,
    {
        if !blank[i] {
            assert(!all_blank(blank@, start as int, end as int));
            return ranges;
        }
        i += 1;
    }
    ranges.pop();
    ranges
}

/// The qubits of `pairs`, each given with the output slot it is bound for,
/// split into runs: a qubit joins the run before it where both are bound for
/// the same slot, and starts a run of its own where they are not.
pub open spec fn runs_by_output(pairs: Seq<(usize, usize)>) -> Seq<Seq<usize>>
    decreases pairs.len(),
{
    if pairs.len() == 0 {
        Seq::empty()
    } else {
        let before = runs_by_output(pairs.drop_last());
        let (qubit, output) = pairs.last();
        if pairs.len() >= 2 && pairs[pairs.len() - 2].1 == output {
            before.update(before.len() - 1, before.last().push(qubit))
        } else {
            before.push(seq![qubit])
        }
    }
}

/// There is a run for every pair that starts one, so none where no pair is.
pub proof fn lemma_runs_nonempty(pairs: Seq<(usize, usize)>)
    ensures
        runs_by_output(pairs).len() <= pairs.len(),
        pairs.len() > 0 ==> runs_by_output(pairs).len() > 0,
    decreases pairs.len(),
{
    if pairs.len() > 0 {
        lemma_runs_nonempty(pairs.drop_last());
    }
}

/// Groups qubits that are bound for one output slot in a row, so that each
/// group is measured, or dumped, together.
pub fn group_by_output(pairs: &[(usize, usize)]) -> (r: Vec<Vec<usize>>)
    ensures
        r@.len() == runs_by_output(pairs@).len(),
        forall|k: int| 0 <= k < r@.len() ==> (#[trigger] r@[k])@ == runs_by_output(pairs@)[k],
{
    let mut groups: Vec<Vec<usize>> = Vec::new();
    let mut current: usize = 0;
    let mut i: usize = 0;
    while i < pairs.len()
        invariant
            i <= pairs@.len(),
            i > 0 ==> current == pairs@[i - 1].1,
            groups@.len() == runs_by_output(pairs@.take(i as int)).len(),
            forall|k: int|
                0 <= k < groups@.len() ==> (#[trigger] groups@[k])@ == runs_by_output(
                    pairs@.take(i as int),
                )[k],
        decreases pairs@.len() - i,
    {
        let (qubit, output) = pairs[i];
        proof {
            let shorter = pairs@.take(i as int);
            let longer = pairs@.take(i + 1);
            assert(longer.drop_last() == shorter);
            lemma_runs_nonempty(shorter);
        }
        if groups.len() > 0 && output == current {
            let last = groups.len() - 1;
            groups[last].push(qubit);
        } else {
            let mut group: Vec<usize> = Vec::new();
            group.push(qubit);
            groups.push(group);
            current = output;
        }
        i += 1;
    }
    assert(pairs@.take(i as int) == pairs@);
    groups
}

} // verus!
