//! The order in which a batch of buffer edits is applied.
//!
//! Edits are applied from the bottom of the buffer up; edits that start on the
//! same line keep the order in which they were given. For a batch whose edits
//! start on distinct lines and replace ranges that do not overlap, applying
//! them in this order, one `set_lines` call after another, gives the buffer in
//! which each edit replaces its range as numbered in the buffer before the
//! batch (`law_bottom_up_application_patches_original_lines`).

use vstd::prelude::*;
use vstd::set_lib::{lemma_int_range, lemma_subset_equality, set_int_range};
use crate::nvim_types::BufferEdit;

verus! {

/// `output` lists the edits by non-increasing start line.
pub open spec fn descending_by_start(output: Seq<BufferEdit>) -> bool {
    forall|a: int, b: int|
        0 <= a < b < output.len() ==> #[trigger] output[a].start_line >= #[trigger] output[b].start_line
}

/// `perm` maps each position of `output` to a distinct position of `input`
/// holding the same edit, and edits with equal start lines keep their
/// relative order.
pub open spec fn arranges(perm: Seq<int>, input: Seq<BufferEdit>, output: Seq<BufferEdit>) -> bool {
    &&& perm.len() == input.len()
    &&& output.len() == input.len()
    &&& forall|k: int| 0 <= k < perm.len() ==> 0 <= #[trigger] perm[k] < input.len()
    &&& forall|a: int, b: int| 0 <= a < b < perm.len() ==> #[trigger] perm[a] != #[trigger] perm[b]
    &&& forall|k: int| 0 <= k < output.len() ==> #[trigger] output[k] == input[perm[k]]
    &&& forall|a: int, b: int|
        0 <= a < b < output.len() && #[trigger] output[a].start_line == #[trigger] output[b].start_line
            ==> perm[a] < perm[b]
}

/// `output` is `input` sorted by descending start line, stably: a
/// rearrangement of `input` by non-increasing start line in which edits with
/// equal start lines keep their input order.
pub open spec fn is_application_order(input: Seq<BufferEdit>, output: Seq<BufferEdit>) -> bool {
    &&& descending_by_start(output)
    &&& exists|perm: Seq<int>| arranges(perm, input, output)
}

/// Returns `edits` in the order in which they are applied to a buffer.
pub fn edit_application_order(edits: Vec<BufferEdit>) -> (ordered: Vec<BufferEdit>)
    ensures
        is_application_order(edits@, ordered@),
{
    let ghost input = edits@;
    let n = edits.len();
    let mut rest = edits;
    let mut ordered: Vec<BufferEdit> = Vec::new();
    let ghost mut perm: Seq<int> = Seq::empty();
    let mut i: usize = 0;
    while i < n
        invariant
            n == input.len(),
            i <= n,
            rest@ == input.subrange(i as int, n as int),
            ordered.len() == i,
            perm.len() == i,
            descending_by_start(ordered@),
            forall|k: int| 0 <= k < i ==> 0 <= #[trigger] perm[k] < i,
            forall|a: int, b: int| 0 <= a < b < i ==> #[trigger] perm[a] != #[trigger] perm[b],
            forall|k: int| 0 <= k < i ==> #[trigger] ordered@[k] == input[perm[k]],
            forall|a: int, b: int|
                0 <= a < b < i && #[trigger] ordered@[a].start_line == #[trigger] ordered@[b].start_line
                    ==> perm[a] < perm[b],
        decreases n - i,
    {
        let edit = rest.remove(0);
        let mut p: usize = 0;
        while p < ordered.len() && ordered[p].start_line >= edit.start_line
            invariant
                p <= ordered.len(),
                forall|q: int| 0 <= q < p ==> #[trigger] ordered@[q].start_line >= edit.start_line,
            decreases ordered.len() - p,
        {
            p = p + 1;
        }
        let ghost before = ordered@;
        let ghost old_perm = perm;
        assert forall|q: int| p <= q < before.len() implies #[trigger] before[q].start_line
            < edit.start_line by {
            assert(before[p as int].start_line < edit.start_line);
            if q > p {
                assert(before[p as int].start_line >= before[q].start_line);
            }
        }
        ordered.insert(p, edit);
        proof {
            perm = perm.insert(p as int, i as int);
            assert forall|k: int| 0 <= k < i + 1 implies #[trigger] ordered@[k] == input[perm[k]] by {
                if k < p {
                    assert(ordered@[k] == before[k]);
                    assert(perm[k] == old_perm[k]);
                } else if k == p {
                } else {
                    assert(ordered@[k] == before[k - 1]);
                    assert(perm[k] == old_perm[k - 1]);
                }
            }
            assert forall|a: int, b: int| 0 <= a < b < ordered@.len() implies #[trigger] ordered@[a].start_line
                >= #[trigger] ordered@[b].start_line by {
                if b < p {
                } else if b == p {
                } else if a < p {
                } else if a == p {
                    assert(ordered@[b] == before[b - 1]);
                } else {
                }
            }
            assert forall|a: int, b: int|
                0 <= a < b < i + 1 && #[trigger] ordered@[a].start_line == #[trigger] ordered@[b].start_line
                    implies perm[a] < perm[b] by {
                if b < p {
                } else if b == p {
                } else if a < p {
                } else if a == p {
                    assert(ordered@[b] == before[b - 1]);
                } else {
                }
            }
        }
        i = i + 1;
    }
    proof {
        assert(arranges(perm, input, ordered@));
    }
    ordered
}

/// Edit `i` of `input` is applied before edit `j`: it starts further down,
/// or on the same line and was given earlier.
pub open spec fn applied_before(input: Seq<BufferEdit>, i: int, j: int) -> bool {
    ||| input[i].start_line > input[j].start_line
    ||| (input[i].start_line == input[j].start_line && i < j)
}

proof fn lemma_arrangement_follows_order(perm: Seq<int>, input: Seq<BufferEdit>, output: Seq<BufferEdit>)
    requires
        descending_by_start(output),
        arranges(perm, input, output),
    ensures
        forall|a: int, b: int| 0 <= a < b < perm.len() ==> applied_before(input, #[trigger] perm[a], #[trigger] perm[b]),
{
    assert forall|a: int, b: int| 0 <= a < b < perm.len() implies applied_before(
        input,
        #[trigger] perm[a],
        #[trigger] perm[b],
    ) by {
        assert(output[a] == input[perm[a]]);
        assert(output[b] == input[perm[b]]);
        assert(output[a].start_line >= output[b].start_line);
    }
}

proof fn lemma_arrangement_covers_input(perm: Seq<int>, input: Seq<BufferEdit>, output: Seq<BufferEdit>, j: int)
    requires
        arranges(perm, input, output),
        0 <= j < input.len(),
    ensures
        exists|k: int| 0 <= k < perm.len() && #[trigger] perm[k] == j,
{
    let n = input.len() as int;
    assert(perm.no_duplicates()) by {
        assert forall|a: int, b: int| 0 <= a < perm.len() && 0 <= b < perm.len() && a != b implies perm[a]
            != perm[b] by {
            if a < b {
                assert(perm[a] != perm[b]);
            } else {
                assert(perm[b] != perm[a]);
            }
        }
    }
    perm.unique_seq_to_set();
    lemma_int_range(0, n);
    assert(perm.to_set().subset_of(set_int_range(0, n))) by {
        assert forall|x: int| perm.to_set().contains(x) implies set_int_range(0, n).contains(x) by {
            let k = choose|k: int| 0 <= k < perm.len() && perm[k] == x;
            assert(0 <= perm[k] < n);
        }
    }
    lemma_subset_equality(perm.to_set(), set_int_range(0, n));
    assert(set_int_range(0, n).contains(j));
    assert(perm.to_set().contains(j));
}

proof fn lemma_arrangements_agree_below(
    input: Seq<BufferEdit>,
    first: Seq<BufferEdit>,
    second: Seq<BufferEdit>,
    p: Seq<int>,
    q: Seq<int>,
    k: int,
)
    requires
        descending_by_start(first),
        descending_by_start(second),
        arranges(p, input, first),
        arranges(q, input, second),
        0 <= k <= input.len(),
    ensures
        forall|a: int| 0 <= a < k ==> p[a] == q[a],
    decreases k,
{
    if k > 0 {
        let m = k - 1;
        lemma_arrangements_agree_below(input, first, second, p, q, m);
        lemma_arrangement_follows_order(p, input, first);
        lemma_arrangement_follows_order(q, input, second);
        if p[m] != q[m] {
            let i = p[m];
            let j = q[m];
            lemma_arrangement_covers_input(q, input, second, i);
            lemma_arrangement_covers_input(p, input, first, j);
            let ki = choose|x: int| 0 <= x < q.len() && #[trigger] q[x] == i;
            let kj = choose|x: int| 0 <= x < p.len() && #[trigger] p[x] == j;
            if ki < m {
                assert(p[ki] == q[ki]);
                assert(p[ki] == p[m]);
            }
            if kj < m {
                assert(p[kj] == q[kj]);
                assert(q[kj] == q[m]);
            }
            assert(ki > m && kj > m);
            assert(applied_before(input, q[m], q[ki]));
            assert(applied_before(input, p[m], p[kj]));
        }
    }
}

/// The application order of a batch of edits is determined: two orders that
/// both meet `is_application_order` for the same edits are the same.
pub proof fn law_application_order_is_unique(input: Seq<BufferEdit>, first: Seq<BufferEdit>, second: Seq<BufferEdit>)
    requires
        is_application_order(input, first),
        is_application_order(input, second),
    ensures
        first == second,
{
    let p = choose|perm: Seq<int>| arranges(perm, input, first);
    let q = choose|perm: Seq<int>| arranges(perm, input, second);
    lemma_arrangements_agree_below(input, first, second, p, q, input.len() as int);
    assert forall|k: int| 0 <= k < first.len() implies first[k] == second[k] by {
        assert(first[k] == input[p[k]]);
        assert(second[k] == input[q[k]]);
    }
    assert(first =~= second);
}

/// The buffer after `set_lines(edit.start_line, edit.end_line, false,
/// edit.new_lines)` on `buffer`, for `0 <= start_line <= end_line <=
/// buffer.len()`: the lines `start_line..end_line` replaced by `new_lines`.
pub open spec fn replace_lines(buffer: Seq<String>, edit: BufferEdit) -> Seq<String> {
    buffer.take(edit.start_line as int) + edit.new_lines@ + buffer.skip(edit.end_line as int)
}

/// The buffer after applying `edits` one after another, first to last.
pub open spec fn apply_edits(buffer: Seq<String>, edits: Seq<BufferEdit>) -> Seq<String>
    decreases edits.len(),
{
    if edits.len() == 0 {
        buffer
    } else {
        apply_edits(replace_lines(buffer, edits[0]), edits.skip(1))
    }
}

/// Edit `k` of `edits` starts on line `line`.
pub open spec fn starts_on(edits: Seq<BufferEdit>, k: int, line: int) -> bool {
    0 <= k < edits.len() && edits[k].start_line as int == line
}

/// The edits of a batch keyed by their start line.
pub open spec fn edits_by_start(edits: Seq<BufferEdit>) -> Map<int, BufferEdit> {
    Map::new(
        |line: int| exists|k: int| #[trigger] starts_on(edits, k, line),
        |line: int| edits[choose|k: int| #[trigger] starts_on(edits, k, line)],
    )
}

/// The lines from line `i` on of the buffer in which every edit of `edits`
/// (keyed by start line) has replaced its range, numbered as in `buffer`.
pub open spec fn patched_from(buffer: Seq<String>, edits: Map<int, BufferEdit>, i: int) -> Seq<String>
    decreases buffer.len() - i,
{
    if i < 0 || i > buffer.len() {
        Seq::empty()
    } else if edits.contains_key(i) && i < edits[i].end_line <= buffer.len() {
        edits[i].new_lines@ + patched_from(buffer, edits, edits[i].end_line as int)
    } else {
        let inserted = if edits.contains_key(i) { edits[i].new_lines@ } else { Seq::empty() };
        if i < buffer.len() {
            inserted + seq![buffer[i]] + patched_from(buffer, edits, i + 1)
        } else {
            inserted
        }
    }
}

/// The buffer in which each edit of `edits` has replaced its range, all
/// ranges numbered as in `buffer`.
pub open spec fn patched(buffer: Seq<String>, edits: Seq<BufferEdit>) -> Seq<String> {
    patched_from(buffer, edits_by_start(edits), 0)
}

/// Every edit of `edits` names a range of a buffer of `line_count` lines,
/// no two start on the same line, and no two ranges overlap.
pub open spec fn disjoint_batch(line_count: int, edits: Seq<BufferEdit>) -> bool {
    &&& forall|k: int|
        0 <= k < edits.len() ==> 0 <= #[trigger] edits[k].start_line <= edits[k].end_line <= line_count
    &&& forall|a: int, b: int|
        0 <= a < edits.len() && 0 <= b < edits.len() && a != b ==> {
            &&& #[trigger] edits[a].start_line != #[trigger] edits[b].start_line
            &&& (edits[a].end_line <= edits[b].start_line || edits[b].end_line <= edits[a].start_line)
        }
}

proof fn lemma_edits_by_start_entry(edits: Seq<BufferEdit>, k: int)
    requires
        0 <= k < edits.len(),
        forall|a: int, b: int|
            0 <= a < edits.len() && 0 <= b < edits.len() && a != b ==> #[trigger] edits[a].start_line
                != #[trigger] edits[b].start_line,
    ensures
        edits_by_start(edits).contains_key(edits[k].start_line as int),
        edits_by_start(edits)[edits[k].start_line as int] == edits[k],
{
    let line = edits[k].start_line as int;
    assert(starts_on(edits, k, line));
    let j = choose|j: int| #[trigger] starts_on(edits, j, line);
    assert(starts_on(edits, j, line));
}

proof fn lemma_edits_by_start_key(edits: Seq<BufferEdit>, line: int) -> (k: int)
    requires
        edits_by_start(edits).contains_key(line),
    ensures
        starts_on(edits, k, line),
{
    choose|k: int| #[trigger] starts_on(edits, k, line)
}

/// With no edit starting on or after line `i`, the rest of the buffer is unchanged.
proof fn lemma_patched_tail(buffer: Seq<String>, edits: Map<int, BufferEdit>, i: int)
    requires
        0 <= i <= buffer.len(),
        forall|line: int| edits.contains_key(line) ==> line < i,
    ensures
        patched_from(buffer, edits, i) == buffer.skip(i),
    decreases buffer.len() - i,
{
    if i < buffer.len() {
        lemma_patched_tail(buffer, edits, i + 1);
        assert(buffer.skip(i) =~= seq![buffer[i]] + buffer.skip(i + 1));
    } else {
        assert(buffer.skip(i) =~= Seq::<String>::empty());
    }
}

/// Patching `edits` (all above line `start`) into `after`, the buffer in which
/// `last` already replaced the lines `start..end`, agrees from line `i` on with
/// patching `edits` and `last` into `buffer`.
proof fn lemma_patched_above(
    buffer: Seq<String>,
    after: Seq<String>,
    edits: Map<int, BufferEdit>,
    last: BufferEdit,
    i: int,
)
    requires
        0 <= last.start_line <= last.end_line <= buffer.len(),
        after == replace_lines(buffer, last),
        forall|line: int| #[trigger] edits.contains_key(line) ==> {
            &&& line < last.start_line
            &&& edits[line].start_line == line
            &&& line <= edits[line].end_line <= last.start_line
        },
        0 <= i <= last.start_line,
    ensures
        patched_from(after, edits, i) == patched_from(
            buffer,
            edits.insert(last.start_line as int, last),
            i,
        ),
    decreases last.start_line - i,
{
    let s0 = last.start_line as int;
    let e0 = last.end_line as int;
    let all = edits.insert(s0, last);
    assert(after.len() == s0 + last.new_lines@.len() + buffer.len() - e0);
    if i == s0 {
        lemma_patched_tail(after, edits, s0);
        assert(after.skip(s0) =~= last.new_lines@ + buffer.skip(e0));
        assert forall|line: int| all.contains_key(line) implies line < s0 + 1 by {
            if line != s0 {
                assert(edits.contains_key(line));
            }
        }
        if s0 < e0 {
            lemma_patched_tail(buffer, all, e0);
        } else if s0 < buffer.len() {
            lemma_patched_tail(buffer, all, s0 + 1);
            assert(buffer.skip(s0) =~= seq![buffer[s0]] + buffer.skip(s0 + 1));
            assert(last.new_lines@ + seq![buffer[s0]] + buffer.skip(s0 + 1) =~= last.new_lines@
                + buffer.skip(s0));
        } else {
            assert(buffer.skip(s0) =~= Seq::<String>::empty());
            assert(last.new_lines@ + buffer.skip(e0) =~= last.new_lines@);
        }
    } else {
        assert(after[i] == buffer[i]);
        assert(all.contains_key(i) == edits.contains_key(i));
        if edits.contains_key(i) {
            assert(all[i] == edits[i]);
            let end = edits[i].end_line as int;
            if i < end {
                lemma_patched_above(buffer, after, edits, last, end);
            } else {
                lemma_patched_above(buffer, after, edits, last, i + 1);
            }
        } else {
            lemma_patched_above(buffer, after, edits, last, i + 1);
        }
    }
}

/// Applying a batch whose start lines strictly decrease, one edit after
/// another, patches every range as numbered before the batch.
proof fn lemma_descending_application(buffer: Seq<String>, edits: Seq<BufferEdit>)
    requires
        disjoint_batch(buffer.len() as int, edits),
        forall|a: int, b: int| 0 <= a < b < edits.len() ==> #[trigger] edits[a].start_line > #[trigger] edits[b].start_line,
    ensures
        apply_edits(buffer, edits) == patched_from(buffer, edits_by_start(edits), 0),
    decreases edits.len(),
{
    if edits.len() == 0 {
        assert forall|line: int| edits_by_start(edits).contains_key(line) implies line < 0 by {
            lemma_edits_by_start_key(edits, line);
        }
        lemma_patched_tail(buffer, edits_by_start(edits), 0);
        assert(buffer.skip(0) =~= buffer);
    } else {
        let last = edits[0];
        let rest = edits.skip(1);
        let after = replace_lines(buffer, last);
        let s0 = last.start_line as int;
        assert(0 <= last.start_line <= last.end_line <= buffer.len());
        assert(after.len() == s0 + last.new_lines@.len() + buffer.len() - last.end_line);
        // every other edit lies above `last`
        assert forall|k: int| 0 <= k < rest.len() implies #[trigger] rest[k].end_line <= last.start_line
            && rest[k].start_line < last.start_line by {
            assert(rest[k] == edits[k + 1]);
            assert(edits[0].start_line > edits[k + 1].start_line);
            assert(edits[k + 1].start_line <= edits[k + 1].end_line);
        }
        assert(disjoint_batch(after.len() as int, rest)) by {
            assert forall|a: int, b: int|
                0 <= a < rest.len() && 0 <= b < rest.len() && a != b implies {
                &&& #[trigger] rest[a].start_line != #[trigger] rest[b].start_line
                &&& (rest[a].end_line <= rest[b].start_line || rest[b].end_line <= rest[a].start_line)
            } by {
                assert(rest[a] == edits[a + 1]);
                assert(rest[b] == edits[b + 1]);
            }
            assert forall|k: int| 0 <= k < rest.len() implies 0 <= #[trigger] rest[k].start_line
                <= rest[k].end_line <= after.len() by {
                assert(rest[k] == edits[k + 1]);
            }
        }
        assert forall|a: int, b: int| 0 <= a < b < rest.len() implies #[trigger] rest[a].start_line
            > #[trigger] rest[b].start_line by {
            assert(rest[a] == edits[a + 1]);
            assert(rest[b] == edits[b + 1]);
        }
        lemma_descending_application(after, rest);
        assert(apply_edits(buffer, edits) == apply_edits(after, rest));
        let m = edits_by_start(rest);
        assert forall|line: int| #[trigger] m.contains_key(line) implies {
            &&& line < last.start_line
            &&& m[line].start_line == line
            &&& line <= m[line].end_line <= last.start_line
        } by {
            let k = lemma_edits_by_start_key(rest, line);
            lemma_edits_by_start_entry(rest, k);
        }
        lemma_patched_above(buffer, after, m, last, 0);
        // the whole batch, keyed by start line, is the rest plus `last`
        assert forall|line: int| #[trigger] edits_by_start(edits).contains_key(line) == m.insert(
            s0,
            last,
        ).contains_key(line) by {
            if edits_by_start(edits).contains_key(line) {
                let k = lemma_edits_by_start_key(edits, line);
                if k > 0 {
                    assert(rest[k - 1] == edits[k]);
                    lemma_edits_by_start_entry(rest, k - 1);
                }
            }
            if m.contains_key(line) {
                let k = lemma_edits_by_start_key(rest, line);
                assert(rest[k] == edits[k + 1]);
                lemma_edits_by_start_entry(edits, k + 1);
            }
            lemma_edits_by_start_entry(edits, 0);
        }
        assert forall|line: int| #[trigger] edits_by_start(edits).contains_key(line) implies edits_by_start(
            edits,
        )[line] == m.insert(s0, last)[line] by {
            let k = lemma_edits_by_start_key(edits, line);
            lemma_edits_by_start_entry(edits, k);
            if k > 0 {
                assert(rest[k - 1] == edits[k]);
                lemma_edits_by_start_entry(rest, k - 1);
            }
        }
        assert(edits_by_start(edits) =~= m.insert(s0, last));
    }
}

/// Applying a batch of edits in `edit_application_order`, one `set_lines`
/// after another, gives the buffer in which every edit has replaced its
/// range as numbered before the batch, provided the edits start on distinct
/// lines and their ranges lie in the buffer and do not overlap.
pub proof fn law_bottom_up_application_patches_original_lines(
    buffer: Seq<String>,
    edits: Seq<BufferEdit>,
    ordered: Seq<BufferEdit>,
)
    requires
        disjoint_batch(buffer.len() as int, edits),
        is_application_order(edits, ordered),
    ensures
        apply_edits(buffer, ordered) == patched(buffer, edits),
{
    let perm = choose|perm: Seq<int>| arranges(perm, edits, ordered);
    assert(arranges(perm, edits, ordered));
    assert(disjoint_batch(buffer.len() as int, ordered)) by {
        assert forall|a: int, b: int|
            0 <= a < ordered.len() && 0 <= b < ordered.len() && a != b implies {
            &&& #[trigger] ordered[a].start_line != #[trigger] ordered[b].start_line
            &&& (ordered[a].end_line <= ordered[b].start_line || ordered[b].end_line
                <= ordered[a].start_line)
        } by {
            assert(ordered[a] == edits[perm[a]]);
            assert(ordered[b] == edits[perm[b]]);
            if a < b {
                assert(perm[a] != perm[b]);
            } else {
                assert(perm[b] != perm[a]);
            }
        }
        assert forall|k: int| 0 <= k < ordered.len() implies 0 <= #[trigger] ordered[k].start_line
            <= ordered[k].end_line <= buffer.len() by {
            assert(ordered[k] == edits[perm[k]]);
        }
    }
    assert forall|a: int, b: int| 0 <= a < b < ordered.len() implies #[trigger] ordered[a].start_line
        > #[trigger] ordered[b].start_line by {
        assert(ordered[a].start_line >= ordered[b].start_line);
        assert(ordered[a].start_line != ordered[b].start_line);
    }
    lemma_descending_application(buffer, ordered);
    // the ordered batch and the given batch have the same edits by start line
    assert forall|line: int| #[trigger] edits_by_start(ordered).contains_key(line) == edits_by_start(
        edits,
    ).contains_key(line) by {
        if edits_by_start(ordered).contains_key(line) {
            let k = lemma_edits_by_start_key(ordered, line);
            assert(ordered[k] == edits[perm[k]]);
            lemma_edits_by_start_entry(edits, perm[k]);
        }
        if edits_by_start(edits).contains_key(line) {
            let j = lemma_edits_by_start_key(edits, line);
            lemma_arrangement_covers_input(perm, edits, ordered, j);
            let k = choose|k: int| 0 <= k < perm.len() && #[trigger] perm[k] == j;
            assert(ordered[k] == edits[j]);
            lemma_edits_by_start_entry(ordered, k);
        }
    }
    assert forall|line: int| #[trigger] edits_by_start(ordered).contains_key(line) implies edits_by_start(
        ordered,
    )[line] == edits_by_start(edits)[line] by {
        let k = lemma_edits_by_start_key(ordered, line);
        assert(ordered[k] == edits[perm[k]]);
        lemma_edits_by_start_entry(ordered, k);
        lemma_edits_by_start_entry(edits, perm[k]);
    }
    assert(edits_by_start(ordered) =~= edits_by_start(edits));
}

/// Some position of `perm` holds `j`.
pub open spec fn lists(perm: Seq<int>, j: int) -> bool {
    exists|k: int| 0 <= k < perm.len() && perm[k] == j
}

/// An application order of `input` lists the edits of `input`, each once, by
/// non-increasing start line, and edits that start on the same line in the
/// order in which `input` gives them.
pub proof fn law_application_order_is_a_stable_sort(input: Seq<BufferEdit>, output: Seq<BufferEdit>)
    requires
        is_application_order(input, output),
    ensures
        output.len() == input.len(),
        exists|perm: Seq<int>| {
            &&& perm.len() == input.len()
            &&& (forall|k: int| 0 <= k < perm.len() ==> 0 <= #[trigger] perm[k] < input.len())
            &&& (forall|j: int| 0 <= j < input.len() ==> #[trigger] lists(perm, j))
            &&& (forall|k: int| 0 <= k < output.len() ==> #[trigger] output[k] == input[perm[k]])
            &&& (forall|a: int, b: int|
                0 <= a < b < output.len() ==> #[trigger] output[a].start_line > #[trigger] output[b].start_line
                    || (output[a].start_line == output[b].start_line && perm[a] < perm[b]))
        },
{
    let perm = choose|perm: Seq<int>| arranges(perm, input, output);
    assert(arranges(perm, input, output));
    assert forall|j: int| 0 <= j < input.len() implies #[trigger] lists(perm, j) by {
        lemma_arrangement_covers_input(perm, input, output, j);
    }
    assert forall|a: int, b: int| 0 <= a < b < output.len() implies #[trigger] output[a].start_line
        > #[trigger] output[b].start_line || (output[a].start_line == output[b].start_line && perm[a] < perm[b]) by {
        assert(output[a].start_line >= output[b].start_line);
    }
}

} // verus!
