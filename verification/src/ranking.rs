//! Preference tables and the choice of the best candidate.
//!
//! A table lists codes from most to least preferred. The rank of a code is
//! its position in the table, counted from 1; a code that the table does not
//! list ranks behind all listed ones. Among candidates the best is the one
//! with the lowest rank, and of several with that rank the earliest.

use vstd::prelude::*;

verus! {

/// The first position at or after `start` where `table` holds `code`, or the
/// table's length if there is none.
pub open spec fn first_index_from(table: Seq<i32>, code: i32, start: int) -> int
    decreases table.len() - start,
{
    if start >= table.len() {
        table.len() as int
    } else if table[start] == code {
        start
    } else {
        first_index_from(table, code, start + 1)
    }
}

/// The rank of `code` in `table`: lower is better.
pub open spec fn spec_rank(table: Seq<i32>, code: i32) -> int {
    first_index_from(table, code, 0) + 1
}

/// Candidate `k` has the lowest priority number and no earlier candidate has
/// the same.
pub open spec fn is_best(priorities: Seq<int>, k: int) -> bool {
    &&& 0 <= k < priorities.len()
    &&& forall|j: int| 0 <= j < priorities.len() ==> priorities[k] <= #[trigger] priorities[j]
    &&& forall|j: int| 0 <= j < k ==> priorities[k] < #[trigger] priorities[j]
}

/// The priorities as mathematical integers.
pub open spec fn priority_seq(priorities: Seq<u32>) -> Seq<int> {
    priorities.map_values(|p: u32| p as int)
}

/// What `first_index_from` returns lies between `start` and the table's
/// length, names a position that holds the code if it is inside the table,
/// and no position from `start` up to it holds the code.
pub proof fn lemma_first_index_from(table: Seq<i32>, code: i32, start: int)
    requires
        0 <= start <= table.len(),
    ensures
        start <= first_index_from(table, code, start) <= table.len(),
        first_index_from(table, code, start) < table.len() ==> table[first_index_from(
            table,
            code,
            start,
        )] == code,
        forall|j: int| start <= j < first_index_from(table, code, start) ==> table[j] != code,
    decreases table.len() - start,
{
    if start < table.len() && table[start] != code {
        lemma_first_index_from(table, code, start + 1);
    }
}

/// A listed code ranks by its first position; an unlisted one ranks one
/// behind the table's length.
pub proof fn lemma_rank_bounds(table: Seq<i32>, code: i32)
    ensures
        1 <= spec_rank(table, code) <= table.len() + 1,
        table.contains(code) <==> spec_rank(table, code) <= table.len(),
        spec_rank(table, code) <= table.len() ==> table[spec_rank(table, code) - 1] == code,
{
    lemma_first_index_from(table, code, 0);
    let r = first_index_from(table, code, 0);
    if table.contains(code) {
        let j = choose|j: int| 0 <= j < table.len() && table[j] == code;
        assert(r <= j);
    }
    if r < table.len() {
        assert(table[r] == code);
    }
}

/// At most one candidate is the best.
pub proof fn lemma_best_is_unique(priorities: Seq<int>, a: int, b: int)
    requires
        is_best(priorities, a),
        is_best(priorities, b),
    ensures
        a == b,
{
    if a < b {
        assert(priorities[b] < priorities[a]);
        assert(priorities[a] <= priorities[b]);
    } else if b < a {
        assert(priorities[a] < priorities[b]);
        assert(priorities[b] <= priorities[a]);
    }
}

/// The rank of `code` in `table`.
pub fn rank_in(table: &Vec<i32>, code: i32) -> (rank: usize)
    requires
        table.len() < usize::MAX,
    ensures
        rank == spec_rank(table@, code),
{
    let mut i: usize = 0;
    while i < table.len()
        invariant
            0 <= i <= table.len(),
            table.len() < usize::MAX,
            first_index_from(table@, code, 0) == first_index_from(table@, code, i as int),
        decreases table.len() - i,
    {
        if table[i] == code {
            return i + 1;
        }
        i += 1;
    }
    i + 1
}

/// The position of the best candidate: the first one with the lowest
/// priority number. `None` exactly when there is no candidate.
pub fn pick_best(priorities: &Vec<u32>) -> (best: Option<usize>)
    ensures
        priorities.len() == 0 <==> best is None,
        best matches Some(k) ==> is_best(priority_seq(priorities@), k as int),
{
    if priorities.len() == 0 {
        return None;
    }
    let mut best: usize = 0;
    let mut i: usize = 1;
    while i < priorities.len()
        invariant
            0 <= best < i <= priorities.len(),
            forall|j: int| 0 <= j < i ==> priorities[best as int] <= #[trigger] priorities[j],
            forall|j: int| 0 <= j < best ==> priorities[best as int] < #[trigger] priorities[j],
        decreases priorities.len() - i,
    {
        if priorities[i] < priorities[best] {
            best = i;
        }
        i += 1;
    }
    assert(is_best(priority_seq(priorities@), best as int)) by {
        let s = priority_seq(priorities@);
        assert forall|j: int| 0 <= j < s.len() implies s[best as int] <= #[trigger] s[j] by {
            assert(priorities[best as int] <= priorities[j]);
        }
        assert forall|j: int| 0 <= j < best implies s[best as int] < #[trigger] s[j] by {
            assert(priorities[best as int] < priorities[j]);
        }
    }
    Some(best)
}

} // verus!
