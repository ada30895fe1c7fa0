//! The check marks of the puzzle-type menu.
use vstd::prelude::*;

verus! {

/// Which of `count` preset entries carry a check mark when the midend reports
/// `current` as the preset in use: exactly the entry whose position is the
/// reported index, compared as `i32`, as the midend numbers them.
pub fn preset_checks(count: usize, current: Option<i32>) -> (checks: Vec<bool>)
    ensures
        checks@.len() == count,
        forall|i: int| 0 <= i < count ==> #[trigger] checks@[i] == (current == Some(i as i32)),
{
    let mut checks: Vec<bool> = Vec::new();
    let mut i: usize = 0;
    while i < count
        invariant
            i <= count,
            checks@.len() == i,
            forall|k: int| 0 <= k < i ==> #[trigger] checks@[k] == (current == Some(k as i32)),
        decreases count - i,
    {
        let index = #[verifier::truncate] (i as i32);
        checks.push(current == Some(index));
        i = i + 1;
    }
    checks
}

/// The positions, in order, of the preset entries whose id is `wanted`: the
/// entries that are loaded when the menu item for preset `wanted` is chosen.
pub fn entries_with_id(entry_ids: &Vec<i32>, wanted: i32) -> (found: Vec<usize>)
    ensures
        forall|k: int| 0 <= k < found@.len() ==> #[trigger] found@[k] < entry_ids@.len() && entry_ids@[found@[k] as int] == wanted,
        forall|k: int, l: int| 0 <= k < l < found@.len() ==> #[trigger] found@[k] < #[trigger] found@[l],
        forall|i: int| 0 <= i < entry_ids@.len() && #[trigger] entry_ids@[i] == wanted ==> found@.contains(i as usize),
{
    let mut found: Vec<usize> = Vec::new();
    let mut i: usize = 0;
    while i < entry_ids.len()
        invariant
            i <= entry_ids@.len(),
            forall|k: int| 0 <= k < found@.len() ==> #[trigger] found@[k] < i && entry_ids@[found@[k] as int] == wanted,
            forall|k: int, l: int| 0 <= k < l < found@.len() ==> #[trigger] found@[k] < #[trigger] found@[l],
            forall|j: int| 0 <= j < i && #[trigger] entry_ids@[j] == wanted ==> found@.contains(j as usize),
        decreases entry_ids@.len() - i,
    {
        if entry_ids[i] == wanted {
            let ghost before = found@;
            found.push(i);
            assert forall|j: int| 0 <= j < i + 1 && #[trigger] entry_ids@[j] == wanted implies found@.contains(j as usize) by {
                if j < i {
                    let k = choose|k: int| 0 <= k < before.len() && before[k] == j as usize;
                    assert(found@[k] == j as usize);
                } else {
                    assert(found@[found@.len() - 1] == i);
                }
            }
        }
        i = i + 1;
    }
    found
}

/// With no more entries than `i32` can number, at most one entry is checked,
/// and one is exactly when the reported index names an entry.
pub proof fn lemma_one_check(count: usize, current: Option<i32>, checks: Seq<bool>)
    requires
        count <= i32::MAX as int + 1,
        checks.len() == count,
        forall|i: int| 0 <= i < count ==> #[trigger] checks[i] == (current == Some(i as i32)),
    ensures
        forall|i: int, j: int| 0 <= i < count && 0 <= j < count && #[trigger] checks[i] && #[trigger] checks[j] ==> i == j,
        (exists|i: int| 0 <= i < count && #[trigger] checks[i]) <==> (current matches Some(c) && 0 <= c < count),
{
    if let Some(c) = current {
        if 0 <= c < count {
            assert(checks[c as int]);
        }
    }
}

} // verus!
