//! Reordering pages and page categories: the checks made on the requested
//! order before and between the database lookups, and the positions written.

use std::collections::HashSet;
use vstd::prelude::*;

use super::constants::MAX_CATEGORIES_PER_GUILD;
use super::handlers::{page_result_view, PageError, BAD_REQUEST};

verus! {

/// Largest number of page IDs accepted in one reorder request.
pub const MAX_REORDER_PAGE_IDS: usize = 1000;

/// What a reorder request puts in order.
#[derive(Debug, Clone, Copy, PartialEq, Eq)]
pub enum ReorderTarget {
    /// The pages of a scope (a guild, or the platform).
    Pages,
    /// The page categories of a guild.
    Categories,
}

/// No ID occurs twice.
pub open spec fn distinct_ids(s: Seq<u128>) -> bool {
    forall|i: int, j: int| 0 <= i < j < s.len() ==> s[i] != s[j]
}

/// Whether some ID occurs twice in the list: the IDs are put into a set one
/// by one, and an ID that is already there is a duplicate.
pub fn has_duplicate_ids(ids: &Vec<u128>) -> (r: bool)
    ensures
        r == !distinct_ids(ids@),
{
    broadcast use vstd::std_specs::hash::group_hash_axioms;

    let mut seen: HashSet<u128> = HashSet::new();
    let mut i: usize = 0;
    while i < ids.len()
        invariant
            i <= ids@.len(),
            forall|x: u128| seen@.contains(x) <==> exists|k: int| 0 <= k < i && ids@[k] == x,
            forall|a: int, b: int| 0 <= a < b < i ==> ids@[a] != ids@[b],
        decreases ids@.len() - i,
    {
        let id = ids[i];
        if !seen.insert(id) {
            let ghost k = choose|k: int| 0 <= k < i && ids@[k] == id;
            assert(ids@[k] == ids@[i as int]);
            return true;
        }
        assert forall|x: u128| seen@.contains(x) <==> exists|k: int| 0 <= k < i + 1 && ids@[k] == x by {
            if x == id {
                assert(ids@[i as int] == x);
            }
        }
        i += 1;
    }
    false
}

/// The largest list a reorder request may carry.
pub open spec fn reorder_size_limit(target: ReorderTarget) -> int {
    match target {
        ReorderTarget::Pages => MAX_REORDER_PAGE_IDS as int,
        ReorderTarget::Categories => MAX_CATEGORIES_PER_GUILD as int,
    }
}

/// The refusal of a request that carries too many IDs.
pub open spec fn too_many_message(target: ReorderTarget) -> Seq<char> {
    match target {
        ReorderTarget::Pages => "Too many page IDs"@,
        ReorderTarget::Categories => "Too many category IDs"@,
    }
}

/// The refusal of a list in which an ID occurs twice.
pub open spec fn duplicate_message(target: ReorderTarget) -> Seq<char> {
    match target {
        ReorderTarget::Pages => "Duplicate page IDs in reorder request"@,
        ReorderTarget::Categories => "Duplicate category IDs in reorder request"@,
    }
}

/// The refusal of a list whose length differs from the number of items in
/// the scope.
pub open spec fn count_mismatch_message(target: ReorderTarget) -> Seq<char> {
    match target {
        ReorderTarget::Pages => "Page count mismatch during reorder"@,
        ReorderTarget::Categories => "Category count mismatch during reorder"@,
    }
}

/// The refusal of a list that names items of another scope.
pub open spec fn foreign_ids_message(target: ReorderTarget) -> Seq<char> {
    match target {
        ReorderTarget::Pages => "Invalid page IDs: some pages do not belong to this scope"@,
        ReorderTarget::Categories => "Invalid category IDs: some do not belong to this guild"@,
    }
}

/// A reorder request is refused with 400 when it carries more than 1000 page
/// IDs, or more category IDs than a guild may have categories.
pub fn check_reorder_size(target: ReorderTarget, count: usize) -> (r: Result<(), PageError>)
    ensures
        page_result_view(r) == (if count > reorder_size_limit(target) {
            Err((BAD_REQUEST, too_many_message(target)))
        } else {
            Ok(())
        }),
{
    match target {
        ReorderTarget::Pages => if count > MAX_REORDER_PAGE_IDS {
            Err(PageError { status: BAD_REQUEST, message: "Too many page IDs".to_owned() })
        } else {
            Ok(())
        },
        ReorderTarget::Categories => if count as u64 > MAX_CATEGORIES_PER_GUILD as u64 {
            Err(PageError { status: BAD_REQUEST, message: "Too many category IDs".to_owned() })
        } else {
            Ok(())
        },
    }
}

/// Before any lookup, a requested order must name each item once.
pub fn check_reorder_ids(target: ReorderTarget, ids: &Vec<u128>) -> (r: Result<(), String>)
    ensures
        r matches Ok(_) <==> distinct_ids(ids@),
        r matches Err(m) ==> m@ == duplicate_message(target),
{
    if has_duplicate_ids(ids) {
        let m = match target {
            ReorderTarget::Pages => "Duplicate page IDs in reorder request".to_owned(),
            ReorderTarget::Categories => "Duplicate category IDs in reorder request".to_owned(),
        };
        Err(m)
    } else {
        Ok(())
    }
}

/// The requested order must have as many entries as the scope has items
/// (`existing_count`, as counted by the database).
pub fn check_reorder_count(target: ReorderTarget, requested: usize, existing_count: i64) -> (r:
    Result<(), String>)
    ensures
        r matches Ok(_) <==> requested as int == existing_count as int,
        r matches Err(m) ==> m@ == count_mismatch_message(target),
{
    if requested as u64 > i64::MAX as u64 || requested as i64 != existing_count {
        let m = match target {
            ReorderTarget::Pages => "Page count mismatch during reorder".to_owned(),
            ReorderTarget::Categories => "Category count mismatch during reorder".to_owned(),
        };
        Err(m)
    } else {
        Ok(())
    }
}

/// Every requested ID must belong to the scope: `valid_count`, the number of
/// them that the database finds there, must be the length of the list.
pub fn check_reorder_scope(target: ReorderTarget, requested: usize, valid_count: i64) -> (r:
    Result<(), String>)
    ensures
        r matches Ok(_) <==> requested as int == valid_count as int,
        r matches Err(m) ==> m@ == foreign_ids_message(target),
{
    if requested as u64 > i64::MAX as u64 || valid_count != requested as i64 {
        let m = match target {
            ReorderTarget::Pages => "Invalid page IDs: some pages do not belong to this scope".to_owned(),
            ReorderTarget::Categories => "Invalid category IDs: some do not belong to this guild".to_owned(),
        };
        Err(m)
    } else {
        Ok(())
    }
}

/// The position written for each item: the item at index `k` of the
/// requested order gets position `k`, as an `i32`.
pub fn reorder_positions(ids: &Vec<u128>) -> (r: Vec<(u128, i32)>)
    ensures
        r@.len() == ids@.len(),
        forall|k: int| 0 <= k < ids@.len() ==> #[trigger] r@[k] == (ids@[k], k as i32),
{
    let mut out: Vec<(u128, i32)> = Vec::new();
    let mut k: usize = 0;
    while k < ids.len()
        invariant
            k <= ids@.len(),
            out@.len() == k,
            forall|j: int| 0 <= j < k ==> #[trigger] out@[j] == (ids@[j], j as i32),
        decreases ids@.len() - k,
    {
        out.push((ids[k], #[verifier::truncate] (k as i32)));
        k += 1;
    }
    out
}

} // verus!
