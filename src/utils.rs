//! The differ between two manifests.
use vstd::prelude::*;

use crate::manifest::{Files, manifest_view, changed_entries};

verus! {

#[verifier::external_type_specification]
#[verifier::external_body]
pub struct ExIoError(std::io::Error);

/// Whether `entry` occurs, with all fields equal, in `list`.
fn list_contains(list: &Vec<Files>, entry: &Files) -> (r: bool)
    ensures
        r == manifest_view(list@).contains(entry@),
{
    let mut i: usize = 0;
    while i < list.len()
        invariant
            i <= list.len(),
            forall|j: int| 0 <= j < i ==> list@[j]@ != entry@,
        decreases list.len() - i,
    {
        if list[i] == *entry {
            assert(manifest_view(list@)[i as int] == entry@);
            return true;
        }
        i = i + 1;
    }
    assert forall|j: int| 0 <= j < manifest_view(list@).len() implies manifest_view(list@)[j]
        != entry@ by {
        assert(list@[j]@ != entry@);
    }
    false
}

/// The entries of `list` that are not present in `comparison_list`: the
/// files that are new or modified in the scan `list` relative to the earlier
/// scan `comparison_list`. Entries that only `comparison_list` holds (deleted
/// files) are not reported. The order of `list` is kept.
pub fn get_list_differences(list: Vec<Files>, comparison_list: Vec<Files>) -> (r: Result<
    Vec<Files>,
    std::io::Error,
>)
    ensures
        r matches Ok(changes) && manifest_view(changes@) == changed_entries(
            manifest_view(list@),
            manifest_view(comparison_list@),
        ),
{
    let ghost whole = manifest_view(list@);
    let ghost previous = manifest_view(comparison_list@);
    let mut changes: Vec<Files> = Vec::new();
    for item in it: list
        invariant
            it.seq() == list@,
            whole == manifest_view(list@),
            previous == manifest_view(comparison_list@),
            manifest_view(changes@) == changed_entries(whole.take(it.index() as int), previous),
    {
        let ghost k = it.index() as int;
        proof {
            assert(whole.take(k + 1).drop_last() =~= whole.take(k));
            assert(whole.take(k + 1).last() == item@);
        }
        if !list_contains(&comparison_list, &item) {
            changes.push(item);
            assert(manifest_view(changes@) =~= changed_entries(whole.take(k), previous).push(
                whole[k],
            ));
        }
    }
    assert(whole.take(whole.len() as int) =~= whole);
    Ok(changes)
}

} // verus!
