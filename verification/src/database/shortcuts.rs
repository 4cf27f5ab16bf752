use vstd::prelude::*;
use crate::database::store::RecordStore;
use crate::models::fur_shortcut::FurShortcut;

verus! {

/// Whether a stored shortcut is not deleted and has the content of
/// `shortcut`: name, tags, project and currency agree exactly, and the rates
/// as numbers.
pub open spec fn same_shortcut(row: FurShortcut, shortcut: FurShortcut) -> bool {
    &&& row.name@ == shortcut.name@
    &&& row.tags@ == shortcut.tags@
    &&& row.project@ == shortcut.project@
    &&& row.rate.spec_same(shortcut.rate)
    &&& row.currency@ == shortcut.currency@
    &&& !row.is_deleted
}

/// Whether a shortcut with the content of `shortcut` is stored and not
/// deleted, whatever its identifier and colour.
pub fn shortcut_exists(store: &RecordStore<FurShortcut>, shortcut: &FurShortcut) -> (exists: bool)
    ensures
        exists == exists|i: int|
            0 <= i < store@.len() && same_shortcut(#[trigger] store@[i], *shortcut),
{
    let n = store.rows.len();
    let mut i: usize = 0;
    while i < n
        invariant
            n == store.rows@.len(),
            i <= n,
            forall|j: int| 0 <= j < i ==> !same_shortcut(#[trigger] store.rows@[j], *shortcut),
        decreases n - i,
    {
        let row = &store.rows[i];
        if row.name == shortcut.name && row.tags == shortcut.tags && row.project
            == shortcut.project && row.rate.same(&shortcut.rate) && row.currency
            == shortcut.currency && !row.is_deleted {
            assert(same_shortcut(store@[i as int], *shortcut));
            return true;
        }
        i += 1;
    }
    false
}

} // verus!
