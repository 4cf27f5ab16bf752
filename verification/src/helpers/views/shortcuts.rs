use vstd::prelude::*;
use crate::database::store::{existing, RecordStore};
use crate::helpers::tasks::{lemma_text_order, lemma_text_transitive, text_less, text_lt};
use crate::models::fur_shortcut::FurShortcut;
use crate::models::record::SyncedRecord;

verus! {

/// The shortcuts come in the order of their names: no name comes before
/// the name in front of it. Shortcuts of the same name may come in any
/// order.
pub open spec fn ascending_names(shortcuts: Seq<FurShortcut>) -> bool {
    forall|i: int|
        0 <= i < shortcuts.len() - 1 ==> !text_lt(
            shortcuts[i + 1].name@,
            (#[trigger] shortcuts[i]).name@,
        )
}

/// `listed` holds the shortcuts of `rows` that are not deleted, each as
/// often as the store holds it and nothing else, in the order of their
/// names.
pub open spec fn is_shortcut_list(rows: Seq<FurShortcut>, listed: Seq<FurShortcut>) -> bool {
    &&& listed.to_multiset() == existing(rows).to_multiset()
    &&& ascending_names(listed)
}

/// In a list in the order of its names, no shortcut has a name that comes
/// before the name of a shortcut in front of it, however far in front.
pub proof fn lemma_names_ordered(shortcuts: Seq<FurShortcut>, i: int, j: int)
    requires
        ascending_names(shortcuts),
        0 <= i <= j < shortcuts.len(),
    ensures
        !text_lt(shortcuts[j].name@, shortcuts[i].name@),
    decreases j - i,
{
    let first = shortcuts[i].name@;
    let last = shortcuts[j].name@;
    if i == j {
        lemma_text_order(first, first);
    } else {
        let before = shortcuts[j - 1].name@;
        lemma_names_ordered(shortcuts, i, j - 1);
        assert(!text_lt(shortcuts[(j - 1) + 1].name@, shortcuts[j - 1].name@));
        if text_lt(last, first) {
            lemma_text_order(first, before);
            if text_lt(first, before) {
                lemma_text_transitive(last, first, before);
            }
        }
    }
}

/// How many leading shortcuts have a name that does not come after `name`.
pub open spec fn name_rank(shortcuts: Seq<FurShortcut>, name: Seq<char>) -> nat
    decreases shortcuts.len(),
{
    if shortcuts.len() > 0 && !text_lt(name, shortcuts[0].name@) {
        1 + name_rank(shortcuts.subrange(1, shortcuts.len() as int), name)
    } else {
        0
    }
}

/// The rank is a place among the shortcuts; no shortcut before it has a
/// name after `name`, and the shortcut at it has.
pub proof fn lemma_name_rank(shortcuts: Seq<FurShortcut>, name: Seq<char>)
    ensures
        name_rank(shortcuts, name) <= shortcuts.len(),
        forall|i: int|
            0 <= i < name_rank(shortcuts, name) ==> !text_lt(name, (#[trigger] shortcuts[i]).name@),
        name_rank(shortcuts, name) < shortcuts.len() ==> text_lt(
            name,
            shortcuts[name_rank(shortcuts, name) as int].name@,
        ),
    decreases shortcuts.len(),
{
    if shortcuts.len() > 0 && !text_lt(name, shortcuts[0].name@) {
        let rest = shortcuts.subrange(1, shortcuts.len() as int);
        lemma_name_rank(rest, name);
        assert forall|i: int| 0 <= i < name_rank(shortcuts, name) implies !text_lt(
            name,
            (#[trigger] shortcuts[i]).name@,
        ) by {
            if i > 0 {
                assert(rest[i - 1] == shortcuts[i]);
            }
        }
        if name_rank(shortcuts, name) < shortcuts.len() {
            assert(rest[name_rank(rest, name) as int] == shortcuts[name_rank(shortcuts, name) as int]);
        }
    }
}

/// A shortcut put in at the rank of its name keeps the shortcuts in the
/// order of their names, and adds exactly that shortcut.
pub proof fn lemma_insert_at_name_rank(shortcuts: Seq<FurShortcut>, shortcut: FurShortcut)
    requires
        ascending_names(shortcuts),
    ensures
        ascending_names(shortcuts.insert(name_rank(shortcuts, shortcut.name@) as int, shortcut)),
        shortcuts.insert(name_rank(shortcuts, shortcut.name@) as int, shortcut).to_multiset()
            == shortcuts.to_multiset().insert(shortcut),
{
    lemma_name_rank(shortcuts, shortcut.name@);
    let place = name_rank(shortcuts, shortcut.name@) as int;
    let after = shortcuts.insert(place, shortcut);
    assert forall|i: int| 0 <= i < after.len() - 1 implies !text_lt(
        after[i + 1].name@,
        (#[trigger] after[i]).name@,
    ) by {
        if i + 1 < place {
            assert(after[i] == shortcuts[i] && after[i + 1] == shortcuts[i + 1]);
        } else if i + 1 == place {
            assert(after[i] == shortcuts[i]);
        } else if i == place {
            assert(after[i + 1] == shortcuts[place]);
            lemma_text_order(shortcut.name@, shortcuts[place].name@);
        } else {
            assert(after[i] == shortcuts[i - 1] && after[i + 1] == shortcuts[i]);
        }
    }
    assert(after.remove(place) =~= shortcuts);
    vstd::seq_lib::to_multiset_remove(after, place);
    assert(after[place] == shortcut);
    after.to_multiset_ensures();
    assert(after.contains(shortcut));
    assert(after.to_multiset() =~= shortcuts.to_multiset().insert(shortcut));
}

/// Puts a shortcut among shortcuts that are in the order of their names:
/// behind every shortcut whose name does not come after its own.
pub fn insert_by_name(shortcuts: &mut Vec<FurShortcut>, shortcut: FurShortcut)
    ensures
        final(shortcuts)@ == old(shortcuts)@.insert(
            name_rank(old(shortcuts)@, shortcut.name@) as int,
            shortcut,
        ),
{
    let n = shortcuts.len();
    let mut place: usize = 0;
    assert(shortcuts@.subrange(0, n as int) =~= shortcuts@);
    while place < n && !text_less(shortcut.name.as_str(), shortcuts[place].name.as_str())
        invariant
            n == shortcuts@.len(),
            shortcuts@ == old(shortcuts)@,
            place <= n,
            name_rank(shortcuts@, shortcut.name@) == place + name_rank(
                shortcuts@.subrange(place as int, n as int),
                shortcut.name@,
            ),
        decreases n - place,
    {
        proof {
            let rest = shortcuts@.subrange(place as int, n as int);
            assert(rest[0] == shortcuts@[place as int]);
            assert(rest.subrange(1, rest.len() as int) =~= shortcuts@.subrange(place + 1, n as int));
        }
        place += 1;
    }
    proof {
        let rest = shortcuts@.subrange(place as int, n as int);
        if place < n {
            assert(rest[0] == shortcuts@[place as int]);
        }
    }
    shortcuts.insert(place, shortcut);
}

/// The shortcuts to show: those that are not deleted, in the order of their
/// names.
pub fn get_all_shortcuts(store: &RecordStore<FurShortcut>) -> (listed: Vec<FurShortcut>)
    ensures
        is_shortcut_list(store@, listed@),
{
    let n = store.rows.len();
    let mut listed: Vec<FurShortcut> = Vec::new();
    let mut i: usize = 0;
    assert(store.rows@.take(0) =~= Seq::<FurShortcut>::empty());
    assert(listed@.to_multiset() =~= existing(store.rows@.take(0)).to_multiset()) by {
        reveal(Seq::filter);
        assert(existing(store.rows@.take(0)) =~= Seq::<FurShortcut>::empty());
    }
    while i < n
        invariant
            n == store.rows@.len(),
            i <= n,
            is_shortcut_list(store.rows@.take(i as int), listed@),
        decreases n - i,
    {
        proof {
            let next = store.rows@.take(i + 1);
            assert(next.drop_last() =~= store.rows@.take(i as int));
            assert(next.last() == store.rows@[i as int]);
            reveal(Seq::filter);
            vstd::seq_lib::to_multiset_build(
                existing(store.rows@.take(i as int)),
                store.rows@[i as int],
            );
        }
        if !store.rows[i].is_deleted {
            proof {
                lemma_insert_at_name_rank(listed@, store.rows@[i as int]);
            }
            insert_by_name(&mut listed, store.rows[i].duplicate());
        }
        i += 1;
    }
    assert(store.rows@.take(n as int) =~= store.rows@);
    listed
}

/// Brings the list of shortcuts that is shown up to date with the store.
pub fn update_all_shortcuts(shown: &mut Vec<FurShortcut>, store: &RecordStore<FurShortcut>)
    ensures
        is_shortcut_list(store@, final(shown)@),
{
    *shown = get_all_shortcuts(store);
}

} // verus!
