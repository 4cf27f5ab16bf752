use vstd::prelude::*;

verus! {

/// What every synchronised entity has in common: an identifier that is stable
/// across devices, the time of its last mutation, and a soft-delete flag.
///
/// The spec functions are the mathematical model that the store and the
/// reconciliation contracts speak of; the executable accessors return exactly
/// those values.
pub trait SyncedRecord: Sized {
    /// The record's identifier, as a sequence of characters.
    spec fn spec_uid(&self) -> Seq<char>;

    /// Seconds since the epoch at which the record was last changed.
    spec fn spec_last_updated(&self) -> int;

    /// Whether the record is soft-deleted.
    spec fn spec_is_deleted(&self) -> bool;

    fn uid(&self) -> (r: &String)
        ensures
            r@ == self.spec_uid(),
    ;

    fn last_updated(&self) -> (r: i64)
        ensures
            r == self.spec_last_updated(),
    ;

    fn is_deleted(&self) -> (r: bool)
        ensures
            r == self.spec_is_deleted(),
    ;

    /// The record as it is once it has been soft-deleted at `now`: flagged,
    /// with `now` as the time of its last change, and otherwise unchanged.
    spec fn spec_deleted_at(&self, now: i64) -> Self;

    /// Soft-deletion keeps the identifier, sets the flag and stamps the time.
    proof fn lemma_deleted_at(&self, now: i64)
        ensures
            self.spec_deleted_at(now).spec_uid() == self.spec_uid(),
            self.spec_deleted_at(now).spec_is_deleted(),
            self.spec_deleted_at(now).spec_last_updated() == now,
    ;

    /// Soft-deletes a copy of the record.
    fn mark_deleted(&self, now: i64) -> (r: Self)
        ensures
            r == self.spec_deleted_at(now),
    ;

    /// An independent copy that is equal to the record in every field.
    fn duplicate(&self) -> (r: Self)
        ensures
            r == *self,
    ;
}

} // verus!
