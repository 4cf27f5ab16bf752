use vstd::prelude::*;
use crate::helpers::formatters::{append_decimal, decimal};
use crate::helpers::server::encryption::{fingerprint, spec_fingerprint};
use crate::models::moment::Moment;
use crate::models::rate::Rate;
use crate::models::record::SyncedRecord;

verus! {

/// A stretch of tracked time.
#[derive(Debug)]
pub struct FurTask {
    pub name: String,
    pub start_time: Moment,
    pub stop_time: Moment,
    pub tags: String,
    pub project: String,
    pub rate: Rate,
    pub currency: String,
    pub uid: String,
    pub is_deleted: bool,
    pub last_updated: i64,
}

impl SyncedRecord for FurTask {
    open spec fn spec_uid(&self) -> Seq<char> {
        self.uid@
    }

    open spec fn spec_last_updated(&self) -> int {
        self.last_updated as int
    }

    open spec fn spec_is_deleted(&self) -> bool {
        self.is_deleted
    }

    fn uid(&self) -> (r: &String) {
        &self.uid
    }

    fn last_updated(&self) -> (r: i64) {
        self.last_updated
    }

    fn is_deleted(&self) -> (r: bool) {
        self.is_deleted
    }

    fn duplicate(&self) -> (r: Self) {
        FurTask {
            name: self.name.clone(),
            start_time: self.start_time,
            stop_time: self.stop_time,
            tags: self.tags.clone(),
            project: self.project.clone(),
            rate: self.rate,
            currency: self.currency.clone(),
            uid: self.uid.clone(),
            is_deleted: self.is_deleted,
            last_updated: self.last_updated,
        }
    }

    open spec fn spec_deleted_at(&self, now: i64) -> Self {
        FurTask { is_deleted: true, last_updated: now, ..*self }
    }

    proof fn lemma_deleted_at(&self, now: i64) {
    }

    fn mark_deleted(&self, now: i64) -> (r: Self) {
        FurTask {
            name: self.name.clone(),
            start_time: self.start_time,
            stop_time: self.stop_time,
            tags: self.tags.clone(),
            project: self.project.clone(),
            rate: self.rate,
            currency: self.currency.clone(),
            uid: self.uid.clone(),
            is_deleted: true,
            last_updated: now,
        }
    }
}

/// The form in which a task travels: its content as ciphertext, and in the
/// clear only what the server needs to identify and order it.
#[derive(Debug)]
pub struct EncryptedTask {
    pub encrypted_data: String,
    pub nonce: String,
    pub uid: String,
    pub last_updated: i64,
}

/// The identifier of a task: the fingerprint of its name followed by its
/// start and its stop, each in seconds since the epoch.
pub open spec fn spec_task_uid(name: Seq<char>, start_time: Moment, stop_time: Moment) -> Seq<char> {
    spec_fingerprint(name + decimal(start_time.seconds as int) + decimal(stop_time.seconds as int))
}

/// Computes the identifier of a task.
pub fn generate_task_uid(name: &str, start_time: &Moment, stop_time: &Moment) -> (uid: String)
    ensures
        uid@ == spec_task_uid(name@, *start_time, *stop_time),
{
    let mut input = String::from_str(name);
    append_decimal(&mut input, start_time.seconds);
    append_decimal(&mut input, stop_time.seconds);
    fingerprint(input.as_str())
}

impl FurTask {
    /// A new task, not deleted, last changed at `now`; its identifier is
    /// derived from its name and its times.
    pub fn new(
        name: String,
        start_time: Moment,
        stop_time: Moment,
        tags: String,
        project: String,
        rate: Rate,
        currency: String,
        now: i64,
    ) -> (task: FurTask)
        ensures
            task.name == name,
            task.start_time == start_time,
            task.stop_time == stop_time,
            task.tags == tags,
            task.project == project,
            task.rate == rate,
            task.currency == currency,
            task.uid@ == spec_task_uid(name@, start_time, stop_time),
            !task.is_deleted,
            task.last_updated == now,
    {
        let uid = generate_task_uid(name.as_str(), &start_time, &stop_time);
        FurTask {
            name,
            start_time,
            stop_time,
            tags,
            project,
            rate,
            currency,
            uid,
            is_deleted: false,
            last_updated: now,
        }
    }
}

impl FurTask {
    /// The seconds that the task lasted, rounded toward zero and held to
    /// the range of an `i64`.
    pub fn total_time_in_seconds(&self) -> (seconds: i64)
        ensures
            seconds == self.stop_time.spec_span(self.start_time),
    {
        self.stop_time.span(&self.start_time)
    }
}

} // verus!
