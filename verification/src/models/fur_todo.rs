use vstd::prelude::*;
use crate::helpers::formatters::{append_decimal, decimal};
use crate::helpers::server::encryption::{fingerprint, spec_fingerprint};
use crate::models::moment::Moment;
use crate::models::fur_task_group::{spec_work_line, work_line};
use crate::models::rate::Rate;
use crate::models::record::SyncedRecord;

verus! {

/// Something to do on a given day.
#[derive(Debug)]
pub struct FurTodo {
    pub name: String,
    pub project: String,
    pub tags: String,
    pub rate: Rate,
    pub currency: String,
    pub date: Moment,
    pub uid: String,
    pub is_completed: bool,
    pub is_deleted: bool,
    pub last_updated: i64,
}

impl SyncedRecord for FurTodo {
    open spec fn spec_uid(&self) -> Seq<char> {
        self.uid@
    }

    open spec fn spec_last_updated(&self) -> int {
        self.last_updated as int
    }

    open spec fn spec_is_deleted(&self) -> bool {
        self.is_deleted
    }

    fn uid(&self) -> (r: &String) {
        &self.uid
    }

    fn last_updated(&self) -> (r: i64) {
        self.last_updated
    }

    fn is_deleted(&self) -> (r: bool) {
        self.is_deleted
    }

    fn duplicate(&self) -> (r: Self) {
        FurTodo {
            name: self.name.clone(),
            project: self.project.clone(),
            tags: self.tags.clone(),
            rate: self.rate,
            currency: self.currency.clone(),
            date: self.date,
            uid: self.uid.clone(),
            is_completed: self.is_completed,
            is_deleted: self.is_deleted,
            last_updated: self.last_updated,
        }
    }

    open spec fn spec_deleted_at(&self, now: i64) -> Self {
        FurTodo { is_deleted: true, last_updated: now, ..*self }
    }

    proof fn lemma_deleted_at(&self, now: i64) {
    }

    fn mark_deleted(&self, now: i64) -> (r: Self) {
        FurTodo {
            name: self.name.clone(),
            project: self.project.clone(),
            tags: self.tags.clone(),
            rate: self.rate,
            currency: self.currency.clone(),
            date: self.date,
            uid: self.uid.clone(),
            is_completed: self.is_completed,
            is_deleted: true,
            last_updated: now,
        }
    }
}

/// The form in which a todo travels: its content as ciphertext, and in the
/// clear only what the server needs to identify and order it.
#[derive(Debug)]
pub struct EncryptedTodo {
    pub encrypted_data: String,
    pub nonce: String,
    pub uid: String,
    pub last_updated: i64,
}

/// The identifier of a todo: the fingerprint of its name followed by its
/// date in seconds since the epoch.
pub open spec fn spec_todo_uid(name: Seq<char>, date: Moment) -> Seq<char> {
    spec_fingerprint(name + decimal(date.seconds as int))
}

/// Computes the identifier of a todo.
pub fn generate_todo_uid(name: &str, date: &Moment) -> (uid: String)
    ensures
        uid@ == spec_todo_uid(name@, *date),
{
    let mut input = String::from_str(name);
    append_decimal(&mut input, date.seconds);
    fingerprint(input.as_str())
}

impl FurTodo {
    /// A new todo, open and not deleted, without currency, last changed at
    /// `now`; its identifier is derived from its name and date.
    pub fn new(name: String, project: String, tags: String, rate: Rate, date: Moment, now: i64) -> (todo:
        FurTodo)
        ensures
            todo.name == name,
            todo.project == project,
            todo.tags == tags,
            todo.rate == rate,
            todo.currency@ == Seq::<char>::empty(),
            todo.date == date,
            todo.uid@ == spec_todo_uid(name@, date),
            !todo.is_completed,
            !todo.is_deleted,
            todo.last_updated == now,
    {
        let uid = generate_todo_uid(name.as_str(), &date);
        FurTodo {
            name,
            project,
            tags,
            rate,
            currency: String::new(),
            date,
            uid,
            is_completed: false,
            is_deleted: false,
            last_updated: now,
        }
    }
}

impl FurTodo {
    /// The todo as a line of text: the name, then the project after
    /// ` @`, the tags after ` #` and the rate after ` $`, each only where
    /// there is one. `rate_text` is the rate as it is written with two
    /// decimals.
    pub fn to_string(&self, rate_text: &str) -> (line: String)
        ensures
            line@ == spec_work_line(self.name@, self.project@, self.tags@, self.rate, rate_text@),
    {
        work_line(
            self.name.as_str(),
            self.project.as_str(),
            self.tags.as_str(),
            &self.rate,
            rate_text,
        )
    }
}

} // verus!
