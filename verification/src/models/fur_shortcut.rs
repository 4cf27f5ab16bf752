use vstd::prelude::*;
use crate::helpers::server::encryption::{fingerprint, spec_fingerprint};
use crate::models::fur_task_group::{spec_work_line, work_line};
use crate::models::rate::Rate;
use crate::models::record::SyncedRecord;

verus! {

/// A saved task description that starts a timer with one press.
#[derive(Debug)]
pub struct FurShortcut {
    pub name: String,
    pub tags: String,
    pub project: String,
    pub rate: Rate,
    pub currency: String,
    pub color_hex: String,
    pub uid: String,
    pub is_deleted: bool,
    pub last_updated: i64,
}

impl SyncedRecord for FurShortcut {
    open spec fn spec_uid(&self) -> Seq<char> {
        self.uid@
    }

    open spec fn spec_last_updated(&self) -> int {
        self.last_updated as int
    }

    open spec fn spec_is_deleted(&self) -> bool {
        self.is_deleted
    }

    fn uid(&self) -> (r: &String) {
        &self.uid
    }

    fn last_updated(&self) -> (r: i64) {
        self.last_updated
    }

    fn is_deleted(&self) -> (r: bool) {
        self.is_deleted
    }

    fn duplicate(&self) -> (r: Self) {
        FurShortcut {
            name: self.name.clone(),
            tags: self.tags.clone(),
            project: self.project.clone(),
            rate: self.rate,
            currency: self.currency.clone(),
            color_hex: self.color_hex.clone(),
            uid: self.uid.clone(),
            is_deleted: self.is_deleted,
            last_updated: self.last_updated,
        }
    }

    open spec fn spec_deleted_at(&self, now: i64) -> Self {
        FurShortcut { is_deleted: true, last_updated: now, ..*self }
    }

    proof fn lemma_deleted_at(&self, now: i64) {
    }

    fn mark_deleted(&self, now: i64) -> (r: Self) {
        FurShortcut {
            name: self.name.clone(),
            tags: self.tags.clone(),
            project: self.project.clone(),
            rate: self.rate,
            currency: self.currency.clone(),
            color_hex: self.color_hex.clone(),
            uid: self.uid.clone(),
            is_deleted: true,
            last_updated: now,
        }
    }
}

/// The form in which a shortcut travels: its content as ciphertext, and in the
/// clear only what the server needs to identify and order it.
#[derive(Debug)]
pub struct EncryptedShortcut {
    pub encrypted_data: String,
    pub nonce: String,
    pub uid: String,
    pub last_updated: i64,
}

/// The identifier of a shortcut: the fingerprint of its name, tags, project,
/// rate as written, and currency, one after the other. Two shortcuts that
/// agree in these have the same identifier on every device.
pub open spec fn spec_shortcut_uid(
    name: Seq<char>,
    tags: Seq<char>,
    project: Seq<char>,
    rate_text: Seq<char>,
    currency: Seq<char>,
) -> Seq<char> {
    spec_fingerprint(name + tags + project + rate_text + currency)
}

/// Computes the identifier of a shortcut. `rate_text` is the rate as it is
/// written in decimal.
pub fn generate_shortcut_uid(
    name: &str,
    tags: &str,
    project: &str,
    rate_text: &str,
    currency: &str,
) -> (uid: String)
    ensures
        uid@ == spec_shortcut_uid(name@, tags@, project@, rate_text@, currency@),
{
    let input = String::from_str(name).concat(tags).concat(project).concat(rate_text).concat(
        currency,
    );
    fingerprint(input.as_str())
}

impl FurShortcut {
    /// A new shortcut, not deleted, last changed at `now`; its identifier is
    /// derived from its content.
    pub fn new(
        name: String,
        tags: String,
        project: String,
        rate: Rate,
        rate_text: &str,
        currency: String,
        color_hex: String,
        now: i64,
    ) -> (shortcut: FurShortcut)
        ensures
            shortcut.name == name,
            shortcut.tags == tags,
            shortcut.project == project,
            shortcut.rate == rate,
            shortcut.currency == currency,
            shortcut.color_hex == color_hex,
            shortcut.uid@ == spec_shortcut_uid(name@, tags@, project@, rate_text@, currency@),
            !shortcut.is_deleted,
            shortcut.last_updated == now,
    {
        let uid = generate_shortcut_uid(
            name.as_str(),
            tags.as_str(),
            project.as_str(),
            rate_text,
            currency.as_str(),
        );
        FurShortcut {
            name,
            tags,
            project,
            rate,
            currency,
            color_hex,
            uid,
            is_deleted: false,
            last_updated: now,
        }
    }
}

impl FurShortcut {
    /// The shortcut as a line of text: the name, then the project after
    /// ` @`, the tags after ` #` and the rate after ` $`, each only where
    /// there is one. `rate_text` is the rate as it is written with two
    /// decimals.
    pub fn to_string(&self, rate_text: &str) -> (line: String)
        ensures
            line@ == spec_work_line(self.name@, self.project@, self.tags@, self.rate, rate_text@),
    {
        work_line(
            self.name.as_str(),
            self.project.as_str(),
            self.tags.as_str(),
            &self.rate,
            rate_text,
        )
    }
}

} // verus!
