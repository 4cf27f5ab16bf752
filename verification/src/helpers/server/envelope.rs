use vstd::prelude::*;
use crate::helpers::server::encryption::{
    decrypt, encrypt, encrypt_with_nonce, sealable, spec_decrypt, spec_encrypt, CryptoError,
    NONCE_LEN,
};
use crate::models::fur_shortcut::EncryptedShortcut;
use crate::models::fur_task::EncryptedTask;
use crate::models::fur_todo::EncryptedTodo;
use crate::models::record::SyncedRecord;

verus! {

/// The transport form of a record: ciphertext and nonce as text, and in the
/// clear the identifier and the time of the last change, which the server
/// needs to tell records apart and to order them.
pub trait Envelope: Sized {
    spec fn spec_encrypted_data(&self) -> Seq<char>;

    spec fn spec_nonce(&self) -> Seq<char>;

    spec fn spec_uid(&self) -> Seq<char>;

    spec fn spec_last_updated(&self) -> int;

    /// Puts an envelope together from its four parts.
    fn assemble(encrypted_data: String, nonce: String, uid: String, last_updated: i64) -> (e: Self)
        ensures
            e.spec_encrypted_data() == encrypted_data@,
            e.spec_nonce() == nonce@,
            e.spec_uid() == uid@,
            e.spec_last_updated() == last_updated,
    ;

    fn encrypted_data(&self) -> (r: &String)
        ensures
            r@ == self.spec_encrypted_data(),
    ;

    fn nonce(&self) -> (r: &String)
        ensures
            r@ == self.spec_nonce(),
    ;
}

impl Envelope for EncryptedTask {
    open spec fn spec_encrypted_data(&self) -> Seq<char> {
        self.encrypted_data@
    }

    open spec fn spec_nonce(&self) -> Seq<char> {
        self.nonce@
    }

    open spec fn spec_uid(&self) -> Seq<char> {
        self.uid@
    }

    open spec fn spec_last_updated(&self) -> int {
        self.last_updated as int
    }

    fn assemble(encrypted_data: String, nonce: String, uid: String, last_updated: i64) -> (e: Self) {
        EncryptedTask { encrypted_data, nonce, uid, last_updated }
    }

    fn encrypted_data(&self) -> (r: &String) {
        &self.encrypted_data
    }

    fn nonce(&self) -> (r: &String) {
        &self.nonce
    }
}

impl Envelope for EncryptedShortcut {
    open spec fn spec_encrypted_data(&self) -> Seq<char> {
        self.encrypted_data@
    }

    open spec fn spec_nonce(&self) -> Seq<char> {
        self.nonce@
    }

    open spec fn spec_uid(&self) -> Seq<char> {
        self.uid@
    }

    open spec fn spec_last_updated(&self) -> int {
        self.last_updated as int
    }

    fn assemble(encrypted_data: String, nonce: String, uid: String, last_updated: i64) -> (e: Self) {
        EncryptedShortcut { encrypted_data, nonce, uid, last_updated }
    }

    fn encrypted_data(&self) -> (r: &String) {
        &self.encrypted_data
    }

    fn nonce(&self) -> (r: &String) {
        &self.nonce
    }
}

impl Envelope for EncryptedTodo {
    open spec fn spec_encrypted_data(&self) -> Seq<char> {
        self.encrypted_data@
    }

    open spec fn spec_nonce(&self) -> Seq<char> {
        self.nonce@
    }

    open spec fn spec_uid(&self) -> Seq<char> {
        self.uid@
    }

    open spec fn spec_last_updated(&self) -> int {
        self.last_updated as int
    }

    fn assemble(encrypted_data: String, nonce: String, uid: String, last_updated: i64) -> (e: Self) {
        EncryptedTodo { encrypted_data, nonce, uid, last_updated }
    }

    fn encrypted_data(&self) -> (r: &String) {
        &self.encrypted_data
    }

    fn nonce(&self) -> (r: &String) {
        &self.nonce
    }
}

/// A record together with its canonical byte form, ready to be sealed.
pub struct Prepared<R> {
    pub record: R,
    pub payload: Vec<u8>,
}

/// `envelope` carries `item`: the record's identifier and time of change in
/// the clear, and a ciphertext that opens to the record's bytes under
/// `secret`.
pub open spec fn carries<R: SyncedRecord, E: Envelope>(
    envelope: E,
    item: Prepared<R>,
    secret: Seq<char>,
) -> bool {
    &&& envelope.spec_uid() == item.record.spec_uid()
    &&& envelope.spec_last_updated() == item.record.spec_last_updated()
    &&& spec_decrypt(envelope.spec_encrypted_data(), envelope.spec_nonce(), secret) == Some(
        item.payload@,
    )
}

/// `picked` names, in rising order, positions of a sequence of length `len`.
pub open spec fn rising(picked: Seq<int>, len: int) -> bool {
    &&& forall|k: int| 0 <= k < picked.len() ==> 0 <= #[trigger] picked[k] < len
    &&& forall|k: int, l: int| 0 <= k < l < picked.len() ==> picked[k] < picked[l]
}

/// `batch` holds exactly the items at the positions `picked`, each in its
/// envelope, in the items' order.
pub open spec fn batch_of<R: SyncedRecord, E: Envelope>(
    batch: Seq<E>,
    items: Seq<Prepared<R>>,
    picked: Seq<int>,
    secret: Seq<char>,
) -> bool {
    &&& picked.len() == batch.len()
    &&& rising(picked, items.len() as int)
    &&& forall|k: int| 0 <= k < batch.len() ==> carries(#[trigger] batch[k], items[picked[k]], secret)
}

/// `envelope` is `item` sealed under `secret` with `nonce`: ciphertext and
/// nonce are those that the cipher gives for the record's bytes, and the
/// record's identifier and time of change stand in the clear.
pub open spec fn sealed_with<R: SyncedRecord, E: Envelope>(
    envelope: E,
    item: Prepared<R>,
    secret: Seq<char>,
    nonce: Seq<u8>,
) -> bool {
    &&& (envelope.spec_encrypted_data(), envelope.spec_nonce()) == spec_encrypt(
        item.payload@,
        secret,
        nonce,
    )
    &&& envelope.spec_uid() == item.record.spec_uid()
    &&& envelope.spec_last_updated() == item.record.spec_last_updated()
}

/// `envelope` is `item` sealed under `secret` with some nonce of 96 bits.
pub open spec fn sealed_freshly<R: SyncedRecord, E: Envelope>(
    envelope: E,
    item: Prepared<R>,
    secret: Seq<char>,
) -> bool {
    exists|nonce: Seq<u8>|
        nonce.len() == NONCE_LEN && #[trigger] sealed_with(envelope, item, secret, nonce)
}

/// Seals one record for transport with the given nonce. The record is
/// sealed exactly where the nonce is 96 bits long and the record's bytes are
/// not too long; the envelope is then the record sealed with that nonce, and
/// opens to the record's bytes again.
pub fn seal_record_with_nonce<R: SyncedRecord, E: Envelope>(
    item: &Prepared<R>,
    secret: &str,
    nonce: &Vec<u8>,
) -> (sealed: Option<E>)
    ensures
        sealed is Some <==> nonce@.len() == NONCE_LEN && sealable(item.payload@.len() as int),
        sealed matches Some(envelope) ==> {
            &&& sealed_with(envelope, *item, secret@, nonce@)
            &&& carries(envelope, *item, secret@)
        },
{
    match encrypt_with_nonce(&item.payload, secret, nonce) {
        Ok((encrypted_data, nonce_text)) => Some(
            E::assemble(
                encrypted_data,
                nonce_text,
                item.record.uid().clone(),
                item.record.last_updated(),
            ),
        ),
        Err(_) => None,
    }
}

/// Seals one record for transport with a nonce freshly drawn from the
/// operating system's random source, or returns `None` where it cannot be
/// sealed. Whatever nonce was drawn, the envelope is the record sealed with
/// a nonce of 96 bits: it carries the record's identifier and time of
/// change in the clear and opens to the record's bytes again. A record whose
/// bytes are too long is never sealed.
pub fn seal_record<R: SyncedRecord, E: Envelope>(item: &Prepared<R>, secret: &str) -> (sealed:
    Option<E>)
    ensures
        sealed matches Some(envelope) ==> {
            &&& sealed_freshly(envelope, *item, secret@)
            &&& carries(envelope, *item, secret@)
            &&& sealable(item.payload@.len() as int)
        },
        !sealable(item.payload@.len() as int) ==> sealed is None,
{
    match encrypt(&item.payload, secret) {
        Ok((encrypted_data, nonce_text)) => {
            let ghost drawn = choose|nonce: Seq<u8>|
                nonce.len() == NONCE_LEN && (encrypted_data@, nonce_text@) == #[trigger] spec_encrypt(
                    item.payload@,
                    secret@,
                    nonce,
                );
            let envelope = E::assemble(
                encrypted_data,
                nonce_text,
                item.record.uid().clone(),
                item.record.last_updated(),
            );
            assert(drawn.len() == NONCE_LEN && sealed_with(envelope, *item, secret@, drawn));
            assert(sealed_freshly(envelope, *item, secret@));
            Some(envelope)
        },
        Err(_) => None,
    }
}

/// The envelopes among the outcomes of sealing, in order: an outcome of
/// `None` stands for a record that could not be sealed and is left out.
pub open spec fn kept<E>(outcomes: Seq<Option<E>>) -> Seq<E>
    decreases outcomes.len(),
{
    if outcomes.len() == 0 {
        Seq::empty()
    } else {
        match outcomes.last() {
            Some(envelope) => kept(outcomes.drop_last()).push(envelope),
            None => kept(outcomes.drop_last()),
        }
    }
}

/// `outcomes` are outcomes of sealing `items`, one for one: an envelope is
/// its item sealed under `secret` with some nonce, and an item whose bytes
/// are too long has none.
pub open spec fn sealed_outcomes<R: SyncedRecord, E: Envelope>(
    items: Seq<Prepared<R>>,
    outcomes: Seq<Option<E>>,
    secret: Seq<char>,
) -> bool {
    &&& outcomes.len() == items.len()
    &&& forall|i: int|
        0 <= i < items.len() ==> match #[trigger] outcomes[i] {
            Some(envelope) => {
                &&& sealed_freshly(envelope, items[i], secret)
                &&& carries(envelope, items[i], secret)
                &&& sealable(items[i].payload@.len() as int)
            },
            None => true,
        }
    &&& forall|i: int|
        0 <= i < items.len() && !sealable(items[i].payload@.len() as int) ==> (
        #[trigger] outcomes[i]) is None
}

/// The kept envelopes are no more than the outcomes, and each stands at a
/// position of its own among them, in rising order.
pub proof fn lemma_kept_picks<E>(outcomes: Seq<Option<E>>) -> (picked: Seq<int>)
    ensures
        picked.len() == kept(outcomes).len(),
        kept(outcomes).len() <= outcomes.len(),
        rising(picked, outcomes.len() as int),
        forall|k: int|
            0 <= k < picked.len() ==> outcomes[#[trigger] picked[k]] == Some(kept(outcomes)[k]),
    decreases outcomes.len(),
{
    if outcomes.len() == 0 {
        Seq::empty()
    } else {
        let earlier = lemma_kept_picks(outcomes.drop_last());
        assert forall|k: int| 0 <= k < earlier.len() implies outcomes[#[trigger] earlier[k]]
            == outcomes.drop_last()[earlier[k]] by {}
        match outcomes.last() {
            Some(envelope) => {
                let picked = earlier.push(outcomes.len() - 1);
                assert forall|k: int| 0 <= k < picked.len() implies outcomes[#[trigger] picked[k]]
                    == Some(kept(outcomes)[k]) by {
                    if k < earlier.len() {
                        assert(picked[k] == earlier[k]);
                        assert(kept(outcomes)[k] == kept(outcomes.drop_last())[k]);
                    }
                }
                picked
            },
            None => earlier,
        }
    }
}

/// Seals every record of a batch, each on its own with a nonce of its own,
/// and returns the outcomes one for one.
pub fn seal_each<R: SyncedRecord, E: Envelope>(items: &Vec<Prepared<R>>, secret: &str) -> (outcomes:
    Vec<Option<E>>)
    ensures
        sealed_outcomes(items@, outcomes@, secret@),
{
    let mut outcomes: Vec<Option<E>> = Vec::new();
    let n = items.len();
    let mut i: usize = 0;
    while i < n
        invariant
            n == items@.len(),
            i <= n,
            sealed_outcomes(items@.take(i as int), outcomes@, secret@),
        decreases n - i,
    {
        let outcome = seal_record::<R, E>(&items[i], secret);
        outcomes.push(outcome);
        i += 1;
    }
    assert(items@.take(n as int) =~= items@);
    outcomes
}

/// Builds the batch from the outcomes of sealing: exactly the envelopes, in
/// order. A record that could not be sealed is left out and does not stop
/// the others.
pub fn collect_sealed<E>(outcomes: Vec<Option<E>>) -> (batch: Vec<E>)
    ensures
        batch@ == kept(outcomes@),
{
    let ghost whole = outcomes@;
    let mut rest = outcomes;
    let mut turned: Vec<E> = Vec::new();
    assert(kept(rest@) + turned@.reverse() =~= kept(whole));
    while rest.len() > 0
        invariant
            kept(rest@) + turned@.reverse() == kept(whole),
        decreases rest.len(),
    {
        let ghost r0 = rest@;
        let ghost t0 = turned@;
        let outcome = rest.pop().unwrap();
        proof {
            assert(r0.drop_last() =~= rest@);
            assert(r0.last() == outcome);
        }
        match outcome {
            Some(envelope) => {
                turned.push(envelope);
                assert(turned@.reverse() =~= seq![envelope] + t0.reverse());
                assert(kept(rest@) + turned@.reverse() =~= kept(r0) + t0.reverse());
            },
            None => {},
        }
    }
    let mut batch: Vec<E> = Vec::new();
    assert(kept(rest@) =~= Seq::<E>::empty());
    assert(batch@ + turned@.reverse() =~= kept(whole));
    while turned.len() > 0
        invariant
            batch@ + turned@.reverse() == kept(whole),
        decreases turned.len(),
    {
        let ghost b0 = batch@;
        let ghost t0 = turned@;
        let envelope = turned.pop().unwrap();
        batch.push(envelope);
        assert(batch@ + turned@.reverse() =~= b0 + t0.reverse()) by {
            assert(t0 =~= turned@.push(envelope));
            assert(t0.reverse() =~= seq![envelope] + turned@.reverse());
        }
    }
    assert(turned@.reverse() =~= Seq::<E>::empty());
    assert(batch@ + Seq::<E>::empty() =~= batch@);
    batch
}

/// Seals a batch of records, each on its own. A record that cannot be sealed
/// is left out, and the rest still go: the batch holds exactly the records
/// that were sealed, in the items' order.
pub fn encrypt_batch<R: SyncedRecord, E: Envelope>(items: &Vec<Prepared<R>>, secret: &str) -> (batch:
    Vec<E>)
    ensures
        batch@.len() <= items@.len(),
        exists|outcomes: Seq<Option<E>>|
            #[trigger] sealed_outcomes(items@, outcomes, secret@) && batch@ == kept(outcomes),
        exists|picked: Seq<int>|
            {
                &&& #[trigger] batch_of(batch@, items@, picked, secret@)
                &&& forall|k: int|
                    0 <= k < picked.len() ==> sealable(
                        items@[#[trigger] picked[k]].payload@.len() as int,
                    )
            },
{
    let outcomes = seal_each::<R, E>(items, secret);
    let ghost sealed = outcomes@;
    let batch = collect_sealed(outcomes);
    proof {
        let picked = lemma_kept_picks(sealed);
        assert(sealed_outcomes(items@, sealed, secret@) && batch@ == kept(sealed));
        assert forall|k: int| 0 <= k < batch@.len() implies carries(
            #[trigger] batch@[k],
            items@[picked[k]],
            secret@,
        ) by {
            assert(sealed[picked[k]] == Some(batch@[k]));
        }
        assert(batch_of(batch@, items@, picked, secret@));
        assert forall|k: int| 0 <= k < picked.len() implies sealable(
            items@[#[trigger] picked[k]].payload@.len() as int,
        ) by {
            assert(sealed[picked[k]] == Some(batch@[k]));
        }
    }
    batch
}

/// What an envelope opens to under `secret`.
pub open spec fn opening<E: Envelope>(envelope: E, secret: Seq<char>) -> Option<Seq<u8>> {
    spec_decrypt(envelope.spec_encrypted_data(), envelope.spec_nonce(), secret)
}

/// `opened` holds, position by position, what the envelopes of `batch` open
/// to under `secret`.
pub open spec fn opened_batch<E: Envelope>(
    batch: Seq<E>,
    opened: Seq<Option<Vec<u8>>>,
    secret: Seq<char>,
) -> bool {
    &&& opened.len() == batch.len()
    &&& forall|i: int|
        0 <= i < batch.len() ==> match #[trigger] opened[i] {
            Some(bytes) => opening(batch[i], secret) == Some(bytes@),
            None => opening(batch[i], secret) is None,
        }
}

/// Opens every envelope of a batch, each on its own: for each, the record's
/// bytes, or `None` where it does not decrypt under `secret`.
pub fn decrypt_batch<E: Envelope>(batch: &Vec<E>, secret: &str) -> (opened: Vec<Option<Vec<u8>>>)
    ensures
        opened_batch(batch@, opened@, secret@),
{
    let mut opened: Vec<Option<Vec<u8>>> = Vec::new();
    let n = batch.len();
    let mut i: usize = 0;
    while i < n
        invariant
            n == batch@.len(),
            i <= n,
            opened_batch(batch@.take(i as int), opened@, secret@),
        decreases n - i,
    {
        let entry = match decrypt(batch[i].encrypted_data(), batch[i].nonce(), secret) {
            Ok(bytes) => Some(bytes),
            Err(_) => None,
        };
        opened.push(entry);
        i += 1;
    }
    assert(batch@.take(n as int) =~= batch@);
    opened
}

/// The record that decrypted bytes were read as, or `DeserializationFailed`
/// where they could not be read as a record.
pub fn read_record<R>(parsed: Option<R>) -> (record: Result<R, CryptoError>)
    ensures
        record == match parsed {
            Some(r) => Ok::<R, CryptoError>(r),
            None => Err::<R, CryptoError>(CryptoError::DeserializationFailed),
        },
{
    match parsed {
        Some(r) => Ok(r),
        None => Err(CryptoError::DeserializationFailed),
    }
}

/// The entry of a delta for one record of the server: the record, or `None`
/// where it could not be decrypted or read. A record that fails is passed
/// over and does not stop the others.
pub fn delta_entry<R>(record: Result<R, CryptoError>) -> (entry: Option<R>)
    ensures
        entry == match record {
            Ok(r) => Some(r),
            Err(_) => None::<R>,
        },
{
    match record {
        Ok(r) => Some(r),
        Err(_) => None,
    }
}

} // verus!
