//! The secret that the backend encrypts its data with.
//!
//! The secret lives in the platform's credential store under a service and
//! an account. It is made on first use, from random bytes, and is handed
//! out unchanged from then on.

use vstd::prelude::*;

verus! {

/// The number of random bytes that a new secret is made from.
pub const KEY_BYTES: usize = 24;

/// `keyring::Entry`: the handle of one entry of the platform's credential
/// store. Nothing of its inside is used.
#[verifier::external_type_specification]
#[verifier::external_body]
pub struct ExEntry(keyring::Entry);

/// `keyring::Error`: what the credential store reports when a call fails.
/// Nothing of its inside is used.
#[verifier::external_type_specification]
#[verifier::external_body]
pub struct ExStoreError(keyring::Error);

/// The text that `base64::encode` gives for `bytes`.
pub uninterp spec fn base64_text(bytes: Seq<u8>) -> Seq<char>;

/// Where a secret came from.
#[derive(Clone, Copy, Debug, PartialEq, Eq, Structural)]
pub enum SecretOrigin {
    /// It was found in the credential store.
    Retrieved,
    /// It was made now. `persisted` says whether the store took it: where
    /// it did not, the secret serves this run only.
    Generated { persisted: bool },
}

/// A secret and where it came from.
#[derive(Clone, Debug, PartialEq, Eq)]
pub struct Secret {
    pub value: String,
    pub origin: SecretOrigin,
}

/// A secret as mathematical data.
pub struct SecretView {
    pub value: Seq<char>,
    pub origin: SecretOrigin,
}

impl View for Secret {
    type V = SecretView;

    open spec fn view(&self) -> SecretView {
        SecretView { value: self.value@, origin: self.origin }
    }
}

/// Why no secret could be had.
#[derive(Clone, Copy, Debug, PartialEq, Eq, Structural)]
pub enum SecretStoreError {
    /// The credential store gave no entry for the service and account.
    EntryUnavailable,
}

/// The secret that is handed out where the store holds `value`.
pub open spec fn retrieved(value: Seq<char>) -> SecretView {
    SecretView { value, origin: SecretOrigin::Retrieved }
}

/// The secret that is handed out where the store holds none and the key
/// `fresh` was made.
pub open spec fn generated(fresh: Seq<char>, persisted: bool) -> SecretView {
    SecretView { value: fresh, origin: SecretOrigin::Generated { persisted } }
}

/// The secret that a call hands out. `stored` is what the store holds for
/// the entry, `fresh` the key that would be made, `persisted` whether the
/// store would take it. What is stored is handed out as it is.
pub open spec fn secret_for(stored: Option<Seq<char>>, fresh: Seq<char>, persisted: bool) -> SecretView {
    match stored {
        Some(value) => retrieved(value),
        None => generated(fresh, persisted),
    }
}

/// What the store holds for the entry after that call.
pub open spec fn store_after(stored: Option<Seq<char>>, fresh: Seq<char>, persisted: bool) -> Option<
    Seq<char>,
> {
    match stored {
        Some(value) => Some(value),
        None => if persisted {
            Some(fresh)
        } else {
            None
        },
    }
}

/// What the store holds after a run of calls, the `i`-th of which would
/// make the key `fresh[i]` and finds the store willing if `persisted[i]`.
pub open spec fn store_after_calls(
    stored: Option<Seq<char>>,
    fresh: Seq<Seq<char>>,
    persisted: Seq<bool>,
) -> Option<Seq<char>>
    decreases fresh.len(),
{
    if fresh.len() == 0 {
        stored
    } else {
        store_after(
            store_after_calls(stored, fresh.drop_last(), persisted.drop_last()),
            fresh.last(),
            persisted.last(),
        )
    }
}

/// The secret that the `i`-th call of such a run hands out.
pub open spec fn secret_of_call(
    stored: Option<Seq<char>>,
    fresh: Seq<Seq<char>>,
    persisted: Seq<bool>,
    i: int,
) -> SecretView {
    secret_for(store_after_calls(stored, fresh.take(i), persisted.take(i)), fresh[i], persisted[i])
}

/// Whether `secret` can come out of a call: it was retrieved, or it was
/// made by encoding `KEY_BYTES` bytes.
pub open spec fn is_call_outcome(secret: SecretView) -> bool {
    exists|stored: Option<Seq<char>>, bytes: Seq<u8>, persisted: bool|
        bytes.len() == KEY_BYTES && secret == #[trigger] secret_for(
            stored,
            base64_text(bytes),
            persisted,
        )
}

/// Once the store holds a secret, every call hands out that secret and
/// leaves the store as it is.
pub proof fn lemma_stored_secret_is_kept(value: Seq<char>, fresh: Seq<char>, persisted: bool)
    ensures
        secret_for(Some(value), fresh, persisted).value == value,
        secret_for(Some(value), fresh, persisted).origin == SecretOrigin::Retrieved,
        store_after(Some(value), fresh, persisted) == Some(value),
{
}

/// Calls one after another hand out the same secret.
///
/// The store is touched by these calls only. Either it holds a secret at
/// the start, or it takes the one that the first call makes. Then every
/// later call hands out what the first call handed out, as retrieved, and
/// the store holds that secret after every call.
pub proof fn lemma_ensure_secret_idempotent(
    stored: Option<Seq<char>>,
    fresh: Seq<Seq<char>>,
    persisted: Seq<bool>,
    i: int,
)
    requires
        fresh.len() == persisted.len(),
        1 <= i < fresh.len(),
        stored is Some || persisted[0],
    ensures
        secret_of_call(stored, fresh, persisted, i).value == secret_of_call(
            stored,
            fresh,
            persisted,
            0,
        ).value,
        secret_of_call(stored, fresh, persisted, i).origin == SecretOrigin::Retrieved,
        store_after_calls(stored, fresh.take(i), persisted.take(i)) == Some(
            secret_of_call(stored, fresh, persisted, 0).value,
        ),
    decreases i,
{
    assert(fresh.take(i).drop_last() =~= fresh.take(i - 1));
    assert(persisted.take(i).drop_last() =~= persisted.take(i - 1));
    if i > 1 {
        lemma_ensure_secret_idempotent(stored, fresh, persisted, i - 1);
    }
}

/// Calls `keyring::Entry::new`, which asks the platform's credential store
/// for the entry of a service and an account. Whether it succeeds depends
/// on the platform, so nothing is claimed of the result.
#[verifier::external_body]
fn open_entry(service_id: &str, account_id: &str) -> (r: Result<keyring::Entry, keyring::Error>) {
    keyring::Entry::new(service_id, account_id)
}

/// Calls `keyring::Entry::get_password`, which reads the entry's password
/// from the credential store. What it finds depends on the store, so
/// nothing is claimed of the result.
#[verifier::external_body]
fn read_password(entry: &keyring::Entry) -> (r: Result<String, keyring::Error>) {
    entry.get_password()
}

/// Calls `keyring::Entry::set_password`, which writes the entry's password
/// to the credential store. Whether the store takes it depends on the
/// store, so nothing is claimed of the result.
#[verifier::external_body]
fn write_password(entry: &keyring::Entry, password: &str) -> (r: Result<(), keyring::Error>) {
    entry.set_password(password)
}

/// Calls `rand::random` for an array of `KEY_BYTES` bytes. The bytes are
/// random, so nothing is claimed of them.
#[verifier::external_body]
fn random_key_bytes() -> (bytes: [u8; 24]) {
    rand::random::<[u8; 24]>()
}

/// Calls `base64::encode`, which writes the bytes in the standard base64
/// alphabet with padding. The text is a function of the bytes alone; the
/// contract gives it its name.
#[verifier::external_body]
#[allow(deprecated)]
fn base64_encode(bytes: &[u8; 24]) -> (text: String)
    ensures
        text@ == base64_text(bytes@),
{
    base64::encode(bytes)
}

/// The secret that a lookup in the store gives: what was found, as it is,
/// or none where the lookup found nothing or failed.
pub fn retrieved_secret(found: Option<String>) -> (secret: Option<Secret>)
    ensures
        match found {
            Some(value) => secret matches Some(s) && s@ == retrieved(value@),
            None => secret is None,
        },
{
    match found {
        Some(value) => Some(Secret { value, origin: SecretOrigin::Retrieved }),
        None => None,
    }
}

/// The secret that is made from `key` where the store held none.
/// `persisted` says whether the store took it.
pub fn generated_secret(key: String, persisted: bool) -> (secret: Secret)
    ensures
        secret@ == generated(key@, persisted),
{
    Secret { value: key, origin: SecretOrigin::Generated { persisted } }
}

/// The key that is made from `bytes`.
pub fn key_from_bytes(bytes: &[u8; 24]) -> (key: String)
    ensures
        key@ == base64_text(bytes@),
{
    base64_encode(bytes)
}

/// Hands out the secret of `service_id` and `account_id`.
///
/// A secret that the credential store holds is handed out as it is. Where
/// the store holds none, or cannot be read, a new one is made from
/// `KEY_BYTES` random bytes, offered to the store, and handed out whether
/// or not the store took it. The call fails only where the store gives no
/// entry at all.
pub fn ensure_secret(service_id: &str, account_id: &str) -> (r: Result<Secret, SecretStoreError>)
    ensures
        r matches Ok(secret) ==> is_call_outcome(secret@),
        r matches Err(e) ==> e == SecretStoreError::EntryUnavailable,
{
    secret_for_entry(open_entry(service_id, account_id))
}

/// The secret for what the store answered when it was asked for the entry.
/// With an entry a secret is always handed out: the one that the store
/// holds under it, or a new one. Without an entry there is none, and the
/// error says so.
pub fn secret_for_entry(opened: Result<keyring::Entry, keyring::Error>) -> (r: Result<
    Secret,
    SecretStoreError,
>)
    ensures
        r is Ok <==> opened is Ok,
        r matches Ok(secret) ==> is_call_outcome(secret@),
        r matches Err(e) ==> e == SecretStoreError::EntryUnavailable,
{
    match opened {
        Ok(entry) => {
            let lookup = read_password(&entry);
            Ok(secret_after_lookup(&entry, lookup))
        },
        Err(_) => Err(SecretStoreError::EntryUnavailable),
    }
}

/// The secret that is made from `key` after it was offered to the store.
/// It counts as persisted exactly where the store took it; where the store
/// refused, the secret is handed out all the same.
pub fn secret_after_offer(key: String, offer: Result<(), keyring::Error>) -> (secret: Secret)
    ensures
        secret@ == generated(key@, offer is Ok),
{
    match offer {
        Ok(_) => generated_secret(key, true),
        Err(_) => generated_secret(key, false),
    }
}

/// The service under which the backend's encryption key is stored.
pub fn key_service_id() -> (id: &'static str)
    ensures
        id@ == "io.n8n.desktop"@,
{
    "io.n8n.desktop"
}

/// The account under which the backend's encryption key is stored.
pub fn key_account_id() -> (id: &'static str)
    ensures
        id@ == "encryption_key"@,
{
    "encryption_key"
}

/// Hands out the backend's encryption key: the secret of the fixed service
/// and account.
pub fn ensure_encryption_key() -> (r: Result<Secret, SecretStoreError>)
    ensures
        r matches Ok(secret) ==> is_call_outcome(secret@),
        r matches Err(e) ==> e == SecretStoreError::EntryUnavailable,
{
    ensure_secret(key_service_id(), key_account_id())
}

/// The secret for what the store answered when `entry` was read.
///
/// A password that was read is the secret, as it is. Where the read
/// failed, for want of a password or for any other reason, a key is made
/// from `KEY_BYTES` random bytes and offered to the store under `entry`.
pub fn secret_after_lookup(entry: &keyring::Entry, lookup: Result<String, keyring::Error>) -> (secret:
    Secret)
    ensures
        match lookup {
            Ok(value) => secret@ == retrieved(value@),
            Err(_) => exists|bytes: Seq<u8>, persisted: bool|
                bytes.len() == KEY_BYTES && secret@ == #[trigger] generated(
                    base64_text(bytes),
                    persisted,
                ),
        },
        is_call_outcome(secret@),
{
    match lookup {
        Ok(value) => {
            let secret = Secret { value, origin: SecretOrigin::Retrieved };
            proof {
                let bytes = Seq::new(KEY_BYTES as nat, |i: int| 0u8);
                assert(secret@ == secret_for(Some(secret@.value), base64_text(bytes), false));
            }
            secret
        },
        Err(_) => {
            let bytes = random_key_bytes();
            let key = key_from_bytes(&bytes);
            let offer = write_password(entry, key.as_str());
            let secret = secret_after_offer(key, offer);
            proof {
                assert(secret@ == generated(base64_text(bytes@), offer is Ok));
                assert(secret@ == secret_for(None, base64_text(bytes@), offer is Ok));
            }
            secret
        },
    }
}

} // verus!
