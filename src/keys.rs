use vstd::prelude::*;
use solana_sdk::signature::Keypair;
use solana_zk_sdk::encryption::auth_encryption::{AeCiphertext, AeKey};
use solana_zk_sdk::encryption::elgamal::ElGamalKeypair;

verus! {

/// The ElGamal keypair (public key, then secret key) that the signer with
/// this secret derives for this public seed; `None` where the derivation
/// refuses the signature it gets.
pub uninterp spec fn elgamal_keypair_of(signer_secret: Seq<u8>, public_seed: Seq<u8>) -> Option<Seq<u8>>;

/// The authenticated-encryption key that the signer with this secret derives
/// for this public seed; `None` where the derivation refuses the signature
/// it gets.
pub uninterp spec fn ae_key_of(signer_secret: Seq<u8>, public_seed: Seq<u8>) -> Option<Seq<u8>>;

/// The amount that this authenticated-encryption key finds in these
/// ciphertext bytes; `None` where they do not authenticate under the key.
pub uninterp spec fn ae_decrypt_of(ae_key: Seq<u8>, ciphertext: Seq<u8>) -> Option<u64>;

/// Relies on solana_zk_sdk's `AeCiphertext::from_bytes` and `AeKey::decrypt`:
/// the bytes are read as nonce and ciphertext, and AES-GCM-SIV decryption
/// depends on the key and those bytes alone.
#[verifier::external_body]
fn ae_decrypt(ae_key: [u8; 16], ciphertext: &[u8; 36]) -> (r: Option<u64>)
    ensures
        r == ae_decrypt_of(ae_key@, ciphertext@),
{
    let key = AeKey::from(ae_key);
    AeCiphertext::from_bytes(ciphertext).and_then(|c| key.decrypt(&c))
}

/// Relies on solana_zk_sdk's `ElGamalKeypair::new_from_signer`: the signer
/// signs a fixed message bound to the public seed and the keypair is hashed
/// from that signature, so it depends on the signer's secret and the seed
/// alone (an ed25519 signature is deterministic), and so does whether it is
/// refused. The bytes are the keypair's documented encoding.
#[verifier::external_body]
fn elgamal_from_signer(signer_secret: [u8; 32], public_seed: &[u8; 32]) -> (r: Option<[u8; 64]>)
    ensures
        r is Some <==> elgamal_keypair_of(signer_secret@, public_seed@) is Some,
        r is Some ==> r->Some_0@ == elgamal_keypair_of(signer_secret@, public_seed@)->Some_0,
{
    let signer = Keypair::new_from_array(signer_secret);
    match ElGamalKeypair::new_from_signer(&signer, public_seed) {
        Ok(k) => Some((&k).into()),
        Err(_) => None,
    }
}

/// Relies on solana_zk_sdk's `AeKey::new_from_signer`: derived like the
/// ElGamal keypair, from the signer's signature over a fixed message bound to
/// the public seed; whether it is refused depends on the same inputs.
#[verifier::external_body]
fn ae_from_signer(signer_secret: [u8; 32], public_seed: &[u8; 32]) -> (r: Option<[u8; 16]>)
    ensures
        r is Some <==> ae_key_of(signer_secret@, public_seed@) is Some,
        r is Some ==> r->Some_0@ == ae_key_of(signer_secret@, public_seed@)->Some_0,
{
    let signer = Keypair::new_from_array(signer_secret);
    match AeKey::new_from_signer(&signer, public_seed) {
        Ok(k) => Some(k.into()),
        Err(_) => None,
    }
}

/// Why the per-account key material could not be derived.
#[derive(Debug, Clone, Copy, PartialEq, Eq, Structural)]
pub enum KeyDerivationError {
    /// The signer's signature over the derivation message was refused.
    SignerRefused,
}

/// The key material of one confidential account: never stored, always
/// derived again from the owner and the account address.
#[derive(Debug, Clone, Copy)]
pub struct DerivedKeys {
    /// ElGamal public key followed by its secret key.
    pub elgamal_keypair: [u8; 64],
    /// Key that encrypts the decryptable available balance.
    pub ae_key: [u8; 16],
}

impl DerivedKeys {
    /// This is the material that the owner with `signer_secret` derives for
    /// the account at `account_address`.
    pub open spec fn derived_from(&self, signer_secret: Seq<u8>, account_address: Seq<u8>) -> bool {
        &&& elgamal_keypair_of(signer_secret, account_address) == Some(self.elgamal_keypair@)
        &&& ae_key_of(signer_secret, account_address) == Some(self.ae_key@)
    }
}

/// Derives the encryption keypair and the balance-authentication key of the
/// account at `account_address` from its owner's signer, with the account
/// address as the public seed. Fails, without retrying, exactly where either
/// derivation refuses the signature.
pub fn derive_keys(signer_secret: [u8; 32], account_address: &[u8; 32]) -> (r: Result<DerivedKeys, KeyDerivationError>)
    ensures
        r is Ok <==> (elgamal_keypair_of(signer_secret@, account_address@) is Some && ae_key_of(
            signer_secret@,
            account_address@,
        ) is Some),
        r is Ok ==> r->Ok_0.derived_from(signer_secret@, account_address@),
        r is Err ==> r == Err::<DerivedKeys, KeyDerivationError>(KeyDerivationError::SignerRefused),
{
    let elgamal_keypair = match elgamal_from_signer(signer_secret, account_address) {
        Some(k) => k,
        None => return Err(KeyDerivationError::SignerRefused),
    };
    let ae_key = match ae_from_signer(signer_secret, account_address) {
        Some(k) => k,
        None => return Err(KeyDerivationError::SignerRefused),
    };
    Ok(DerivedKeys { elgamal_keypair, ae_key })
}

/// Decrypts the account's decryptable available balance with the derived
/// authentication key; `None` where the ciphertext does not authenticate
/// (it was written under other keys, or is corrupt).
pub fn decrypt_available(keys: &DerivedKeys, ciphertext: &[u8; 36]) -> (r: Option<u64>)
    ensures
        r == ae_decrypt_of(keys.ae_key@, ciphertext@),
{
    ae_decrypt(keys.ae_key, ciphertext)
}

/// Key derivation is deterministic: two derivations for the same owner and
/// the same account address yield identical key material.
pub proof fn derive_keys_deterministic(
    signer_secret: Seq<u8>,
    account_address: Seq<u8>,
    first: DerivedKeys,
    second: DerivedKeys,
)
    requires
        first.derived_from(signer_secret, account_address),
        second.derived_from(signer_secret, account_address),
    ensures
        first.elgamal_keypair@ == second.elgamal_keypair@,
        first.ae_key@ == second.ae_key@,
{
}

} // verus!
