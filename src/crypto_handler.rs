use aes_gcm::aead::{Aead, OsRng};
use aes_gcm::{AeadCore, Aes256Gcm, Key, KeyInit, Nonce};
use vstd::prelude::*;

verus! {

/// The largest plaintext, in bytes, that AES-256-GCM seals.
pub const P_MAX: u64 = 68719476736;

/// The length of the nonce that leads every encrypted file.
pub const NONCE_LEN: usize = 12;

/// What AES-256-GCM makes of `plaintext` under `key` and `nonce`, with no
/// associated data: the ciphertext followed by its 16-byte tag.
pub uninterp spec fn gcm_seal(key: Seq<u8>, nonce: Seq<u8>, plaintext: Seq<u8>) -> Seq<u8>;

/// Relies on `aes_gcm::Aes256Gcm` through `aead::Aead::encrypt`, which fails only
/// on a plaintext longer than `aes_gcm::P_MAX`, and otherwise returns the
/// ciphertext with the tag appended.
#[verifier::external_body]
fn gcm_encrypt(key: &[u8; 32], nonce: &[u8], plaintext: &[u8]) -> (r: Option<Vec<u8>>)
    requires
        nonce@.len() == NONCE_LEN,
    ensures
        r is Some <==> plaintext@.len() <= P_MAX,
        r matches Some(c) ==> c@ == gcm_seal(key@, nonce@, plaintext@),
        r matches Some(c) ==> c@.len() == plaintext@.len() + 16,
{
    let cipher = Aes256Gcm::new(Key::<Aes256Gcm>::from_slice(key));
    cipher.encrypt(Nonce::from_slice(nonce), plaintext).ok()
}

/// Relies on `aes_gcm::Aes256Gcm` through `aead::Aead::decrypt`: it returns a
/// plaintext only where the tag authenticates the ciphertext, and then the
/// plaintext whose sealing that ciphertext is; a sealed plaintext always opens.
#[verifier::external_body]
fn gcm_decrypt(key: &[u8; 32], nonce: &[u8], ciphertext: &[u8]) -> (r: Option<Vec<u8>>)
    requires
        nonce@.len() == NONCE_LEN,
    ensures
        r matches Some(p) ==> (p@.len() <= P_MAX ==> gcm_seal(key@, nonce@, p@)
            == ciphertext@),
        forall|p: Seq<u8>|
            p.len() <= P_MAX && #[trigger] gcm_seal(key@, nonce@, p) == ciphertext@ ==> r is Some
                && r.unwrap()@ == p,
{
    let cipher = Aes256Gcm::new(Key::<Aes256Gcm>::from_slice(key));
    cipher.decrypt(Nonce::from_slice(nonce), ciphertext).ok()
}

/// Relies on `aead::AeadCore::generate_nonce` with the operating system's random
/// source: twelve random bytes.
#[verifier::external_body]
fn fresh_nonce() -> (r: Vec<u8>)
    ensures
        r@.len() == NONCE_LEN,
{
    Aes256Gcm::generate_nonce(&mut OsRng).to_vec()
}

/// Why sealing or opening a file's bytes failed.
#[derive(Clone, Copy, Debug, PartialEq, Eq, Structural)]
pub enum CryptoError {
    /// The plaintext is longer than the cipher can seal.
    TooLong,
    /// The data is too short to hold a nonce.
    Malformed,
    /// The tag does not authenticate the data: decryption failed.
    Authentication,
}

/// The bytes of an encrypted file: the nonce, then the sealed plaintext.
pub open spec fn sealed_file(key: Seq<u8>, nonce: Seq<u8>, plaintext: Seq<u8>) -> Seq<u8> {
    nonce + gcm_seal(key, nonce, plaintext)
}

/// Seals and opens file contents under a 256-bit key that the caller supplies.
pub struct AesEncryptor {
    key: [u8; 32],
}

/// The bytes of `v` from `from` up to `to`.
fn slice_bytes(v: &Vec<u8>, from: usize, to: usize) -> (r: Vec<u8>)
    requires
        from <= to <= v@.len(),
    ensures
        r@ == v@.subrange(from as int, to as int),
{
    let mut r: Vec<u8> = Vec::new();
    let mut i: usize = from;
    while i < to
        invariant
            from <= i <= to <= v@.len(),
            r@ == v@.subrange(from as int, i as int),
        decreases to - i,
    {
        r.push(v[i]);
        i += 1;
        assert(r@ =~= v@.subrange(from as int, i as int));
    }
    r
}

impl AesEncryptor {
    /// The key this encryptor seals and opens with.
    pub closed spec fn key_bytes(&self) -> Seq<u8> {
        self.key@
    }

    pub fn new(key: [u8; 32]) -> (r: Self)
        ensures
            r.key_bytes() == key@,
    {
        AesEncryptor { key }
    }

    /// The bytes of an encrypted file for `plaintext` under a given nonce.
    pub fn seal_with_nonce(&self, nonce: &Vec<u8>, plaintext: &Vec<u8>) -> (r: Result<
        Vec<u8>,
        CryptoError,
    >)
        requires
            nonce@.len() == NONCE_LEN,
        ensures
            r is Ok <==> plaintext@.len() <= P_MAX,
            r matches Ok(b) ==> b@ == sealed_file(self.key_bytes(), nonce@, plaintext@),
            r matches Err(e) ==> e == CryptoError::TooLong,
    {
        match gcm_encrypt(&self.key, nonce.as_slice(), plaintext.as_slice()) {
            Some(c) => {
                let mut out = slice_bytes(nonce, 0, nonce.len());
                let mut c = c;
                out.append(&mut c);
                assert(out@ =~= sealed_file(self.key_bytes(), nonce@, plaintext@));
                Ok(out)
            },
            None => Err(CryptoError::TooLong),
        }
    }

    /// The bytes of an encrypted file for `plaintext`, under a fresh random nonce.
    pub fn encrypt_data(&self, plaintext: &Vec<u8>) -> (r: Result<Vec<u8>, CryptoError>)
        ensures
            r is Ok <==> plaintext@.len() <= P_MAX,
            r matches Ok(b) ==> b@.len() >= NONCE_LEN && b@ == sealed_file(
                self.key_bytes(),
                b@.subrange(0, NONCE_LEN as int),
                plaintext@,
            ),
            r matches Err(e) ==> e == CryptoError::TooLong,
    {
        let nonce = fresh_nonce();
        let r = self.seal_with_nonce(&nonce, plaintext);
        if let Ok(b) = &r {
            assert(b@.subrange(0, NONCE_LEN as int) =~= nonce@);
        }
        r
    }

    /// The plaintext of an encrypted file: its first twelve bytes are the nonce,
    /// the rest the sealed plaintext. Whatever `seal_with_nonce` or `encrypt_data`
    /// produced under this key opens to the plaintext it was made from.
    pub fn decrypt_data(&self, blob: &Vec<u8>) -> (r: Result<Vec<u8>, CryptoError>)
        ensures
            blob@.len() < NONCE_LEN ==> r == Err::<Vec<u8>, CryptoError>(CryptoError::Malformed),
            forall|nonce: Seq<u8>, p: Seq<u8>|
                nonce.len() == NONCE_LEN && p.len() <= P_MAX && blob@ == #[trigger] sealed_file(
                    self.key_bytes(),
                    nonce,
                    p,
                ) ==> (r matches Ok(q) && q@ == p),
            r matches Ok(q) ==> (q@.len() <= P_MAX ==> blob@ == sealed_file(
                self.key_bytes(),
                blob@.subrange(0, NONCE_LEN as int),
                q@,
            )),
            r matches Err(e) ==> (e == CryptoError::Malformed <==> blob@.len() < NONCE_LEN),
            r matches Err(e) ==> e != CryptoError::TooLong,
    {
        if blob.len() < NONCE_LEN {
            return Err(CryptoError::Malformed);
        }
        let nonce = slice_bytes(blob, 0, NONCE_LEN);
        let body = slice_bytes(blob, NONCE_LEN, blob.len());
        assert(blob@ =~= nonce@ + body@);
        let r = gcm_decrypt(&self.key, nonce.as_slice(), body.as_slice());
        assert forall|n: Seq<u8>, p: Seq<u8>|
            n.len() == NONCE_LEN && p.len() <= P_MAX && blob@ == #[trigger] sealed_file(
                self.key_bytes(),
                n,
                p,
            ) implies (r matches Some(q) && q@ == p) by {
            assert(n =~= blob@.subrange(0, NONCE_LEN as int));
            assert(gcm_seal(self.key_bytes(), n, p) =~= body@);
        }
        match r {
            Some(q) => Ok(q),
            None => Err(CryptoError::Authentication),
        }
    }
}

} // verus!
