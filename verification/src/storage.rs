use vstd::prelude::*;

use aes::cipher::block_padding::Pkcs7;
use aes::cipher::{BlockDecryptMut, BlockEncryptMut, KeyIvInit};
use rand::Rng;

use crate::cfg::StorageCfg;

verus! {

/// What AES-128-CBC with PKCS#7 padding makes of `data` under a 16-byte key
/// and iv: a function of its arguments alone, named here rather than spelled
/// out.
pub uninterp spec fn aes_cbc_enc(key: Seq<u8>, iv: Seq<u8>, data: Seq<u8>) -> Seq<u8>;

/// The inverse direction: `None` names the ciphertexts that AES-128-CBC with
/// PKCS#7 padding rejects (not a whole number of blocks, or malformed
/// padding), `Some` the recovered plaintext.
pub uninterp spec fn aes_cbc_dec(key: Seq<u8>, iv: Seq<u8>, data: Seq<u8>) -> Option<Seq<u8>>;

/// Relies on `cbc::Encryptor<aes::Aes128>`: `new_from_slices` rejects exactly
/// a key or iv that is not 16 bytes long, and `encrypt_padded_vec_mut`
/// PKCS#7-pads and encrypts, a function of key, iv and data alone.
#[verifier::external_body]
fn aes_encrypt_raw(key: &[u8], iv: &[u8], data: &[u8]) -> (r: Option<Vec<u8>>)
    ensures
        (match r {
            Some(v) => key@.len() == 16 && iv@.len() == 16 && v@ == aes_cbc_enc(key@, iv@, data@),
            None => !(key@.len() == 16 && iv@.len() == 16),
        }),
{
    let enc = cbc::Encryptor::<aes::Aes128>::new_from_slices(key, iv).ok()?;
    Some(enc.encrypt_padded_vec_mut::<Pkcs7>(data))
}

/// Relies on `cbc::Decryptor<aes::Aes128>`: `new_from_slices` rejects exactly
/// a key or iv that is not 16 bytes long, and `decrypt_padded_vec_mut`
/// decrypts and unpads, rejecting malformed input — a function of key, iv and
/// data alone.
#[verifier::external_body]
fn aes_decrypt_raw(key: &[u8], iv: &[u8], data: &[u8]) -> (r: Option<Vec<u8>>)
    ensures
        key@.len() == 16 && iv@.len() == 16 ==> (match r {
            Some(v) => aes_cbc_dec(key@, iv@, data@) == Some(v@),
            None => aes_cbc_dec(key@, iv@, data@) is None,
        }),
        !(key@.len() == 16 && iv@.len() == 16) ==> r is None,
{
    let dec = cbc::Decryptor::<aes::Aes128>::new_from_slices(key, iv).ok()?;
    dec.decrypt_padded_vec_mut::<Pkcs7>(data).ok()
}

/// Relies on `String::from_utf8`: it succeeds exactly on valid UTF-8 and
/// decodes it.
#[verifier::external_body]
fn utf8_to_string(bytes: &Vec<u8>) -> (r: Option<String>)
    ensures
        (match r {
            Some(s) => vstd::utf8::valid_utf8(bytes@) && s@ == vstd::utf8::decode_utf8(bytes@),
            None => !vstd::utf8::valid_utf8(bytes@),
        }),
{
    String::from_utf8(bytes.clone()).ok()
}

/// Relies on `chrono::Utc::now`: the current UTC time as seconds since the
/// epoch. Nothing is promised of the value.
#[verifier::external_body]
fn now_unix() -> i64 {
    chrono::Utc::now().timestamp()
}

/// Relies on `rand::Rng::gen_range`: a number drawn from the given half-open
/// range — here the six-digit login and attach codes.
#[verifier::external_body]
fn random_code() -> (code: u32)
    ensures
        100000 <= code < 999999,
{
    rand::thread_rng().gen_range(100000..999999)
}

/// The credential cipher: AES-128-CBC under key material taken from the
/// storage configuration. Usable only when key and iv are 16 bytes each.
pub struct Cipher {
    key: String,
    iv: String,
}

impl Cipher {
    /// The key, as the bytes the cipher uses.
    pub closed spec fn key_bytes(&self) -> Seq<u8> {
        vstd::utf8::encode_utf8(self.key@)
    }

    /// The iv, as the bytes the cipher uses.
    pub closed spec fn iv_bytes(&self) -> Seq<u8> {
        vstd::utf8::encode_utf8(self.iv@)
    }

    /// Key and iv are each 16 bytes, as AES-128-CBC demands.
    pub open spec fn wf(&self) -> bool {
        self.key_bytes().len() == 16 && self.iv_bytes().len() == 16
    }

    /// A cipher over the configured key material.
    pub fn new(cfg: &StorageCfg) -> (c: Cipher)
        ensures
            c.key_bytes() == vstd::utf8::encode_utf8(cfg.key@),
            c.iv_bytes() == vstd::utf8::encode_utf8(cfg.iv@),
    {
        Cipher { key: cfg.key.clone(), iv: cfg.iv.clone() }
    }

    /// Whether the configured key material has the lengths AES-128-CBC
    /// demands.
    pub fn is_usable(&self) -> (b: bool)
        ensures
            b == self.wf(),
    {
        self.key.as_str().as_bytes().len() == 16 && self.iv.as_str().as_bytes().len() == 16
    }

    /// Encrypt `data` under this cipher.
    pub fn encrypt(&self, data: &[u8]) -> (r: Vec<u8>)
        requires
            self.wf(),
        ensures
            r@ == aes_cbc_enc(self.key_bytes(), self.iv_bytes(), data@),
    {
        match aes_encrypt_raw(self.key.as_str().as_bytes(), self.iv.as_str().as_bytes(), data) {
            Some(v) => v,
            None => vstd::pervasive::unreached(),
        }
    }

    /// Decrypt a ciphertext already known to be well formed under this
    /// cipher. [`Cipher::try_decrypt`] makes that check.
    pub fn decrypt(&self, data: &[u8]) -> (r: Vec<u8>)
        requires
            self.wf(),
            aes_cbc_dec(self.key_bytes(), self.iv_bytes(), data@) is Some,
        ensures
            Some(r@) == aes_cbc_dec(self.key_bytes(), self.iv_bytes(), data@),
    {
        match aes_decrypt_raw(self.key.as_str().as_bytes(), self.iv.as_str().as_bytes(), data) {
            Some(v) => v,
            None => vstd::pervasive::unreached(),
        }
    }

    /// Decrypt `data` if it is a well-formed ciphertext under this cipher,
    /// and report a malformed one rather than fail.
    pub fn try_decrypt(&self, data: &[u8]) -> (r: Option<Vec<u8>>)
        requires
            self.wf(),
        ensures
            (match r {
                Some(v) => aes_cbc_dec(self.key_bytes(), self.iv_bytes(), data@) == Some(v@),
                None => aes_cbc_dec(self.key_bytes(), self.iv_bytes(), data@) is None,
            }),
    {
        match aes_decrypt_raw(self.key.as_str().as_bytes(), self.iv.as_str().as_bytes(), data) {
            Some(_) => Some(self.decrypt(data)),
            None => None,
        }
    }
}

/// A mail account's credentials in the clear, as the scanner uses them.
#[derive(Debug)]
pub struct MailAccount {
    pub email: String,
    pub password: String,
}

/// A mail account as the store holds it: the password encrypted.
pub struct MailAccountEncrypted {
    pub email: String,
    pub password: Vec<u8>,
}

impl MailAccount {
    /// Encrypt the password for storage; the email stays in the clear.
    pub fn encrypt(self, cipher: &Cipher) -> (enc: MailAccountEncrypted)
        requires
            cipher.wf(),
        ensures
            enc.email == self.email,
            enc.password@ == aes_cbc_enc(
                cipher.key_bytes(),
                cipher.iv_bytes(),
                vstd::utf8::encode_utf8(self.password@),
            ),
    {
        let password = cipher.encrypt(self.password.as_str().as_bytes());
        MailAccountEncrypted { email: self.email, password }
    }
}

impl MailAccountEncrypted {
    /// Recover the account from a record already known to decrypt to valid
    /// UTF-8. [`MailAccountEncrypted::try_decrypt`] makes those checks.
    pub fn decrypt(self, cipher: &Cipher) -> (acc: MailAccount)
        requires
            cipher.wf(),
            aes_cbc_dec(cipher.key_bytes(), cipher.iv_bytes(), self.password@) matches Some(p)
                && vstd::utf8::valid_utf8(p),
        ensures
            acc.email == self.email,
            (match aes_cbc_dec(cipher.key_bytes(), cipher.iv_bytes(), self.password@) {
                Some(p) => acc.password@ == vstd::utf8::decode_utf8(p),
                None => false,
            }),
    {
        let bytes = cipher.decrypt(self.password.as_slice());
        match utf8_to_string(&bytes) {
            Some(password) => MailAccount { email: self.email, password },
            None => vstd::pervasive::unreached(),
        }
    }

    /// Recover the account if the stored record decrypts under this cipher to
    /// a valid UTF-8 password; report a malformed record rather than fail.
    pub fn try_decrypt(self, cipher: &Cipher) -> (r: Option<MailAccount>)
        requires
            cipher.wf(),
        ensures
            (match r {
                Some(acc) => acc.email == self.email && (match aes_cbc_dec(
                    cipher.key_bytes(),
                    cipher.iv_bytes(),
                    self.password@,
                ) {
                    Some(p) => vstd::utf8::valid_utf8(p) && acc.password@
                        == vstd::utf8::decode_utf8(p),
                    None => false,
                }),
                None => (match aes_cbc_dec(cipher.key_bytes(), cipher.iv_bytes(), self.password@) {
                    Some(p) => !vstd::utf8::valid_utf8(p),
                    None => true,
                }),
            }),
    {
        match cipher.try_decrypt(self.password.as_slice()) {
            Some(bytes) => match utf8_to_string(&bytes) {
                Some(_) => Some(self.decrypt(cipher)),
                None => None,
            },
            None => None,
        }
    }
}

/// A short-lived code under which a logged-in user attaches their chat
/// account.
pub struct AttachRequest {
    pub code: String,
    pub username: String,
    pub expires: i64,
}

impl AttachRequest {
    /// A fresh request: a random six-digit code for `username`, expiring
    /// thirty seconds from now.
    pub fn new(username: &String) -> (r: AttachRequest)
        ensures
            r.username@ == username@,
    {
        let code = random_code().to_string();
        let now = now_unix();
        let expires = if now <= i64::MAX - 30 {
            now + 30
        } else {
            i64::MAX
        };
        AttachRequest { code, username: username.clone(), expires }
    }

    /// Whether the request is still valid at the UTC instant `now`.
    pub fn is_valid_at(&self, now: i64) -> (b: bool)
        ensures
            b == (self.expires > now),
    {
        self.expires > now
    }

    /// Whether the request is still valid now.
    pub fn is_valid(&self) -> bool {
        let now = now_unix();
        self.is_valid_at(now)
    }
}

/// A short-lived code under which a user logs in through the chat channel.
pub struct LoginRequest {
    pub code: String,
    pub username: String,
    pub expires: i64,
}

impl LoginRequest {
    /// A fresh request: a random six-digit code for `username`, expiring
    /// thirty seconds from now.
    pub fn new(username: &String) -> (r: LoginRequest)
        ensures
            r.username@ == username@,
    {
        let code = random_code().to_string();
        let now = now_unix();
        let expires = if now <= i64::MAX - 30 {
            now + 30
        } else {
            i64::MAX
        };
        LoginRequest { code, username: username.clone(), expires }
    }

    /// Whether the request is still valid at the UTC instant `now`.
    pub fn is_valid_at(&self, now: i64) -> (b: bool)
        ensures
            b == (self.expires > now),
    {
        self.expires > now
    }

    /// Whether the request is still valid now.
    pub fn is_valid(&self) -> bool {
        let now = now_unix();
        self.is_valid_at(now)
    }
}

/// A registered user as the session layer sees one.
pub struct User {
    pub username: String,
    pub photo: Option<String>,
}

impl Clone for User {
    fn clone(&self) -> (res: Self)
        ensures
            res == *self,
    {
        let photo = match &self.photo {
            Some(p) => Some(p.clone()),
            None => None,
        };
        User { username: self.username.clone(), photo }
    }
}

} // verus!
