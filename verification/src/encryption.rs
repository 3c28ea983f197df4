//! The encrypted-authentication handshake: one ephemeral Diffie-Hellman
//! exchange per message, a hashed shared secret as the cipher key, and an
//! authenticated ciphertext envelope with ASCII-safe encoded fields.
use crate::error::EncryptionError;
use crate::error::KittyError;
use crate::json::JsonValue;
use crate::json::SpecJson;
use aes_gcm::KeyInit;
use aes_gcm::aead::Aead;
use aes_gcm::aead::Generate;
use vstd::prelude::*;
use vstd::string::StringExecFns;
use vstd::string::StrSliceExecFns;
use vstd::string::StringSliceAdditionalSpecFns;

verus! {

/// What `base85::encode` returns for the given bytes.
pub uninterp spec fn b85_encode_of(b: Seq<u8>) -> Seq<char>;

/// What `base85::decode` returns for the given text.
pub uninterp spec fn b85_decode_of(s: Seq<char>) -> Option<Seq<u8>>;

/// The public key derived from 32 secret key bytes.
pub uninterp spec fn x25519_public_of(secret: Seq<u8>) -> Seq<u8>;

/// The Diffie-Hellman shared secret of a secret key and a peer public key.
pub uninterp spec fn x25519_shared_of(secret: Seq<u8>, peer: Seq<u8>) -> Seq<u8>;

/// The 32-byte digest of the given bytes.
pub uninterp spec fn sha256_of(data: Seq<u8>) -> Seq<u8>;

/// The ciphertext-plus-tag the authenticated cipher produces for the
/// given key, nonce and plaintext.
pub uninterp spec fn aes256gcm_seal_of(key: Seq<u8>, nonce: Seq<u8>, plaintext: Seq<u8>) -> Seq<
    u8,
>;

/// Relies on `base85::encode` (the RFC 1924 alphabet): the text is a
/// function of the bytes alone; each full four-byte group yields five
/// characters and a trailing group of `r` bytes yields `r + 1`.
#[verifier::external_body]
fn b85_encode(data: &[u8]) -> (r: String)
    ensures
        r@ == b85_encode_of(data@),
        data@.len() % 4 == 0 ==> r@.len() == data@.len() / 4 * 5,
        data@.len() % 4 != 0 ==> r@.len() == data@.len() / 4 * 5 + data@.len() % 4 + 1,
{
    base85::encode(data)
}

/// Relies on `base85::decode`: the result is a function of the characters
/// alone; any character outside the alphabet, or a trailing group of one
/// character, is rejected.
#[verifier::external_body]
fn b85_decode(s: &str) -> (r: Result<Vec<u8>, String>)
    ensures
        r matches Ok(v) ==> b85_decode_of(s@) == Some(v@),
        r is Err ==> b85_decode_of(s@) is None,
{
    match base85::decode(s) {
        Ok(v) => Ok(v),
        Err(e) => Err(e.to_string()),
    }
}

/// Relies on `x25519_dalek`: the public key of a static secret is a
/// function of the 32 secret bytes alone.
#[verifier::external_body]
fn x25519_public(secret: &[u8; 32]) -> (r: [u8; 32])
    ensures
        r@ == x25519_public_of(secret@),
{
    x25519_dalek::PublicKey::from(&x25519_dalek::StaticSecret::from(*secret)).to_bytes()
}

/// Relies on `x25519_dalek::StaticSecret::diffie_hellman`: the shared
/// secret is a function of the secret bytes and the peer key alone.
#[verifier::external_body]
fn x25519_shared(secret: &[u8; 32], peer: &[u8; 32]) -> (r: [u8; 32])
    ensures
        r@ == x25519_shared_of(secret@, peer@),
{
    x25519_dalek::StaticSecret::from(*secret).diffie_hellman(
        &x25519_dalek::PublicKey::from(*peer),
    ).to_bytes()
}

/// Relies on `sha2::Sha256`: the digest is a function of the input alone.
#[verifier::external_body]
fn sha256(data: &[u8]) -> (r: [u8; 32])
    ensures
        r@ == sha256_of(data@),
        r@.len() == 32,
{
    <[u8; 32]>::from(<sha2::Sha256 as sha2::Digest>::digest(data))
}

/// Relies on the system random source reached through
/// `aes_gcm::aead::Generate`: fills 32 bytes; nothing is promised of the
/// values, and two calls may differ.
#[verifier::external_body]
fn random_32() -> Result<[u8; 32], ()> {
    match <[u8; 32] as Generate>::try_generate() {
        Ok(a) => Ok(a),
        Err(_) => Err(()),
    }
}

/// Relies on the system random source reached through
/// `aes_gcm::aead::Generate`: fills 12 bytes; nothing is promised of the
/// values, and two calls may differ.
#[verifier::external_body]
fn random_12() -> Result<[u8; 12], ()> {
    match <[u8; 12] as Generate>::try_generate() {
        Ok(a) => Ok(a),
        Err(_) => Err(()),
    }
}

/// Relies on `aes_gcm::Aes256Gcm` (`Aead::encrypt`): deterministic in key,
/// nonce and plaintext; on success the output is the ciphertext, of the
/// plaintext's length, followed by the 16-byte authentication tag.
#[verifier::external_body]
fn aes256gcm_seal(key: &[u8; 32], nonce: &[u8; 12], plaintext: &[u8]) -> (r: Result<
    Vec<u8>,
    (),
>)
    ensures
        r matches Ok(c) ==> c@ == aes256gcm_seal_of(key@, nonce@, plaintext@) && c@.len()
            == plaintext@.len() + 16,
{
    let cipher = aes_gcm::Aes256Gcm::new(&aes_gcm::Key::<aes_gcm::Aes256Gcm>::from(*key));
    match cipher.encrypt(&aes_gcm::aead::Nonce::<aes_gcm::Aes256Gcm>::from(*nonce), plaintext) {
        Ok(v) => Ok(v),
        Err(_) => Err(()),
    }
}

proof fn lemma_encode_utf8_nonempty(chars: Seq<char>)
    requires
        chars.len() > 0,
    ensures
        vstd::utf8::encode_utf8(chars).len() > 0,
{
    assert(vstd::utf8::encode_scalar(chars[0] as u32).len() >= 1);
}

/// Performs the encrypted-authentication handshake against one fixed peer
/// public key.
pub struct Encryptor {
    kitty_public_key: [u8; 32],
}

impl View for Encryptor {
    type V = Seq<u8>;

    closed spec fn view(&self) -> Seq<u8> {
        self.kitty_public_key@
    }
}

impl Encryptor {
    /// A new encryptor for a key supplied as `<version>:<radix-85>` text.
    /// The text must carry the version prefix and decode to at least 32
    /// bytes; exactly the first 32 are used.
    pub fn from_key_str(key_str: &str) -> (r: Result<Encryptor, EncryptionError>)
        ensures
            r matches Ok(e) ==> key_str@.len() >= 2 && key_str@.subrange(0, 2) == "1:"@ && (
            b85_decode_of(key_str@.skip(2)) matches Some(b) && b.len() >= 32 && e@ == b.take(
                32,
            )),
            r matches Err(e) ==> match e {
                EncryptionError::InvalidPublicKey(_) => key_str@.len() < 2 || key_str@.subrange(
                    0,
                    2,
                ) != "1:"@ || b85_decode_of(key_str@.skip(2)) is None,
                EncryptionError::PublicKeyTooShort { expected, actual } => expected == 32
                    && key_str@.len() >= 2 && key_str@.subrange(0, 2) == "1:"@ && (
                b85_decode_of(key_str@.skip(2)) matches Some(b) && b.len() == actual && actual
                    < 32),
                _ => false,
            },
    {
        proof {
            reveal_strlit("1:");
        }
        let n = key_str.unicode_len();
        if n < 2 {
            return Err(EncryptionError::InvalidPublicKey(String::from_str(
                "Missing version prefix",
            )));
        }
        if !(key_str.get_char(0) == '1' && key_str.get_char(1) == ':') {
            proof {
                assert(key_str@.subrange(0, 2)[0] == key_str@[0]);
                assert(key_str@.subrange(0, 2)[1] == key_str@[1]);
                assert(key_str@.subrange(0, 2) != "1:"@);
            }
            return Err(EncryptionError::InvalidPublicKey(String::from_str(
                "Missing version prefix",
            )));
        }
        proof {
            assert(key_str@.subrange(0, 2) =~= "1:"@);
        }
        let body = key_str.substring_char(2, n);
        assert(body@ =~= key_str@.skip(2));
        let key_bytes = match b85_decode(body) {
            Ok(v) => v,
            Err(msg) => {
                return Err(EncryptionError::InvalidPublicKey(msg));
            },
        };
        Self::from_key_bytes(&key_bytes)
    }

    /// A new encryptor for raw key bytes: at least 32 are required and
    /// exactly the first 32 are used.
    pub fn from_key_bytes(key_bytes: &Vec<u8>) -> (r: Result<Encryptor, EncryptionError>)
        ensures
            r matches Ok(e) ==> key_bytes@.len() >= 32 && e@ == key_bytes@.take(32),
            r matches Err(e) ==> key_bytes@.len() < 32 && e == (EncryptionError::PublicKeyTooShort {
                expected: 32usize,
                actual: key_bytes@.len() as usize,
            }),
    {
        if key_bytes.len() < 32 {
            return Err(EncryptionError::PublicKeyTooShort {
                expected: 32,
                actual: key_bytes.len(),
            });
        }
        let mut key: [u8; 32] = [0u8; 32];
        let mut i: usize = 0;
        while i < 32
            invariant
                i <= 32,
                key_bytes@.len() >= 32,
                forall|k: int| 0 <= k < i ==> key@[k] == key_bytes@[k],
            decreases 32 - i,
        {
            key[i] = key_bytes[i];
            i = i + 1;
        }
        proof {
            assert(key@ =~= key_bytes@.take(32));
        }
        Ok(Encryptor { kitty_public_key: key })
    }

    /// The peer public key this encryptor authenticates against.
    pub fn public_key_bytes(&self) -> (r: &[u8; 32])
        ensures
            r@ == self@,
    {
        &self.kitty_public_key
    }
}

/// The encrypted payload envelope produced for `payload` under the peer
/// key `peer`: for some fresh 32-byte secret and 12-byte nonce, the five
/// required fields, in canonical order, carrying the nonce, the trailing
/// authentication tag, the ephemeral public key and the ciphertext body,
/// each in the radix-85 encoding.
pub open spec fn spec_encrypted_envelope(peer: Seq<u8>, payload: SpecJson, env: SpecJson) -> bool {
    exists|sk: Seq<u8>, nonce: Seq<u8>|
        #![trigger x25519_shared_of(sk, peer), b85_encode_of(nonce)]
        {
            let pt = vstd::utf8::encode_utf8(crate::json::spec_ser(payload));
            let sealed = aes256gcm_seal_of(sha256_of(x25519_shared_of(sk, peer)), nonce, pt);
            &&& sk.len() == 32
            &&& nonce.len() == 12
            &&& sealed.len() == pt.len() + 16
            &&& env == SpecJson::Obj(
                seq![
                    ("version"@, SpecJson::Str("0.43.1"@)),
                    ("iv"@, SpecJson::Str(b85_encode_of(nonce))),
                    ("tag"@, SpecJson::Str(b85_encode_of(sealed.skip(sealed.len() - 16)))),
                    ("pubkey"@, SpecJson::Str(b85_encode_of(x25519_public_of(sk)))),
                    ("encrypted"@, SpecJson::Str(b85_encode_of(sealed.take(sealed.len() - 16)))),
                ],
            )
        }
}

impl Encryptor {
    /// Transforms a cleartext payload into the encrypted payload envelope:
    /// serialize, fresh ephemeral key pair, Diffie-Hellman against the
    /// peer key, hash the shared secret into the cipher key, fresh nonce,
    /// authenticated encryption, and radix-85 encoding of every binary
    /// field.  On success the envelope has exactly the five required
    /// members, each a non-empty string.
    #[verifier::loop_isolation(false)]
    #[verifier::rlimit(50)]
    pub fn encrypt_command(&self, payload: &JsonValue) -> (r: Result<JsonValue, KittyError>)
        ensures
            r matches Ok(env) ==> spec_encrypted_envelope(self@, payload@, env@),
            r matches Ok(env) ==> env@ is Obj && env@->Obj_0.len() == 5 && (forall|i: int|
                0 <= i < 5 ==> (#[trigger] env@->Obj_0[i]).1 is Str) && (forall|i: int|
                0 <= i < 4 ==> (#[trigger] env@->Obj_0[i]).1->Str_0.len() > 0),
            r matches Ok(env) ==> (crate::json::wf_json(payload@) ==> env@->Obj_0[4].1->Str_0.len()
                > 0),
            r matches Err(e) ==> e is Encryption,
    {
        let payload_text = payload.to_text();
        let payload_bytes = payload_text.as_str().as_bytes_vec();
        let secret = match random_32() {
            Ok(sx) => sx,
            Err(()) => {
                return Err(KittyError::Encryption(EncryptionError::EncryptionFailed(
                    String::from_str("random generation failed"),
                )));
            },
        };
        let public_key = x25519_public(&secret);
        let shared = x25519_shared(&secret, &self.kitty_public_key);
        let encryption_key = sha256(shared.as_slice());
        let nonce = match random_12() {
            Ok(nx) => nx,
            Err(()) => {
                return Err(KittyError::Encryption(EncryptionError::EncryptionFailed(
                    String::from_str("random generation failed"),
                )));
            },
        };
        let sealed = match aes256gcm_seal(&encryption_key, &nonce, payload_bytes.as_slice()) {
            Ok(c) => c,
            Err(()) => {
                return Err(KittyError::Encryption(EncryptionError::EncryptionFailed(
                    String::from_str("cipher rejected the payload"),
                )));
            },
        };
        let split_at = sealed.len() - 16;
        let mut encrypted_body: Vec<u8> = Vec::new();
        let mut i: usize = 0;
        while i < split_at
            invariant
                i <= split_at,
                split_at == sealed@.len() - 16,
                encrypted_body@ == sealed@.take(i as int),
            decreases split_at - i,
        {
            encrypted_body.push(sealed[i]);
            i = i + 1;
            assert(encrypted_body@ =~= sealed@.take(i as int));
        }
        let mut tag: Vec<u8> = Vec::new();
        let mut j: usize = split_at;
        while j < sealed.len()
            invariant
                split_at <= j <= sealed@.len(),
                split_at == sealed@.len() - 16,
                tag@ == sealed@.subrange(split_at as int, j as int),
            decreases sealed@.len() - j,
        {
            tag.push(sealed[j]);
            j = j + 1;
            assert(tag@ =~= sealed@.subrange(split_at as int, j as int));
        }
        proof {
            assert(tag@ =~= sealed@.skip(sealed@.len() - 16));
        }
        let iv_text = b85_encode(nonce.as_slice());
        let tag_text = b85_encode(tag.as_slice());
        let pubkey_text = b85_encode(public_key.as_slice());
        let encrypted_text = b85_encode(encrypted_body.as_slice());
        let mut entries: Vec<(String, JsonValue)> = Vec::new();
        proof {
            crate::json::lemma_jv_entry_views_index(entries@);
        }
        let e1 = (String::from_str("version"), JsonValue::Str(String::from_str("0.43.1")));
        proof {
            crate::json::lemma_jv_entry_views_push(entries@, e1);
        }
        entries.push(e1);
        let e2 = (String::from_str("iv"), JsonValue::Str(iv_text));
        proof {
            crate::json::lemma_jv_entry_views_push(entries@, e2);
        }
        entries.push(e2);
        let e3 = (String::from_str("tag"), JsonValue::Str(tag_text));
        proof {
            crate::json::lemma_jv_entry_views_push(entries@, e3);
        }
        entries.push(e3);
        let e4 = (String::from_str("pubkey"), JsonValue::Str(pubkey_text));
        proof {
            crate::json::lemma_jv_entry_views_push(entries@, e4);
        }
        entries.push(e4);
        let e5 = (String::from_str("encrypted"), JsonValue::Str(encrypted_text));
        proof {
            crate::json::lemma_jv_entry_views_push(entries@, e5);
        }
        entries.push(e5);
        let envelope = JsonValue::Obj(entries);
        let ghost sk = secret@;
        let ghost nv = nonce@;
        let ghost pt = vstd::utf8::encode_utf8(crate::json::spec_ser(payload@));
        let ghost sealed_spec = aes256gcm_seal_of(sha256_of(x25519_shared_of(sk, self@)), nv, pt);
        proof {
            assert(payload_bytes@ == pt);
            assert(sealed@ == sealed_spec);
            assert(encrypted_body@ =~= sealed_spec.take(sealed_spec.len() - 16));
            assert(tag@ =~= sealed_spec.skip(sealed_spec.len() - 16));
        }
        proof {
            assert(envelope@->Obj_0 =~= seq![
                ("version"@, SpecJson::Str("0.43.1"@)),
                ("iv"@, SpecJson::Str(b85_encode_of(nv))),
                ("tag"@, SpecJson::Str(b85_encode_of(sealed_spec.skip(sealed_spec.len() - 16)))),
                ("pubkey"@, SpecJson::Str(b85_encode_of(x25519_public_of(sk)))),
                ("encrypted"@, SpecJson::Str(
                    b85_encode_of(sealed_spec.take(sealed_spec.len() - 16)),
                )),
            ]);
        }
        proof {
            assert(sk.len() == 32 && nv.len() == 12);
            assert(sealed_spec.len() == pt.len() + 16);
            assert(spec_encrypted_envelope(self@, payload@, envelope@));
        }
        proof {
            reveal_strlit("0.43.1");
            assert(envelope@->Obj_0[0].1->Str_0.len() == 6);
            assert(iv_text@.len() == 15);
            assert(tag_text@.len() == 20);
            assert(pubkey_text@.len() == 40);
            if crate::json::wf_json(payload@) {
                crate::json::lemma_ser_starts(payload@);
                lemma_encode_utf8_nonempty(crate::json::spec_ser(payload@));
                assert(encrypted_body@.len() > 0);
                assert(encrypted_text@.len() > 0);
            }
        }
        Ok(envelope)
    }
}

} // verus!
