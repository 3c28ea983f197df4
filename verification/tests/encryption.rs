use kitty_rc::EncryptionError;
use kitty_rc::Encryptor;
use kitty_rc::JsonValue;
use kitty_rc::client::with_auth;
use aes_gcm::aead::Aead;
use aes_gcm::KeyInit;
use sha2::Digest;

fn sample_peer_key_bytes() -> Vec<u8> {
    (0u8..32).collect()
}

fn sample_key_str() -> String {
    format!("1:{}", base85::encode(&sample_peer_key_bytes()))
}

fn sample_payload() -> JsonValue {
    JsonValue::Obj(vec![
        ("cmd".to_string(), JsonValue::Str("ls".to_string())),
        ("password".to_string(), JsonValue::Str("test".to_string())),
        ("timestamp".to_string(), JsonValue::Int(1234567890)),
    ])
}

#[test]
fn test_new_with_public_key() {
    let encryptor = Encryptor::from_key_str(&sample_key_str());
    assert!(encryptor.is_ok());
}

#[test]
fn test_new_with_public_key_invalid() {
    let encryptor = Encryptor::from_key_str("invalid base85");
    assert!(matches!(encryptor, Err(EncryptionError::InvalidPublicKey(_))));
}

#[test]
fn test_key_missing_version_prefix() {
    let encryptor = Encryptor::from_key_str(&base85::encode(&sample_peer_key_bytes()));
    assert!(matches!(encryptor, Err(EncryptionError::InvalidPublicKey(_))));
}

#[test]
fn test_key_too_short() {
    let short = format!("1:{}", base85::encode(&[1u8, 2, 3]));
    let encryptor = Encryptor::from_key_str(&short);
    assert!(matches!(
        encryptor,
        Err(EncryptionError::PublicKeyTooShort { expected: 32, actual: 3 })
    ));
}

#[test]
fn test_key_takes_first_32_bytes() {
    let mut long = sample_peer_key_bytes();
    long.extend_from_slice(&[9, 9, 9]);
    let key = format!("1:{}", base85::encode(&long));
    let encryptor = Encryptor::from_key_str(&key).unwrap();
    assert_eq!(encryptor.public_key_bytes(), &{
        let mut a = [0u8; 32];
        a.copy_from_slice(&sample_peer_key_bytes());
        a
    });
}

#[test]
fn test_encrypt_command() {
    let encryptor = Encryptor::from_key_str(&sample_key_str()).unwrap();
    let result = encryptor.encrypt_command(&sample_payload());
    assert!(result.is_ok());
    let encrypted = result.unwrap();
    match encrypted {
        JsonValue::Obj(entries) => {
            let keys: Vec<&str> = entries.iter().map(|e| e.0.as_str()).collect();
            assert_eq!(keys, vec!["version", "iv", "tag", "pubkey", "encrypted"]);
            for (_, v) in &entries {
                match v {
                    JsonValue::Str(s) => assert!(!s.is_empty()),
                    _ => panic!("every envelope field is a string"),
                }
            }
        }
        _ => panic!("the envelope is a JSON object"),
    }
}

#[test]
fn test_encrypt_twice_differs() {
    // Fresh nonce and ephemeral key pair each time: the iv and pubkey
    // fields of two encryptions of identical cleartext must differ.
    let encryptor = Encryptor::from_key_str(&sample_key_str()).unwrap();
    let a = encryptor.encrypt_command(&sample_payload()).unwrap();
    let b = encryptor.encrypt_command(&sample_payload()).unwrap();
    let field = |v: &JsonValue, name: &str| -> String {
        match v {
            JsonValue::Obj(entries) => entries
                .iter()
                .find(|e| e.0 == name)
                .map(|e| match &e.1 {
                    JsonValue::Str(s) => s.clone(),
                    _ => panic!("field {} is a string", name),
                })
                .unwrap(),
            _ => panic!("envelope is an object"),
        }
    };
    assert_ne!(field(&a, "iv"), field(&b, "iv"));
    assert_ne!(field(&a, "pubkey"), field(&b, "pubkey"));
    assert_ne!(field(&a, "encrypted"), field(&b, "encrypted"));
}

#[test]
fn test_encrypted_payload_decrypts_to_cleartext() {
    // Replaying the handshake from the peer's side recovers the cleartext.
    let peer_secret = x25519_dalek::StaticSecret::from([7u8; 32]);
    let peer_public = x25519_dalek::PublicKey::from(&peer_secret);
    let key_str = format!("1:{}", base85::encode(peer_public.as_bytes()));
    let encryptor = Encryptor::from_key_str(&key_str).unwrap();
    let envelope = encryptor.encrypt_command(&sample_payload()).unwrap();
    let field = |name: &str| -> Vec<u8> {
        match &envelope {
            JsonValue::Obj(entries) => entries
                .iter()
                .find(|e| e.0 == name)
                .map(|e| match &e.1 {
                    JsonValue::Str(s) => base85::decode(s).unwrap(),
                    _ => panic!("field {} is a string", name),
                })
                .unwrap(),
            _ => panic!("envelope is an object"),
        }
    };
    let ephemeral: [u8; 32] = field("pubkey").try_into().unwrap();
    let shared = peer_secret.diffie_hellman(&x25519_dalek::PublicKey::from(ephemeral));
    let key = sha2::Sha256::digest(shared.as_bytes());
    let cipher = aes_gcm::Aes256Gcm::new(&key);
    let nonce_bytes: [u8; 12] = field("iv").try_into().unwrap();
    let mut sealed = field("encrypted");
    sealed.extend_from_slice(&field("tag"));
    let cleartext = cipher
        .decrypt(&aes_gcm::aead::Nonce::<aes_gcm::Aes256Gcm>::from(nonce_bytes), sealed.as_slice())
        .unwrap();
    assert_eq!(
        String::from_utf8(cleartext).unwrap(),
        "{\"cmd\":\"ls\",\"password\":\"test\",\"timestamp\":1234567890}"
    );
}

#[test]
fn test_with_auth_injects_password_and_timestamp() {
    let payload = Some(JsonValue::Obj(vec![(
        "data".to_string(),
        JsonValue::Str("hi".to_string()),
    )]));
    let out = with_auth(payload, "pw", 42);
    assert_eq!(
        out,
        JsonValue::Obj(vec![
            ("data".to_string(), JsonValue::Str("hi".to_string())),
            ("password".to_string(), JsonValue::Str("pw".to_string())),
            ("timestamp".to_string(), JsonValue::Int(42)),
        ])
    );
    let fresh = with_auth(None, "pw", 42);
    assert_eq!(
        fresh,
        JsonValue::Obj(vec![
            ("password".to_string(), JsonValue::Str("pw".to_string())),
            ("timestamp".to_string(), JsonValue::Int(42)),
        ])
    );
}
