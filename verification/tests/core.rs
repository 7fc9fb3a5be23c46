use ed25519_dalek::Signer;
use ed25519_dalek::SigningKey;
use keyreg::errors::{error_label, status_code, AuthError};
use keyreg::ident::account_id_string;
use keyreg::service::{authenticate, lookup, register};
use keyreg::store::KeyAccountStore;

fn keypair(seed: u8) -> (Vec<u8>, SigningKey) {
    let sk = SigningKey::from_bytes(&[seed; 32]);
    (sk.verifying_key().to_bytes().to_vec(), sk)
}

fn sign(sk: &SigningKey, msg: &str) -> Vec<u8> {
    sk.sign(msg.as_bytes()).to_bytes().to_vec()
}

#[test]
fn register_lookup_authenticate_scenario() {
    let mut store = KeyAccountStore::new();
    let (pk1, sk1) = keypair(1);
    let (_pk2, sk2) = keypair(2);

    let id1 = register(&mut store, &pk1, "a@example.com", &sign(&sk1, "a@example.com"))
        .expect("registration with a valid signature must succeed");

    assert_eq!(lookup(&store, &pk1), Ok(id1));
    assert_eq!(
        authenticate(&store, &pk1, "hello", &sign(&sk1, "hello")),
        Ok(id1)
    );
    assert_eq!(
        authenticate(&store, &pk1, "hello", &sign(&sk2, "hello")),
        Err(AuthError::InvalidSignature)
    );
    let (pk_unknown, _) = keypair(3);
    assert_eq!(lookup(&store, &pk_unknown), Err(AuthError::NotFound));
}

#[test]
fn register_rejects_bad_signature() {
    let mut store = KeyAccountStore::new();
    let (pk1, sk1) = keypair(4);
    let wrong = sign(&sk1, "b@example.com");
    assert_eq!(
        register(&mut store, &pk1, "a@example.com", &wrong),
        Err(AuthError::InvalidSignature)
    );
    assert_eq!(lookup(&store, &pk1), Err(AuthError::NotFound));
}

#[test]
fn register_rejects_malformed_inputs() {
    let mut store = KeyAccountStore::new();
    let (pk1, sk1) = keypair(5);
    let good = sign(&sk1, "a@example.com");

    let short_key = vec![1u8, 2, 3];
    assert_eq!(
        register(&mut store, &short_key, "a@example.com", &good),
        Err(AuthError::InvalidSignature)
    );

    let short_sig = vec![0u8; 10];
    assert_eq!(
        register(&mut store, &pk1, "a@example.com", &short_sig),
        Err(AuthError::InvalidSignature)
    );
}

#[test]
fn register_same_key_twice_fails() {
    let mut store = KeyAccountStore::new();
    let (pk1, sk1) = keypair(6);
    let sig = sign(&sk1, "a@example.com");

    let id1 = register(&mut store, &pk1, "a@example.com", &sig).expect("first registration");
    let second = register(&mut store, &pk1, "a@example.com", &sig);
    assert_eq!(second, Err(AuthError::StoreError));

    let again = register(&mut store, &pk1, "other@example.com", &sign(&sk1, "other@example.com"));
    assert_eq!(again, Err(AuthError::StoreError));

    assert_eq!(lookup(&store, &pk1), Ok(id1));
}

#[test]
fn authenticate_garbage_signature_invalid() {
    let mut store = KeyAccountStore::new();
    let (pk1, sk1) = keypair(7);
    register(&mut store, &pk1, "a@example.com", &sign(&sk1, "a@example.com")).unwrap();

    let garbage = vec![0xabu8; 64];
    assert_eq!(
        authenticate(&store, &pk1, "hello", &garbage),
        Err(AuthError::InvalidSignature)
    );
    let empty: Vec<u8> = Vec::new();
    assert_eq!(
        authenticate(&store, &pk1, "hello", &empty),
        Err(AuthError::InvalidSignature)
    );
}

#[test]
fn authenticate_unknown_key_not_found() {
    let store = KeyAccountStore::new();
    let (pk1, sk1) = keypair(8);
    // Even a perfectly valid signature fails NotFound when the key is unregistered.
    assert_eq!(
        authenticate(&store, &pk1, "hello", &sign(&sk1, "hello")),
        Err(AuthError::NotFound)
    );
    assert_eq!(
        authenticate(&store, &pk1, "hello", &vec![0u8; 64]),
        Err(AuthError::NotFound)
    );
}

#[test]
fn lookup_is_idempotent() {
    let mut store = KeyAccountStore::new();
    let (pk1, sk1) = keypair(9);
    let (pk2, sk2) = keypair(10);

    assert_eq!(lookup(&store, &pk1), Err(AuthError::NotFound));
    assert_eq!(lookup(&store, &pk1), Err(AuthError::NotFound));

    let id1 = register(&mut store, &pk1, "a@example.com", &sign(&sk1, "a@example.com")).unwrap();
    let first = lookup(&store, &pk1);
    let second = lookup(&store, &pk1);
    assert_eq!(first, Ok(id1));
    assert_eq!(first, second);

    // A registration for a different key leaves the result unchanged.
    register(&mut store, &pk2, "b@example.com", &sign(&sk2, "b@example.com")).unwrap();
    assert_eq!(lookup(&store, &pk1), Ok(id1));
}

#[test]
fn error_status_codes() {
    assert_eq!(status_code(AuthError::NotFound), 404);
    assert_eq!(status_code(AuthError::InvalidSignature), 400);
    assert_eq!(status_code(AuthError::StoreError), 500);
}

#[test]
fn error_labels() {
    assert_eq!(error_label(AuthError::NotFound), "not found");
    assert_eq!(error_label(AuthError::InvalidSignature), "invalid signature");
    assert_eq!(error_label(AuthError::StoreError), "database error");
}

#[test]
fn account_id_string_exact() {
    assert_eq!(
        account_id_string(0),
        "00000000-0000-0000-0000-000000000000"
    );
    assert_eq!(
        account_id_string(0x0123456789abcdef0123456789abcdefu128),
        "01234567-89ab-cdef-0123-456789abcdef"
    );
}

#[test]
fn account_id_string_matches_uuid_form() {
    let samples: Vec<u128> = vec![
        0,
        1,
        0xffffffffffffffffffffffffffffffffu128,
        0x550e8400e29b41d4a716446655440000u128,
    ];
    for id in samples {
        assert_eq!(account_id_string(id), uuid::Uuid::from_u128(id).to_string());
    }
}

#[test]
fn registered_ids_render_as_uuid() {
    let mut store = KeyAccountStore::new();
    let (pk1, sk1) = keypair(11);
    let id = register(&mut store, &pk1, "a@example.com", &sign(&sk1, "a@example.com")).unwrap();
    let text = account_id_string(id);
    assert_eq!(text.len(), 36);
    assert_eq!(text, uuid::Uuid::from_u128(id).to_string());
}

#[test]
fn register_empty_email() {
    let mut store = KeyAccountStore::new();
    let (pk1, sk1) = keypair(12);
    let id = register(&mut store, &pk1, "", &sign(&sk1, "")).expect("empty email is stored verbatim");
    assert_eq!(lookup(&store, &pk1), Ok(id));
    assert_eq!(authenticate(&store, &pk1, "", &sign(&sk1, "")), Ok(id));
}
