use blockchain::keypair::KeyPair;

#[test]
fn print_keys() {
    let keypair = KeyPair::new();
    keypair.print_keys()
}

#[test]
fn sign() {
    let keypair = KeyPair::new();
    let message = "Hello World!".to_string();
    let sig = keypair.sign(&message);
    sig.print();
    assert!(keypair.verify(&message, &sig));
}

#[test]
fn sign_fail() {
    let keypair1 = KeyPair::new();
    let keypair2 = KeyPair::new();

    let message = "Hello World!".to_string();
    let sig = keypair1.sign(&message);

    assert_eq!(false, keypair2.verify(&message, &sig));
}

#[test]
fn tampered_message_fails_verification() {
    let keypair = KeyPair::new();
    let message = "pay 10 coins".to_string();
    let tampered = "pay 99 coins".to_string();
    let sig = keypair.sign(&message);

    assert!(keypair.verify(&message, &sig));
    assert!(!keypair.verify(&tampered, &sig));
}

#[test]
fn signature_renders_as_hex() {
    let keypair = KeyPair::new();
    let sig = keypair.sign(&"x".to_string());
    let rendered = sig.to_string();

    assert_eq!(128, rendered.len());
    assert!(rendered.chars().all(|c| c.is_ascii_hexdigit() && !c.is_ascii_uppercase()));
}

#[test]
fn keypair_hash_is_a_hex_digest() {
    let keypair = KeyPair::new();
    let id = keypair.hash();

    assert_eq!(64, id.len());
    assert!(id.chars().all(|c| c.is_ascii_hexdigit() && !c.is_ascii_uppercase()));
    assert_eq!(id, keypair.hash());
    assert_ne!(id, hex::encode(&keypair.public_key));
}
