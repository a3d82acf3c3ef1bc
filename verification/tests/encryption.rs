use oracledb::encryption::{
    dh_public_key, dh_shared_key, oracle10g_verifier, AesCryptor, EncryptAlgo, Integrity,
    IntegrityAlgo,
};

#[test]
fn aes_round_trip_all_sizes() {
    for (algo, key) in [
        (EncryptAlgo::Aes128, vec![0x11u8; 16]),
        (EncryptAlgo::Aes192, vec![0x22u8; 24]),
        (EncryptAlgo::Aes256, vec![0x33u8; 32]),
    ] {
        let cryptor = AesCryptor::new(algo, &key).unwrap();
        for len in [0usize, 1, 15, 16, 17, 100, 256] {
            let plain: Vec<u8> = (0..len).map(|i| (i % 251) as u8).collect();
            let enc = cryptor.encrypt(&plain);
            assert!(
                (enc.len() - 1).is_multiple_of(16),
                "ciphertext must be block aligned"
            );
            let dec = cryptor.decrypt(&enc).unwrap();
            assert_eq!(dec, plain, "round trip failed for len {len}");
        }
    }
}

#[test]
fn dh_agreement_matches() {
    // Tiny group: generator 2, prime 23. Both sides must agree.
    let generator = [2u8];
    let prime = [23u8];
    let a_priv = [5u8];
    let b_priv = [7u8];
    let a_pub = dh_public_key(&generator, &prime, &a_priv, 1);
    let b_pub = dh_public_key(&generator, &prime, &b_priv, 1);
    let a_shared = dh_shared_key(&b_pub, &a_priv, &prime, 1);
    let b_shared = dh_shared_key(&a_pub, &b_priv, &prime, 1);
    assert_eq!(a_shared, b_shared);
    // 2^(5*7) mod 23 = 4.
    assert_eq!(a_shared, vec![4u8]);
}

#[test]
fn oracle10g_verifier_matches_known_vector() {
    // passlib: oracle10.hash("password", user="username") = 872805F3F4C83365
    let verifier = oracle10g_verifier("username", b"password");
    assert_eq!(
        base16ct::upper::encode_string(&verifier),
        "872805F3F4C83365"
    );
    // The verifier is case-insensitive on both the user and password.
    assert_eq!(oracle10g_verifier("USERNAME", b"PASSWORD"), verifier);
}

#[test]
fn dh_fixed_width_pads_leading_zeros() {
    // 2^1 mod 23 = 2, fixed width 4 keeps leading zero bytes.
    let pub_key = dh_public_key(&[2], &[23], &[1], 4);
    assert_eq!(pub_key, vec![0, 0, 0, 2]);
}

#[test]
fn integrity_checksums_follow_the_keystream() {
    let key = [7u8; 16];
    let iv = [9u8; 16];
    assert!(Integrity::new(IntegrityAlgo::Sha256, &key[..4], &iv).is_err());
    let mut sender = Integrity::new(IntegrityAlgo::Sha256, &key, &iv).unwrap();
    sender.init();
    assert_eq!(sender.hash_size(), 32);
    let first = sender.compute(b"hello");
    let second = sender.compute(b"hello");
    assert_eq!(first.len(), 5 + 32);
    assert_eq!(&first[..5], b"hello");
    assert_eq!(&second[..5], b"hello");
    assert_ne!(first, second, "the send keystream advances");

    let mut receiver = Integrity::new(IntegrityAlgo::Sha256, &key, &iv).unwrap();
    receiver.init();
    assert_eq!(
        receiver.validate(&[0u8; 32]).unwrap_err(),
        "data integrity check failed: short input"
    );
    assert_eq!(receiver.validate(&first).unwrap_err(), "data integrity check failed");
}

#[test]
fn cryptor_keeps_only_the_leading_key_bytes() {
    let mut long_a = vec![0x11u8; 16];
    long_a.extend([0xaa; 8]);
    let mut long_b = vec![0x11u8; 16];
    long_b.extend([0xbb; 4]);
    let a = AesCryptor::new(EncryptAlgo::Aes128, &long_a).unwrap();
    let b = AesCryptor::new(EncryptAlgo::Aes128, &long_b).unwrap();
    let plain = b"select 1 from dual".to_vec();
    let enc = a.encrypt(&plain);
    assert_eq!(enc, b.encrypt(&plain));
    assert_eq!(b.decrypt(&enc).unwrap(), plain);
    assert_eq!(enc.len(), 32 + 1);
    assert_eq!(*enc.last().unwrap(), 15);
    assert!(AesCryptor::new(EncryptAlgo::Aes256, &long_b).is_err());
}

#[test]
fn oracle10g_verifier_upper_cases_beyond_ascii() {
    assert_eq!(oracle10g_verifier("jürgen", "straße".as_bytes()), oracle10g_verifier("JÜRGEN", "STRASSE".as_bytes()));
    assert_ne!(oracle10g_verifier("jürgen", b"x"), oracle10g_verifier("jurgen", b"x"));
}

#[test]
fn encryption_starts_afresh_for_each_packet() {
    let c = AesCryptor::new(EncryptAlgo::Aes256, &[0x5a; 32]).unwrap();
    let plain: Vec<u8> = (0..40u8).collect();
    let whole = c.encrypt(&plain);
    assert_eq!(whole, c.encrypt(&plain));
    let first = c.encrypt(&plain[..16]);
    assert_eq!(&whole[..16], &first[..16]);
}
