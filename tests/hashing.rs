use user_auth::hasher::{Hasher, DEFAULT_COST};

fn fast_hasher() -> Hasher {
    Hasher::new(4).unwrap()
}

#[test]
fn hash_then_verify_accepts_the_same_password() {
    let h = fast_hasher();
    let stored = h.hash("secret1").unwrap();
    assert!(h.verify("secret1", &stored));
}

#[test]
fn hash_then_verify_rejects_another_password() {
    let h = fast_hasher();
    let stored = h.hash("secret1").unwrap();
    assert!(!h.verify("secret2", &stored));
    assert!(!h.verify("wrong1", &stored));
}

#[test]
fn hashing_twice_gives_different_digests() {
    let h = fast_hasher();
    let a = h.hash("secret1").unwrap();
    let b = h.hash("secret1").unwrap();
    assert_ne!(a, b);
    assert_ne!(a, "secret1");
    assert!(h.verify("secret1", &a));
    assert!(h.verify("secret1", &b));
}

#[test]
fn malformed_digest_verifies_nothing() {
    let h = fast_hasher();
    assert!(!h.verify("secret1", "not a bcrypt digest"));
    assert!(!h.verify("secret1", ""));
    assert!(!h.verify("secret1", "secret1"));
}

#[test]
fn cost_must_be_in_range() {
    assert!(Hasher::new(3).is_none());
    assert!(Hasher::new(32).is_none());
    assert_eq!(Hasher::new(4).unwrap().cost, 4);
    assert_eq!(Hasher::new(DEFAULT_COST).unwrap().cost, 12);
    assert!(Hasher { cost: 2 }.hash("secret1").is_none());
}

#[test]
fn digest_carries_the_cost() {
    let d4 = fast_hasher().hash("secret1").unwrap();
    assert!(d4.starts_with("$2b$04$"));
    assert_eq!(d4.len(), 60);
    let d5 = Hasher::new(5).unwrap().hash("secret1").unwrap();
    assert!(d5.starts_with("$2b$05$"));
    assert_eq!(d5.len(), 60);
}
