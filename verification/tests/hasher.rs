use rust_starter::auth::hasher::RuntimeArgon2Hasher;
use rust_starter::configuration::schema::Argon2Settings;

fn test_config() -> Argon2Settings {
    Argon2Settings {
        memory_cost: 4096,
        time_cost: 2,
        parallelism: 1,
    }
}

#[test]
fn hash_and_verify_roundtrip_succeeds() {
    let hasher = RuntimeArgon2Hasher::new(test_config());
    let password = "correct-horse-battery-staple";

    let hash = hasher.hash(password).unwrap();

    assert!(hasher.verify(&hash, password).unwrap());
    assert!(!hasher.verify(&hash, "wrong-password").unwrap());
}

#[test]
fn invalid_hash_fails_cleanly() {
    let hasher = RuntimeArgon2Hasher::new(test_config());
    let error = hasher.verify("not-a-real-hash", "secret").unwrap_err();

    assert!(error.contains("invalid password hash"));
}

#[test]
fn hash_is_an_argon2id_phc_string() {
    let hasher = RuntimeArgon2Hasher::new(test_config());
    let hash = hasher.hash("pw").unwrap();
    assert!(hash.starts_with("$argon2id$v=19$m=4096,t=2,p=1$"));
}

#[test]
fn refused_costs_are_reported_before_hashing() {
    let low_memory = RuntimeArgon2Hasher::new(Argon2Settings { memory_cost: 7, time_cost: 1, parallelism: 1 });
    assert_eq!(low_memory.hash("pw").unwrap_err(), "invalid argon2 config: memory cost is too small");
    let per_lane = RuntimeArgon2Hasher::new(Argon2Settings { memory_cost: 15, time_cost: 1, parallelism: 2 });
    assert_eq!(per_lane.hash("pw").unwrap_err(), "invalid argon2 config: memory cost is too small");
    let no_time = RuntimeArgon2Hasher::new(Argon2Settings { memory_cost: 64, time_cost: 0, parallelism: 1 });
    assert_eq!(no_time.verify("x", "pw").unwrap_err(), "invalid argon2 config: time cost is too small");
    let no_threads = RuntimeArgon2Hasher::new(Argon2Settings { memory_cost: 64, time_cost: 1, parallelism: 0 });
    assert_eq!(no_threads.hash("pw").unwrap_err(), "invalid argon2 config: not enough threads");
    let many = RuntimeArgon2Hasher::new(Argon2Settings { memory_cost: u32::MAX, time_cost: 1, parallelism: 0x100_0000 });
    assert_eq!(many.hash("pw").unwrap_err(), "invalid argon2 config: too many threads");
}

#[test]
fn a_hash_from_other_costs_still_verifies() {
    let a = RuntimeArgon2Hasher::new(test_config());
    let b = RuntimeArgon2Hasher::new(Argon2Settings { memory_cost: 8192, time_cost: 1, parallelism: 1 });
    let hash = a.hash("s3cret").unwrap();
    assert!(b.verify(&hash, "s3cret").unwrap());
}

#[test]
fn hash_names_the_configured_costs() {
    let hasher = RuntimeArgon2Hasher::new(Argon2Settings { memory_cost: 8192, time_cost: 3, parallelism: 2 });
    let hash = hasher.hash("pässwörd").unwrap();
    assert!(hash.starts_with("$argon2id$v=19$m=8192,t=3,p=2$"));
    assert!(hasher.verify(&hash, "pässwörd").unwrap());
}

#[test]
fn oversized_parallelism_in_a_stored_hash_does_not_match() {
    let hasher = RuntimeArgon2Hasher::new(test_config());
    let hash = hasher.hash("pw").unwrap();
    let huge = hash.replacen("p=1$", "p=536870912$", 1);
    assert_eq!(hasher.verify(&huge, "pw"), Ok(false));
    let repeated = hash.replacen("p=1$", "p=1,p=536870912$", 1);
    assert_eq!(hasher.verify(&repeated, "pw"), Ok(false));
    let overridden = hash.replacen("p=1$", "p=536870912,p=1$", 1);
    assert_eq!(hasher.verify(&overridden, "pw"), Ok(true));
    let other = hash.replacen("p=1$", "p=2$", 1);
    assert_eq!(hasher.verify(&other, "pw"), Ok(false));
}

#[test]
fn text_that_is_not_a_phc_string_is_refused() {
    let hasher = RuntimeArgon2Hasher::new(test_config());
    let hash = hasher.hash("pw").unwrap();
    let error = hasher.verify(&hash[1..], "pw").unwrap_err();
    assert!(error.starts_with("invalid password hash: "));
    assert!(hasher.verify("", "pw").unwrap_err().starts_with("invalid password hash: "));
}
