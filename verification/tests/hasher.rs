use z3_app::hasher::{hash, is_admissible, verify, MAX_LANE_DIGITS, MAX_PLAINTEXT_LEN};

#[test]
fn hash_then_verify_round_trip() {
    for plaintext in ["secret123", "", "pässwörd with spaces", "a"] {
        let stored = hash(plaintext);
        assert!(verify(plaintext, &stored), "{plaintext:?} must verify against its own hash");
    }
}

#[test]
fn verify_rejects_another_password() {
    let stored = hash("secret123");
    assert!(!verify("wrong", &stored));
    assert!(!verify("secret1234", &stored));
    assert!(!verify("", &stored));
    assert!(!verify("Secret123", &stored));
}

#[test]
fn hash_is_salted() {
    let first = hash("secret123");
    let second = hash("secret123");
    assert_ne!(first, second);
    assert!(verify("secret123", &first));
    assert!(verify("secret123", &second));
}

#[test]
fn hash_is_tagged_and_hides_the_plaintext() {
    let stored = hash("secret123");
    assert_ne!(stored, "secret123");
    assert!(stored.starts_with("$argon2"));
    assert!(!stored.contains("secret123"));
}

#[test]
fn verify_treats_a_malformed_hash_as_a_mismatch() {
    assert!(!verify("secret123", ""));
    assert!(!verify("secret123", "not a hash"));
    assert!(!verify("secret123", "secret123"));
    assert!(!verify("secret123", "$argon2id$"));
    assert!(!verify("", ""));
}

#[test]
fn plaintext_limit_is_four_gibibytes_less_one() {
    assert_eq!(MAX_PLAINTEXT_LEN as u64, 4_294_967_295u64);
}

fn phc(params: &str) -> String {
    let salt = "c29tZXNhbHQ";
    let output = "A".repeat(43);
    format!("$argon2id$v=19${params}${salt}${output}")
}

#[test]
fn every_hash_made_is_admissible() {
    for plaintext in ["", "secret123", "p=999999999", "pässwörd"] {
        let stored = hash(plaintext);
        assert!(is_admissible(&stored), "{stored:?} must be admissible");
    }
}

#[test]
fn a_stored_string_must_begin_with_a_dollar_and_be_ascii() {
    assert!(!is_admissible(""));
    assert!(!is_admissible("not a hash"));
    assert!(!is_admissible("argon2id$v=19$m=8,t=1,p=1"));
    assert!(!is_admissible(" $argon2id"));
    assert!(!is_admissible("$argon2id$v=19$m=8,t=1,p=1$sält"));
    assert!(!is_admissible("é"));
    assert!(is_admissible("$"));
    assert!(is_admissible("$argon2id"));
    assert!(is_admissible("$p"));
    assert!(is_admissible("$p="));
    assert!(is_admissible("$=p"));
}

#[test]
fn the_degree_of_parallelism_has_at_most_eight_digits() {
    assert_eq!(MAX_LANE_DIGITS, 8);
    assert!(is_admissible(&phc("m=19456,t=2,p=1")));
    assert!(is_admissible(&phc("m=19456,t=2,p=16777215")));
    assert!(is_admissible(&phc("m=19456,t=2,p=99999999")));
    assert!(!is_admissible(&phc("m=19456,t=2,p=100000000")));
    assert!(!is_admissible(&phc("m=19456,t=2,p=536870912")));
    assert!(!is_admissible(&phc("m=4294967295,t=2,p=4294967295")));
    assert!(!is_admissible(&phc("p=000000000")));
    assert!(!is_admissible(&phc("p=1,p=536870912")));
    assert!(!is_admissible(&phc("p=536870912,p=1")));
    assert!(!is_admissible("$p=1234567890"));
    assert!(!is_admissible("$xp=123456789"));
    assert!(is_admissible(&phc("m=4294967295,t=4294967295,p=1")));
    assert!(is_admissible(&phc("m=123456789,t=2,p=12345678,keyid=123456789")));
    assert!(is_admissible("$p=12345678x9"));
    assert!(is_admissible("$p=1234p=5678"));
    assert!(is_admissible("$p 123456789"));
    assert!(is_admissible("$P=123456789"));
}

#[test]
fn verify_refuses_a_hash_that_asks_for_too_many_lanes() {
    for lanes in ["536870912", "536870913", "1073741824", "4294967295", "99999999999"] {
        let stored = phc(&format!("m=4294967295,t=1,p={lanes}"));
        assert!(!verify("secret123", &stored), "p={lanes} must be refused");
        assert!(!verify("", &stored));
    }
}

#[test]
fn verify_refuses_hashes_that_parse_but_were_not_made_for_the_password() {
    assert!(!verify("secret123", &phc("m=19456,t=2,p=1")));
    assert!(!verify("secret123", &phc("m=8,t=1,p=1")));
    assert!(!verify("secret123", &phc("m=7,t=1,p=1")));
    assert!(!verify("secret123", &phc("m=8,t=0,p=1")));
    assert!(!verify("secret123", &phc("m=8,t=1,p=0")));
    assert!(!verify("secret123", &phc("m=8,t=1,p=2")));
    assert!(!verify("secret123", &phc("m=8,t=1,p=16777216")));
    assert!(!verify("secret123", &phc("m=8,t=1,p=99999999")));
    assert!(!verify("secret123", "$argon2id$v=19$m=8,t=1,p=1"));
    assert!(!verify("secret123", "$"));
}
