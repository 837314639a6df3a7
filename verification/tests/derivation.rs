use fort_rs::{PasswordError, PasswordGenerator, PasswordGeneratorAlgo, PasswordGeneratorHmac, Site};

const ALL: &str = "AEIOUaeiouBCDFGHJKLMNPQRSTVWXYZbcdfghjklmnpqrstvwxyz0123456789!@#$%^&*()[]{}<>";
const ALPHANUMERIC: &str = "AEIOUaeiouBCDFGHJKLMNPQRSTVWXYZbcdfghjklmnpqrstvwxyz0123456789";

fn generator(algo: PasswordGeneratorAlgo, passphrase: &str) -> PasswordGenerator {
    PasswordGenerator::new(algo, passphrase, None).expect("generator construction")
}

#[test]
fn derive_is_deterministic() {
    let mut g1 = generator(PasswordGeneratorAlgo::Sha512, "correct horse battery staple");
    let mut g2 = generator(PasswordGeneratorAlgo::Sha512, "correct horse battery staple");
    let p1 = g1.create_site_password_raw("example.com", 3, "All", 32).unwrap();
    let p2 = g2.create_site_password_raw("example.com", 3, "All", 32).unwrap();
    assert_eq!(p1, p2);
    let p3 = g1.create_site_password_raw("example.com", 3, "All", 32).unwrap();
    assert_eq!(p1, p3);
}

#[test]
fn distinct_sites_and_counters_diverge() {
    let mut g = generator(PasswordGeneratorAlgo::Sha512, "hunter2");
    let mut passwords: Vec<String> = Vec::new();
    for i in 0..100 {
        let site = format!("site-{}.example", i);
        passwords.push(g.create_site_password_raw(&site, 0, "All", 64).unwrap());
    }
    for c in 1..11u32 {
        passwords.push(g.create_site_password_raw("site-0.example", c, "All", 64).unwrap());
    }
    for i in 0..passwords.len() {
        for j in (i + 1)..passwords.len() {
            assert_ne!(passwords[i], passwords[j]);
        }
    }
}

#[test]
fn password_characters_come_from_the_alphabet() {
    let mut g = generator(PasswordGeneratorAlgo::Sha3, "pass");
    let p = g.create_site_password_raw("example.com", 0, "Alphanumeric", 64).unwrap();
    for c in p.chars() {
        assert!(ALPHANUMERIC.contains(c));
    }
    let p = g.create_site_password_raw("example.com", 0, "All", 64).unwrap();
    for c in p.chars() {
        assert!(ALL.contains(c));
    }
}

#[test]
fn length_contract() {
    let mut g = generator(PasswordGeneratorAlgo::Sha512, "pass");
    for n in [0u32, 1, 16, 63, 64] {
        let p = g.create_site_password_raw("example.com", 0, "All", n).unwrap();
        assert_eq!(p.chars().count(), n as usize);
    }
    let r = g.create_site_password_raw("example.com", 0, "All", 65);
    assert_eq!(r.unwrap_err(), PasswordError::InvalidLength);
    let r = g.create_site_password_raw("example.com", 0, "All", 1000);
    assert_eq!(r.unwrap_err(), PasswordError::InvalidLength);
}

#[test]
fn truncation_is_a_prefix_of_the_full_password() {
    let mut g = generator(PasswordGeneratorAlgo::Sha512, "pass");
    let full = g.create_site_password_raw("example.com", 0, "All", 64).unwrap();
    let short = g.create_site_password_raw("example.com", 0, "All", 10).unwrap();
    assert!(full.starts_with(&short));
}

#[test]
fn unknown_template_is_reported_and_generator_stays_usable() {
    let mut g = generator(PasswordGeneratorAlgo::Sha512, "pass");
    let r = g.create_site_password_raw("example.com", 0, "NoSuchTemplate", 16);
    assert_eq!(r.unwrap_err(), PasswordError::TemplateNotFound);
    let p = g.create_site_password_raw("example.com", 0, "All", 16).unwrap();
    assert_eq!(p.chars().count(), 16);
}

#[test]
fn empty_alphabet_is_reported() {
    let mut h = PasswordGeneratorHmac::new(PasswordGeneratorAlgo::Sha512, "pass").unwrap();
    let empty: Vec<char> = Vec::new();
    let r = h.create_site_password("example.com", 0, &empty, 16);
    assert_eq!(r.unwrap_err(), PasswordError::EmptyAlphabet);
    let alphabet: Vec<char> = ALL.chars().collect();
    let p = h.create_site_password("example.com", 0, &alphabet, 16).unwrap();
    assert_eq!(p.chars().count(), 16);
}

#[test]
fn construction_succeeds_for_any_passphrase() {
    let mut g = generator(PasswordGeneratorAlgo::Sha512, "");
    let p = g.create_site_password_raw("example.com", 0, "All", 16).unwrap();
    assert_eq!(p.chars().count(), 16);
    assert!(PasswordGeneratorHmac::new(PasswordGeneratorAlgo::Sha3, "").is_ok());
}

#[test]
fn algorithms_diverge() {
    let mut g1 = generator(PasswordGeneratorAlgo::Sha512, "pass");
    let mut g2 = generator(PasswordGeneratorAlgo::Sha3, "pass");
    let p1 = g1.create_site_password_raw("example.com", 0, "All", 64).unwrap();
    let p2 = g2.create_site_password_raw("example.com", 0, "All", 64).unwrap();
    assert_ne!(p1, p2);
}

#[test]
fn algorithm_selector_parsing() {
    assert_eq!(
        PasswordGeneratorAlgo::from_name("Sha512").unwrap(),
        PasswordGeneratorAlgo::Sha512
    );
    assert_eq!(PasswordGeneratorAlgo::from_name("Sha3").unwrap(), PasswordGeneratorAlgo::Sha3);
    assert_eq!(
        PasswordGeneratorAlgo::from_name("Md5").unwrap_err(),
        PasswordError::UnsupportedAlgorithm
    );
    assert_eq!(
        PasswordGeneratorAlgo::from_name("").unwrap_err(),
        PasswordError::UnsupportedAlgorithm
    );
}

#[test]
fn key_derivation_error_is_described() {
    assert_eq!(
        PasswordError::KeyDerivation.describe(),
        "Master key derivation failed."
    );
    assert_eq!(
        PasswordError::TemplateNotFound.describe(),
        "Password template not found."
    );
}

#[test]
fn overlay_settings_are_used() {
    let sites = vec![(
        "example.com".to_string(),
        Site::new(7, "Alphanumeric".to_string(), 20),
    )];
    let mut g =
        PasswordGenerator::new(PasswordGeneratorAlgo::Sha512, "pass", Some(sites)).unwrap();
    let via_overlay = g.create_site_password("example.com").unwrap();
    let via_raw = g.create_site_password_raw("example.com", 7, "Alphanumeric", 20).unwrap();
    assert_eq!(via_overlay, via_raw);
    assert_eq!(via_overlay.chars().count(), 20);
}

#[test]
fn defaults_apply_without_overlay_entry() {
    let sites = vec![(
        "other.org".to_string(),
        Site::new(7, "Alphanumeric".to_string(), 20),
    )];
    let mut g =
        PasswordGenerator::new(PasswordGeneratorAlgo::Sha512, "pass", Some(sites)).unwrap();
    let for_unlisted = g.create_site_password("example.com").unwrap();
    let with_defaults = g.create_site_password_raw("example.com", 0, "All", 64).unwrap();
    assert_eq!(for_unlisted, with_defaults);
}

#[test]
fn overlay_template_can_be_missing() {
    let sites = vec![(
        "example.com".to_string(),
        Site::new(0, "NoSuchTemplate".to_string(), 16),
    )];
    let mut g =
        PasswordGenerator::new(PasswordGeneratorAlgo::Sha512, "pass", Some(sites)).unwrap();
    let r = g.create_site_password("example.com");
    assert_eq!(r.unwrap_err(), PasswordError::TemplateNotFound);
    let p = g.create_site_password("unlisted.example").unwrap();
    assert_eq!(p.chars().count(), 64);
}

#[test]
fn template_names_are_listed() {
    let g = generator(PasswordGeneratorAlgo::Sha512, "pass");
    let names = g.template_names();
    assert_eq!(names, vec!["All".to_string(), "Alphanumeric".to_string()]);
}

#[test]
fn golden_vector() {
    let mut g = generator(PasswordGeneratorAlgo::Sha512, "correct horse battery staple");
    let p = g.create_site_password_raw("example.com", 0, "Alphanumeric", 16).unwrap();
    assert_eq!(p, "adeOXP5QEF6MQV1s");
}
