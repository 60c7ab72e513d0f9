use reservations::error::Error;
use reservations::moment::DateTime;
use reservations::store::StoreError;
use reservations::otp::{CodeHash, CODE_DIGITS, CODE_HASH, CODE_STEP, MAX_CODE, TOLERATED_INTERVALS};
use reservations::tfa::{code_numeral, TfaState};
use reservations::user::User;
use totp_rs::{Algorithm, Secret, TOTP};

fn user(id: i32) -> User {
    let at = DateTime::new(1_700_000_000, 0).unwrap();
    User {
        id,
        user_name: "ana".to_string(),
        email: Some("ana@example.com".to_string()),
        phone: None,
        password: "hash".to_string(),
        role_id: 2,
        tfa_enabled: false,
        tfa_verified: false,
        tfa_secret: None,
        tfa_auth_url: None,
        created_at: at,
        updated_at: at,
    }
}

fn is_base32(text: &str) -> bool {
    !text.is_empty() && text.chars().all(|c| c.is_ascii_uppercase() || ('2'..='7').contains(&c))
}

fn generator(secret: &str) -> TOTP {
    TOTP::new(Algorithm::SHA1, 6, 0, 30, Secret::Encoded(secret.to_string()).to_bytes().unwrap()).unwrap()
}

/// A user enrolled with some secret, and the code of that secret for the
/// current interval, read as a number.
fn enrolled_with_current_code() -> (User, i32) {
    let secret: Vec<u8> = (0..21u8).map(|i| i.wrapping_mul(7)).collect();
    let enrolled = user(5).enroll("ana@example.com", "Inn", secret).unwrap();
    let code = generator(enrolled.tfa_secret.as_ref().unwrap()).generate_current().unwrap();
    (enrolled, code.parse().unwrap())
}

/// A user enrolled with a secret whose code for the current interval starts
/// with a zero, and that code read as a number.
fn enrolled_with_leading_zero() -> (User, i32) {
    for seed in 0u16..2000 {
        let secret: Vec<u8> = (0..21u16).map(|i| (i * 7 + seed * 13 + seed / 256) as u8).collect();
        let enrolled = user(5).enroll("ana@example.com", "Inn", secret).unwrap();
        let code = generator(enrolled.tfa_secret.as_ref().unwrap()).generate_current().unwrap();
        if code.starts_with('0') {
            return (enrolled, code.parse().unwrap());
        }
    }
    panic!("no secret gave a code with a leading zero");
}

#[test]
fn states_follow_the_two_flags() {
    let mut u = user(1);
    assert_eq!(u.state(), TfaState::Disabled);
    u.tfa_verified = true;
    assert_eq!(u.state(), TfaState::Disabled);
    u.tfa_enabled = true;
    assert_eq!(u.state(), TfaState::Enabled);
    u.tfa_verified = false;
    assert_eq!(u.state(), TfaState::Pending);
}

#[test]
fn enroll_with_known_secret() {
    let before = user(5);
    let after = before.clone().enroll("ana@example.com", "Inn", b"foobarfoobarfoobarfoo".to_vec()).unwrap();
    assert!(after.tfa_enabled);
    assert!(!after.tfa_verified);
    assert_eq!(after.state(), TfaState::Pending);
    assert_eq!(after.tfa_secret.as_deref(), Some("MZXW6YTBOJTG633CMFZGM33PMJQXEZTPN4"));
    assert_eq!(
        after.tfa_auth_url.as_deref(),
        Some("otpauth://totp/Inn:ana@example.com?secret=MZXW6YTBOJTG633CMFZGM33PMJQXEZTPN4&issuer=Inn")
    );
    let restored = User {
        tfa_enabled: false,
        tfa_verified: false,
        tfa_secret: None,
        tfa_auth_url: None,
        ..after
    };
    assert_eq!(restored, before);
}

#[test]
fn enroll_resets_a_stale_confirmation() {
    let mut before = user(5);
    before.tfa_verified = true;
    let after = before.enroll("a@b.c", "Inn", (1..=21).collect()).unwrap();
    assert!(!after.tfa_verified);
    assert_eq!(after.tfa_secret.as_deref(), Some("AEBAGBAFAYDQQCIKBMGA2DQPCAIREEYUCU"));
}

#[test]
fn enroll_fails_when_already_enabled() {
    let mut pending = user(5);
    pending.tfa_enabled = true;
    assert_eq!(pending.clone().enroll("a@b.c", "Inn", vec![1; 21]).err(), Some(Error::AlreadyEnabled));
    pending.tfa_verified = true;
    assert_eq!(pending.enroll("a@b.c", "Inn", vec![1; 21]).err(), Some(Error::AlreadyEnabled));
}

#[test]
fn enrollment_returns_uri_with_email_and_base32_secret() {
    let after = User::generate_tfa(5, "ana@example.com".to_string(), "Inn", Ok(vec![user(5)])).unwrap();
    assert!(after.tfa_enabled);
    assert!(!after.tfa_verified);
    let secret = after.tfa_secret.clone().unwrap();
    assert!(is_base32(&secret));
    assert_eq!(secret.len(), 34);
    assert_eq!(Secret::Encoded(secret.clone()).to_bytes().unwrap().len(), 21);
    let uri = after.tfa_auth_url.clone().unwrap();
    assert!(uri.contains("ana@example.com"));
    assert_eq!(uri, format!("otpauth://totp/Inn:ana@example.com?secret={}&issuer=Inn", secret));
    assert_eq!(after.id, 5);
    assert_eq!(after.user_name, "ana");
}

#[test]
fn enrollment_draws_a_fresh_secret_each_time() {
    let a = User::generate_tfa(5, "a@b.c".to_string(), "Inn", Ok(vec![user(5)])).unwrap();
    let b = User::generate_tfa(5, "a@b.c".to_string(), "Inn", Ok(vec![user(5)])).unwrap();
    assert_ne!(a.tfa_secret, b.tfa_secret);
}

#[test]
fn enrollment_of_a_missing_user_is_not_found() {
    assert_eq!(
        User::generate_tfa(5, "a@b.c".to_string(), "Inn", Ok(vec![])).err(),
        Some(Error::NotFound)
    );
    assert_eq!(
        User::generate_tfa(5, "a@b.c".to_string(), "Inn", Err(StoreError::Unavailable)).err(),
        Some(Error::NotFound)
    );
    assert_eq!(
        User::generate_tfa(5, "a@b.c".to_string(), "Inn", Ok(vec![user(6)])).err(),
        Some(Error::NotFound)
    );
}

#[test]
fn enrollment_of_an_enabled_user_is_refused() {
    let mut enabled = user(5);
    enabled.tfa_enabled = true;
    assert_eq!(
        User::generate_tfa(5, "a@b.c".to_string(), "Inn", Ok(vec![enabled])).err(),
        Some(Error::AlreadyEnabled)
    );
}

#[test]
fn lookup_takes_the_last_row() {
    assert_eq!(User::find(5, Ok(vec![user(4), user(5)])).unwrap().id, 5);
    assert_eq!(User::find(5, Ok(vec![user(5), user(4)])).err(), Some(Error::NotFound));
}

#[test]
fn verify_with_the_current_code_confirms() {
    let mut last = None;
    for _ in 0..2 {
        let (enrolled, code) = enrolled_with_current_code();
        let outcome = User::verify_tfa(5, code, Ok(vec![enrolled.clone()]));
        if let Ok(confirmed) = &outcome {
            assert!(confirmed.tfa_verified);
            assert_eq!(confirmed.state(), TfaState::Enabled);
            assert_eq!(User { tfa_verified: false, ..confirmed.clone() }, enrolled);
            return;
        }
        last = Some(outcome);
    }
    panic!("the current code was refused twice: {:?}", last);
}

#[test]
fn verify_with_a_wrong_code_is_invalid_and_changes_nothing() {
    let (enrolled, code) = enrolled_with_current_code();
    let wrong = if code == 999_999 { 0 } else { code + 1 };
    assert_eq!(User::verify_tfa(5, wrong, Ok(vec![enrolled.clone()])).err(), Some(Error::InvalidToken));
    assert_eq!(User::validate_tfa(5, wrong, Ok(vec![enrolled.clone()])).err(), Some(Error::InvalidToken));
    assert_eq!(enrolled.check_code(wrong), Some(false));
    assert_eq!(enrolled.clone().confirm(Some(false)).err(), Some(Error::InvalidToken));
    assert!(!enrolled.tfa_verified);
}

#[test]
fn validate_with_the_current_code_returns_the_user_unchanged() {
    for _ in 0..2 {
        let (enrolled, code) = enrolled_with_current_code();
        if let Ok(same) = User::validate_tfa(5, code, Ok(vec![enrolled.clone()])) {
            assert_eq!(same, enrolled);
            return;
        }
    }
    panic!("the current code was refused twice");
}

#[test]
fn verify_when_not_enabled() {
    assert_eq!(User::verify_tfa(5, 123_456, Ok(vec![user(5)])).err(), Some(Error::NotEnabled));
    assert_eq!(User::validate_tfa(5, 123_456, Ok(vec![user(5)])).err(), Some(Error::NotEnabled));
    assert_eq!(user(5).confirm(Some(true)).err(), Some(Error::NotEnabled));
    assert_eq!(user(5).allow(Some(true)).err(), Some(Error::NotEnabled));
}

#[test]
fn verify_of_a_missing_user_is_not_found() {
    assert_eq!(User::verify_tfa(5, 1, Ok(vec![])).err(), Some(Error::NotFound));
    assert_eq!(User::verify_tfa(5, 1, Err(StoreError::NotFound)).err(), Some(Error::NotFound));
    assert_eq!(User::validate_tfa(5, 1, Ok(vec![user(9)])).err(), Some(Error::NotFound));
}

#[test]
fn unusable_secret_never_matches() {
    let mut broken = user(5);
    broken.tfa_enabled = true;
    assert_eq!(broken.check_code(123_456), None);
    assert_eq!(User::verify_tfa(5, 123_456, Ok(vec![broken.clone()])).err(), Some(Error::InvalidToken));
    broken.tfa_secret = Some("not base32!".to_string());
    assert_eq!(broken.check_code(123_456), None);
    broken.tfa_secret = Some("MZXW6YTBOI".to_string());
    assert_eq!(broken.check_code(123_456), None);
    assert_eq!(User::verify_tfa(5, 123_456, Ok(vec![broken])).err(), Some(Error::InvalidToken));
}

#[test]
fn confirm_decides_by_the_match() {
    let mut pending = user(5);
    pending.tfa_enabled = true;
    pending.tfa_secret = Some("S".to_string());
    let confirmed = pending.clone().confirm(Some(true)).unwrap();
    assert!(confirmed.tfa_verified);
    assert_eq!(confirmed.tfa_secret, pending.tfa_secret);
    assert_eq!(pending.clone().confirm(Some(false)).err(), Some(Error::InvalidToken));
    assert_eq!(pending.clone().confirm(None).err(), Some(Error::InvalidToken));
    assert_eq!(pending.clone().allow(Some(true)).unwrap(), pending);
    assert_eq!(pending.clone().allow(None).err(), Some(Error::InvalidToken));
}

#[test]
fn disable_erases_secret_and_address() {
    let enrolled = user(5).enroll("a@b.c", "Inn", vec![9; 21]).unwrap();
    let confirmed = enrolled.confirm(Some(true)).unwrap();
    let disabled = User::disable_tfa(5, Ok(vec![confirmed])).unwrap();
    assert_eq!(disabled, user(5));
    assert_eq!(disabled.state(), TfaState::Disabled);
}

#[test]
fn disable_when_not_enabled() {
    assert_eq!(user(5).disable().err(), Some(Error::NotEnabled));
    assert_eq!(User::disable_tfa(5, Ok(vec![user(5)])).err(), Some(Error::NotEnabled));
    assert_eq!(User::disable_tfa(5, Ok(vec![])).err(), Some(Error::NotFound));
}

#[test]
fn disabled_user_may_enroll_again() {
    let first = user(5).enroll("a@b.c", "Inn", vec![9; 21]).unwrap();
    let off = first.disable().unwrap();
    let second = off.enroll("a@b.c", "Inn", vec![8; 21]).unwrap();
    assert_eq!(second.state(), TfaState::Pending);
}

#[test]
fn a_code_is_checked_with_the_decoded_secret_and_six_digits() {
    let enrolled = user(5).enroll("a@b.c", "Inn", b"foobarfoobarfoobarfoo".to_vec()).unwrap();
    assert_eq!(
        enrolled.code_input(123_456),
        Some((b"foobarfoobarfoobarfoo".to_vec(), "123456".to_string()))
    );
    assert_eq!(enrolled.code_input(12_345).unwrap().1, "012345");
    assert_eq!(enrolled.code_input(7).unwrap().1, "000007");
    assert_eq!(enrolled.code_input(0).unwrap().1, "000000");
    assert_eq!(enrolled.code_input(999_999).unwrap().1, "999999");
}

#[test]
fn codes_are_written_with_six_digits() {
    assert_eq!(code_numeral(0).as_deref(), Some("000000"));
    assert_eq!(code_numeral(5).as_deref(), Some("000005"));
    assert_eq!(code_numeral(42).as_deref(), Some("000042"));
    assert_eq!(code_numeral(100_000).as_deref(), Some("100000"));
    assert_eq!(code_numeral(999_999).as_deref(), Some("999999"));
    assert_eq!(code_numeral(1_000_000), None);
    assert_eq!(code_numeral(-1), None);
    assert_eq!(code_numeral(i32::MAX), None);
    assert_eq!(code_numeral(i32::MIN), None);
}

#[test]
fn a_number_that_is_no_code_is_never_accepted() {
    let (enrolled, _) = enrolled_with_current_code();
    for token in [-1, -123_456, 1_000_000, i32::MAX, i32::MIN] {
        assert_eq!(enrolled.code_input(token), None);
        assert_eq!(enrolled.check_code(token), None);
        assert_eq!(User::verify_tfa(5, token, Ok(vec![enrolled.clone()])).err(), Some(Error::InvalidToken));
    }
}

#[test]
fn a_correct_code_with_a_leading_zero_is_accepted() {
    let mut last = None;
    for _ in 0..2 {
        let (enrolled, code) = enrolled_with_leading_zero();
        assert!(code < 100_000);
        let outcome = User::verify_tfa(5, code, Ok(vec![enrolled.clone()]));
        if let Ok(confirmed) = &outcome {
            assert!(confirmed.tfa_verified);
            return;
        }
        last = Some(outcome);
    }
    panic!("the current code was refused twice: {:?}", last);
}

#[test]
fn the_rules_of_a_code() {
    assert_eq!(CODE_HASH, CodeHash::Sha1);
    assert_eq!(CODE_DIGITS, 6);
    assert_eq!(CODE_STEP, 30);
    assert_eq!(TOLERATED_INTERVALS, 0);
    assert_eq!(MAX_CODE, 999_999);
}

#[test]
fn the_code_of_the_interval_before_is_not_accepted() {
    let (enrolled, _) = enrolled_with_current_code();
    let totp = generator(enrolled.tfa_secret.as_ref().unwrap());
    let now = std::time::SystemTime::now().duration_since(std::time::UNIX_EPOCH).unwrap().as_secs();
    let current = totp.generate(now);
    let before = totp.generate(now - 30);
    if before != current && totp.generate(now + 30) != before {
        assert_eq!(enrolled.check_code(before.parse().unwrap()), Some(false));
    }
}

#[test]
fn nothing_to_check_a_code_with_where_the_secret_is_unusable() {
    let mut broken = user(5);
    assert_eq!(broken.code_input(1), None);
    broken.tfa_secret = Some("not base32!".to_string());
    assert_eq!(broken.code_input(1), None);
    broken.tfa_secret = Some("MZXW6YTBOI".to_string());
    assert_eq!(broken.code_input(1), None);
    broken.tfa_secret = Some("MZXW6YTBOJTG633CMFZGM33PMJQQ".to_string());
    assert!(broken.code_input(1).is_some());
}
