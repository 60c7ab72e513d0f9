//! The second factor of a user: enrollment, confirmation, check and removal.
//!
//! A user's second factor is `Disabled`, `Pending` (a secret was issued and no
//! code has confirmed it yet) or `Enabled`. The functions here decide each
//! transition and give the user as it is to be stored afterwards; reading the
//! user and writing it back are left to whoever holds the store.

use vstd::prelude::*;
use vstd::string::*;
use crate::error::Error;
use crate::otp::{
    base32_bytes, base32_text, code_matches_now, decode_secret, encode_secret, provisioning_secret,
    random_secret, CODE_DIGITS, CODE_HASH, CODE_STEP, MAX_CODE, TOLERATED_INTERVALS,
};
use crate::store::StoreError;
use crate::text::{decimal, digits, int_text};
use crate::user::User;

verus! {

/// Where a user's second factor stands.
#[derive(Clone, Copy, Debug, PartialEq, Eq, Structural, Hash)]
pub enum TfaState {
    Disabled,
    Pending,
    Enabled,
}

/// The address that an authenticator is provisioned with: it names the issuer,
/// the account and the secret.
pub open spec fn enrollment_uri(issuer: Seq<char>, email: Seq<char>, secret: Seq<char>) -> Seq<char> {
    "otpauth://totp/"@ + issuer + ":"@ + email + "?secret="@ + secret + "&issuer="@ + issuer
}

/// The user that a lookup by `id` found: the last of the rows, if there is one and
/// it has that id.
pub open spec fn found(id: i32, rows: Result<Vec<User>, StoreError>) -> Option<User> {
    match rows {
        Ok(list) => if list@.len() > 0 && list@.last().id == id {
            Some(list@.last())
        } else {
            None
        },
        Err(_) => None,
    }
}

/// Whether a stored secret can check codes: it is there, it is base32, and it has
/// at least 16 bytes.
pub open spec fn usable_secret(secret: Option<String>) -> bool {
    secret matches Some(text) && base32_bytes(text@) matches Some(bytes) && bytes.len() >= 16
}

/// Whether a number can be a code: it is not negative and has no more digits
/// than a code has.
pub open spec fn is_code(token: int) -> bool {
    0 <= token <= MAX_CODE
}

/// A run of zeros.
pub open spec fn zeros(n: int) -> Seq<char> {
    Seq::new(
        if n > 0 {
            n as nat
        } else {
            0
        },
        |i: int| '0',
    )
}

/// A number written as a code: its decimal numeral after as many zeros as it
/// takes to fill the digits of a code.
pub open spec fn code_text(token: int) -> Seq<char> {
    zeros(CODE_DIGITS - decimal(token).len()) + decimal(token)
}

/// A number that can be a code is written with exactly as many digits as a
/// code has.
pub proof fn lemma_code_text_fills_the_digits(token: int)
    requires
        is_code(token),
    ensures
        code_text(token).len() == CODE_DIGITS,
{
    reveal_with_fuel(digits, 7);
    assert(decimal(token).len() <= 6);
}

/// Writes a number as a code; there is none for a number that cannot be a code.
pub fn code_numeral(token: i32) -> (text: Option<String>)
    ensures
        text is Some <==> is_code(token as int),
        text matches Some(t) ==> t@ == code_text(token as int),
{
    if token < 0 || token > MAX_CODE {
        return None;
    }
    let numeral = int_text(token as i128);
    let len = numeral.as_str().unicode_len();
    let mut text = String::new();
    let mut i: usize = len;
    while i < CODE_DIGITS
        invariant
            len <= i,
            len < CODE_DIGITS ==> i <= CODE_DIGITS,
            len >= CODE_DIGITS ==> i == len,
            text@ == zeros(i - len),
        decreases CODE_DIGITS - i,
    {
        text.append("0");
        proof {
            reveal_strlit("0");
            assert(text@ =~= zeros(i + 1 - len));
        }
        i += 1;
    }
    assert(text@ =~= zeros(CODE_DIGITS - len));
    text.append(numeral.as_str());
    Some(text)
}

impl User {
    /// Where the user's second factor stands.
    pub open spec fn tfa_state(self) -> TfaState {
        if !self.tfa_enabled {
            TfaState::Disabled
        } else if !self.tfa_verified {
            TfaState::Pending
        } else {
            TfaState::Enabled
        }
    }

    /// Whether `self` is `other` but for the four fields of the second factor.
    pub open spec fn same_but_tfa(self, other: User) -> bool {
        self == User {
            tfa_enabled: self.tfa_enabled,
            tfa_verified: self.tfa_verified,
            tfa_secret: self.tfa_secret,
            tfa_auth_url: self.tfa_auth_url,
            ..other
        }
    }

    /// Whether `self` is `before` newly enrolled with `secret`: `Pending`, holding
    /// the base32 text of the secret and the provisioning address made of the
    /// issuer, the email and that text, and else unchanged.
    pub open spec fn enrolled_with(
        self,
        before: User,
        issuer: Seq<char>,
        email: Seq<char>,
        secret: Seq<u8>,
    ) -> bool {
        &&& self.same_but_tfa(before)
        &&& self.tfa_state() == TfaState::Pending
        &&& self.tfa_secret is Some
        &&& self.tfa_secret.unwrap()@ == base32_text(secret)
        &&& self.tfa_auth_url is Some
        &&& self.tfa_auth_url.unwrap()@ == enrollment_uri(issuer, email, base32_text(secret))
    }

    /// The user with its second factor confirmed.
    pub open spec fn confirmed(self) -> User {
        User { tfa_verified: true, ..self }
    }

    /// The user with its second factor removed.
    pub open spec fn without_tfa(self) -> User {
        User { tfa_enabled: false, tfa_verified: false, tfa_secret: None, tfa_auth_url: None, ..self }
    }

    /// Where the second factor stands.
    pub fn state(&self) -> (state: TfaState)
        ensures
            state == self.tfa_state(),
    {
        if !self.tfa_enabled {
            TfaState::Disabled
        } else if !self.tfa_verified {
            TfaState::Pending
        } else {
            TfaState::Enabled
        }
    }

    /// Picks the user that a lookup by `id` found; `NotFound` where the store
    /// failed, gave no row, or gave a row with another id.
    pub fn find(id: i32, rows: Result<Vec<User>, StoreError>) -> (user: Result<User, Error>)
        ensures
            match user {
                Ok(u) => found(id, rows) == Some(u),
                Err(e) => e == Error::NotFound && found(id, rows) is None,
            },
    {
        match rows {
            Ok(mut list) => {
                match list.pop() {
                    Some(user) => {
                        if user.id == id {
                            Ok(user)
                        } else {
                            Err(Error::NotFound)
                        }
                    },
                    None => Err(Error::NotFound),
                }
            },
            Err(_) => Err(Error::NotFound),
        }
    }

    /// Enrolls the user with a given secret.
    ///
    /// Fails with `AlreadyEnabled` exactly when the second factor is switched on.
    /// Otherwise the user comes back `Pending`: switched on, not confirmed, holding
    /// the base32 text of the secret and the provisioning address made of the
    /// issuer, the email and that text. Nothing else of the user changes.
    pub fn enroll(self, email: &str, issuer: &str, secret: Vec<u8>) -> (enrolled: Result<User, Error>)
        requires
            secret@.len() >= 21,
        ensures
            enrolled is Err <==> self.tfa_enabled,
            enrolled matches Err(e) ==> e == Error::AlreadyEnabled,
            enrolled matches Ok(u) ==> u.enrolled_with(self, issuer@, email@, secret@),
    {
        if self.tfa_enabled {
            return Err(Error::AlreadyEnabled);
        }
        let stored = encode_secret(&secret);
        let shown = match provisioning_secret(CODE_HASH, CODE_DIGITS, TOLERATED_INTERVALS, CODE_STEP, secret) {
            Some(text) => text,
            None => String::new(),
        };
        let mut uri = String::from_str("otpauth://totp/");
        uri.append(issuer);
        uri.append(":");
        uri.append(email);
        uri.append("?secret=");
        uri.append(shown.as_str());
        uri.append("&issuer=");
        uri.append(issuer);
        Ok(User { tfa_enabled: true, tfa_verified: false, tfa_secret: Some(stored), tfa_auth_url: Some(uri), ..self })
    }

    /// Enrolls the user that a lookup by `id` found, with a fresh random secret of
    /// 21 bytes.
    ///
    /// Fails with `NotFound` exactly when the lookup found no such user, and with
    /// `AlreadyEnabled` exactly when that user's second factor is switched on.
    /// Otherwise the user comes back `Pending`, holding the base32 text of some
    /// secret of 21 bytes and the provisioning address made of the issuer, the
    /// email and that text.
    pub fn generate_tfa(id: i32, email: String, issuer: &str, rows: Result<Vec<User>, StoreError>) -> (enrolled:
        Result<User, Error>)
        ensures
            match found(id, rows) {
                None => enrolled == Err::<User, Error>(Error::NotFound),
                Some(before) => if before.tfa_enabled {
                    enrolled == Err::<User, Error>(Error::AlreadyEnabled)
                } else {
                    enrolled is Ok && exists|secret: Seq<u8>|
                        secret.len() == 21 && #[trigger] enrolled.unwrap().enrolled_with(
                            before,
                            issuer@,
                            email@,
                            secret,
                        )
                },
            },
    {
        let user = match User::find(id, rows) {
            Ok(user) => user,
            Err(e) => {
                return Err(e);
            },
        };
        if user.tfa_enabled {
            return Err(Error::AlreadyEnabled);
        }
        let secret = random_secret();
        let ghost bytes = secret@;
        let ghost before = user;
        let enrolled = user.enroll(email.as_str(), issuer, secret);
        proof {
            if enrolled is Ok {
                assert(enrolled.unwrap().enrolled_with(before, issuer@, email@, bytes));
            }
        }
        enrolled
    }

    /// Decides a confirmation, given what the check of the code said.
    ///
    /// Fails with `NotEnabled` exactly when the second factor is switched off, and
    /// with `InvalidToken` exactly when it is switched on and the check did not say
    /// that the code matches. Otherwise the user comes back confirmed, with
    /// nothing else changed.
    pub fn confirm(self, matched: Option<bool>) -> (confirmed: Result<User, Error>)
        ensures
            confirmed == if !self.tfa_enabled {
                Err::<User, Error>(Error::NotEnabled)
            } else if matched == Some(true) {
                Ok(self.confirmed())
            } else {
                Err(Error::InvalidToken)
            },
    {
        if !self.tfa_enabled {
            Err(Error::NotEnabled)
        } else {
            match matched {
                Some(true) => Ok(User { tfa_verified: true, ..self }),
                _ => Err(Error::InvalidToken),
            }
        }
    }

    /// Checks a code against the user's secret and the interval that the clock is
    /// in; `None` where the user has no usable secret, the number cannot be a
    /// code, or the clock cannot be read.
    pub fn check_code(&self, token: i32) -> (matched: Option<bool>)
        ensures
            !usable_secret(self.tfa_secret) || !is_code(token as int) ==> matched is None,
    {
        match self.code_input(token) {
            Some((secret, code)) => code_matches_now(
                CODE_HASH,
                CODE_DIGITS,
                TOLERATED_INTERVALS,
                CODE_STEP,
                secret,
                code.as_str(),
            ),
            None => None,
        }
    }

    /// What a check of a code is made with: the bytes that the user's secret
    /// stands for, and the number written as a code, with leading zeros where
    /// it has fewer digits than a code. There is nothing to check with exactly
    /// where the user has no usable secret or the number cannot be a code.
    pub fn code_input(&self, token: i32) -> (input: Option<(Vec<u8>, String)>)
        ensures
            input is Some <==> usable_secret(self.tfa_secret) && is_code(token as int),
            input matches Some(pair) ==> Some(pair.0@) == base32_bytes(self.tfa_secret.unwrap()@)
                && pair.1@ == code_text(token as int),
    {
        let text = match &self.tfa_secret {
            Some(text) => text,
            None => {
                return None;
            },
        };
        let secret = match decode_secret(text.as_str()) {
            Some(secret) => secret,
            None => {
                return None;
            },
        };
        if secret.len() < 16 {
            return None;
        }
        match code_numeral(token) {
            Some(code) => Some((secret, code)),
            None => None,
        }
    }

    /// Confirms the second factor of the user that a lookup by `id` found, with a
    /// code that must be the one of the current interval.
    ///
    /// Fails with `NotFound` exactly when the lookup found no such user, with
    /// `NotEnabled` exactly when that user's second factor is switched off, and
    /// else with `InvalidToken` when the code did not match, which is always so
    /// where the user has no usable secret or the number cannot be a code. On
    /// success the user comes back confirmed, with nothing else changed.
    pub fn verify_tfa(id: i32, token: i32, rows: Result<Vec<User>, StoreError>) -> (confirmed: Result<
        User,
        Error,
    >)
        ensures
            found(id, rows) is None <==> confirmed == Err::<User, Error>(Error::NotFound),
            (found(id, rows) matches Some(u) && !u.tfa_enabled) <==> confirmed == Err::<User, Error>(
                Error::NotEnabled,
            ),
            confirmed matches Err(e) ==> e == Error::NotFound || e == Error::NotEnabled || e
                == Error::InvalidToken,
            confirmed matches Ok(u) ==> found(id, rows) matches Some(before) && before.tfa_enabled
                && usable_secret(before.tfa_secret) && is_code(token as int) && u
                == before.confirmed(),
    {
        let user = match User::find(id, rows) {
            Ok(user) => user,
            Err(e) => {
                return Err(e);
            },
        };
        if !user.tfa_enabled {
            return Err(Error::NotEnabled);
        }
        let matched = user.check_code(token);
        user.confirm(matched)
    }

    /// Decides a check at login, given what the check of the code said: as
    /// [`User::confirm`], but the user comes back unchanged.
    pub fn allow(self, matched: Option<bool>) -> (allowed: Result<User, Error>)
        ensures
            allowed == if !self.tfa_enabled {
                Err::<User, Error>(Error::NotEnabled)
            } else if matched == Some(true) {
                Ok(self)
            } else {
                Err(Error::InvalidToken)
            },
    {
        if !self.tfa_enabled {
            Err(Error::NotEnabled)
        } else {
            match matched {
                Some(true) => Ok(self),
                _ => Err(Error::InvalidToken),
            }
        }
    }

    /// Checks a code of the user that a lookup by `id` found, and changes nothing.
    ///
    /// Fails as [`User::verify_tfa`] does. On success the user comes back as it
    /// was found.
    pub fn validate_tfa(id: i32, token: i32, rows: Result<Vec<User>, StoreError>) -> (allowed: Result<
        User,
        Error,
    >)
        ensures
            found(id, rows) is None <==> allowed == Err::<User, Error>(Error::NotFound),
            (found(id, rows) matches Some(u) && !u.tfa_enabled) <==> allowed == Err::<User, Error>(
                Error::NotEnabled,
            ),
            allowed matches Err(e) ==> e == Error::NotFound || e == Error::NotEnabled || e
                == Error::InvalidToken,
            allowed matches Ok(u) ==> found(id, rows) == Some(u) && u.tfa_enabled && usable_secret(
                u.tfa_secret,
            ) && is_code(token as int),
    {
        let user = match User::find(id, rows) {
            Ok(user) => user,
            Err(e) => {
                return Err(e);
            },
        };
        if !user.tfa_enabled {
            return Err(Error::NotEnabled);
        }
        let matched = user.check_code(token);
        user.allow(matched)
    }

    /// Removes the user's second factor.
    ///
    /// Fails with `NotEnabled` exactly when it is switched off. Otherwise the user
    /// comes back `Disabled`, with the secret and the provisioning address erased
    /// and nothing else changed.
    pub fn disable(self) -> (disabled: Result<User, Error>)
        ensures
            disabled == if self.tfa_enabled {
                Ok::<User, Error>(self.without_tfa())
            } else {
                Err(Error::NotEnabled)
            },
    {
        if !self.tfa_enabled {
            Err(Error::NotEnabled)
        } else {
            Ok(User { tfa_enabled: false, tfa_verified: false, tfa_secret: None, tfa_auth_url: None, ..self })
        }
    }

    /// Removes the second factor of the user that a lookup by `id` found.
    ///
    /// Fails with `NotFound` exactly when the lookup found no such user, and with
    /// `NotEnabled` exactly when that user's second factor is switched off.
    pub fn disable_tfa(id: i32, rows: Result<Vec<User>, StoreError>) -> (disabled: Result<User, Error>)
        ensures
            disabled == match found(id, rows) {
                None => Err::<User, Error>(Error::NotFound),
                Some(u) => if u.tfa_enabled {
                    Ok(u.without_tfa())
                } else {
                    Err(Error::NotEnabled)
                },
            },
    {
        match User::find(id, rows) {
            Ok(user) => user.disable(),
            Err(e) => Err(e),
        }
    }
}

/// Enrollment leads from `Disabled` to `Pending`, confirmation from `Pending` or
/// `Enabled` to `Enabled`, and removal from either of those back to `Disabled`.
pub proof fn lemma_tfa_transitions(user: User)
    ensures
        user.tfa_enabled ==> user.confirmed().tfa_state() == TfaState::Enabled,
        user.without_tfa().tfa_state() == TfaState::Disabled,
        user.without_tfa().tfa_secret is None && user.without_tfa().tfa_auth_url is None,
        user.confirmed().same_but_tfa(user),
        user.without_tfa().same_but_tfa(user),
{
}

} // verus!
