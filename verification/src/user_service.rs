//! Accounts: login, registration, and the second factor, as a conversation
//! with the store.
//!
//! Each operation starts with a function that says what to ask the store first.
//! Whoever holds the store performs the request and hands the reply to
//! [`resume`], which says what to ask next, or how the operation ended.

use vstd::prelude::*;
use vstd::string::*;
use crate::api::{DetailLevel, LoginResponse};
use crate::credential::{hash_password, hashable, password_verifies, verify_password};
use crate::error::Error;
use crate::filter::{ConditionModel, ListQuery, Operator, Predicate};
use crate::store::{Reply, Request, StoreError};
use crate::tfa::{found, is_code, usable_secret};
use crate::user::{RequiredLoginUser, RequiredRegisterUser, User, UserData};

verus! {

/// Where an operation stands while the store works.
#[derive(Debug, PartialEq, Eq)]
pub enum Flow {
    /// The account of a login is being read.
    LoggingIn { password: String, tfa_code: Option<i32> },
    /// A new account is being written.
    Registering,
    /// The user to enroll is being read.
    Enrolling { id: i32, email: String, issuer: String },
    /// The enrolled user is being written.
    SavingEnrollment,
    /// The user to confirm is being read.
    Confirming { id: i32, token: i32 },
    /// The confirmed user is being written.
    SavingConfirmation,
    /// The user to take the second factor from is being read.
    Disabling { id: i32 },
    /// The user without second factor is being written.
    SavingRemoval,
}

/// How an operation ended well.
#[derive(Debug, PartialEq, Eq)]
pub enum Outcome {
    /// The login is good; a token may be issued to this user.
    Authenticated(User),
    /// The account was opened; this is what its owner may know of it.
    Registered(UserData),
    /// The second factor was issued; this address provisions an authenticator.
    Enrollment(String),
    /// The second factor was confirmed.
    Confirmed(UserData),
    /// The second factor was removed; the text says so.
    Disabled(String),
}

/// What comes next: a request for the store, or the end.
#[derive(Debug, PartialEq, Eq)]
pub enum Step {
    Ask(Flow, Request),
    Done(Result<Outcome, Error>),
}

/// By which field, and which value of it, a login names its account: by the
/// phone where there is one, else by the email.
pub open spec fn login_key(data: RequiredLoginUser) -> Option<(Seq<char>, Seq<char>)> {
    if data.phone is Some {
        Some(("phone"@, data.phone.unwrap()@))
    } else if data.email is Some {
        Some(("email"@, data.email.unwrap()@))
    } else {
        None
    }
}

/// How a login ends, given the rows found for its account.
///
/// No row, or a failing store, is `NotFound`. An account whose second factor is
/// switched on and confirmed asks for a code: without one the login ends with
/// `TfaRequired`, which comes before the password is looked at. Else the
/// password decides.
pub open spec fn login_verdict(
    password: Seq<char>,
    tfa_code: Option<i32>,
    rows: Result<Vec<User>, StoreError>,
) -> Result<User, Error> {
    match rows {
        Err(_) => Err(Error::NotFound),
        Ok(list) => if list@.len() == 0 {
            Err(Error::NotFound)
        } else {
            let user = list@.last();
            if tfa_code is None && user.tfa_enabled && user.tfa_verified {
                Err(Error::TfaRequired)
            } else if password_verifies(password, user.password@) == Some(true) {
                Ok(user)
            } else {
                Err(Error::InvalidCredentials)
            }
        },
    }
}

/// The record of a new account: the name, the email, the phone, the hashed
/// password and the role, and nothing else.
pub open spec fn is_registration(
    record: UserData,
    data: RequiredRegisterUser,
    hash: Seq<char>,
    role_id: i32,
) -> bool {
    &&& record.user_name == Some(data.user_name)
    &&& record.email == Some(data.email)
    &&& record.phone == Some(data.phone)
    &&& record.password is Some
    &&& record.password.unwrap()@ == hash
    &&& record.role_id == Some(role_id)
    &&& record.id is None
    &&& record.tfa_enabled is None
    &&& record.tfa_verified is None
    &&& record.tfa_secret is None
    &&& record.tfa_auth_url is None
    &&& record.created_at is None
    &&& record.updated_at is None
}

/// The request that writes a user's second factor as the user holds it.
pub open spec fn save_of(user: User) -> Request {
    Request::SaveTfa {
        user_id: user.id,
        enabled: user.tfa_enabled,
        verified: user.tfa_verified,
        secret: user.tfa_secret,
        auth_url: user.tfa_auth_url,
    }
}

/// What the owner of an account may know of it after a write, or why the write
/// failed.
pub open spec fn shown_to_owner(saved: Result<User, StoreError>) -> Result<UserData, Error> {
    match saved {
        Ok(user) => Ok(user.wire(DetailLevel::Minimal)),
        Err(e) => Err(e.reported()),
    }
}

/// Whether `step` is what follows when an operation in state `flow` gets `reply`.
pub open spec fn follows(flow: Flow, reply: Reply, step: Step) -> bool {
    match (flow, reply) {
        (Flow::LoggingIn { password, tfa_code }, Reply::Users(rows)) => step == Step::Done(
            match login_verdict(password@, tfa_code, rows) {
                Ok(user) => Ok(Outcome::Authenticated(user)),
                Err(e) => Err(e),
            },
        ),
        (Flow::Registering, Reply::User(saved)) => step == Step::Done(
            match shown_to_owner(saved) {
                Ok(data) => Ok(Outcome::Registered(data)),
                Err(e) => Err(e),
            },
        ),
        (Flow::Enrolling { id, email, issuer }, Reply::Users(rows)) => match found(id, rows) {
            None => step == Step::Done(Err(Error::NotFound)),
            Some(before) => if before.tfa_enabled {
                step == Step::Done(Err(Error::AlreadyEnabled))
            } else {
                exists|after: User, secret: Seq<u8>|
                    secret.len() == 21 && #[trigger] after.enrolled_with(
                        before,
                        issuer@,
                        email@,
                        secret,
                    ) && step == Step::Ask(Flow::SavingEnrollment, save_of(after))
            },
        },
        (Flow::SavingEnrollment, Reply::User(saved)) => step == Step::Done(
            match saved {
                Ok(user) => match user.tfa_auth_url {
                    Some(uri) => Ok(Outcome::Enrollment(uri)),
                    None => Err(Error::StorageUnavailable),
                },
                Err(e) => Err(e.reported()),
            },
        ),
        (Flow::Confirming { id, token }, Reply::Users(rows)) => match found(id, rows) {
            None => step == Step::Done(Err(Error::NotFound)),
            Some(before) => if !before.tfa_enabled {
                step == Step::Done(Err(Error::NotEnabled))
            } else if !usable_secret(before.tfa_secret) || !is_code(token as int) {
                step == Step::Done(Err(Error::InvalidToken))
            } else {
                step == Step::Done(Err(Error::InvalidToken)) || step == Step::Ask(
                    Flow::SavingConfirmation,
                    save_of(before.confirmed()),
                )
            },
        },
        (Flow::SavingConfirmation, Reply::User(saved)) => step == Step::Done(
            match shown_to_owner(saved) {
                Ok(data) => Ok(Outcome::Confirmed(data)),
                Err(e) => Err(e),
            },
        ),
        (Flow::Disabling { id }, Reply::Users(rows)) => match found(id, rows) {
            None => step == Step::Done(Err(Error::NotFound)),
            Some(before) => if !before.tfa_enabled {
                step == Step::Done(Err(Error::NotEnabled))
            } else {
                step == Step::Ask(Flow::SavingRemoval, save_of(before.without_tfa()))
            },
        },
        (Flow::SavingRemoval, Reply::User(saved)) => match saved {
            Ok(_) => step matches Step::Done(Ok(Outcome::Disabled(text))) && text@
                == "TFA disabled"@,
            Err(e) => step == Step::Done(Err(e.reported())),
        },
        _ => step == Step::Done(Err(Error::StorageUnavailable)),
    }
}

/// Starts a login.
///
/// A login that names neither email nor phone ends at once with
/// `InvalidCredentials`. Else the store is asked for the users whose phone, or
/// whose email where no phone was given, equals the one given.
pub fn login(data: RequiredLoginUser) -> (step: Step)
    ensures
        match login_key(data) {
            None => step == Step::Done(Err(Error::InvalidCredentials)),
            Some((field, value)) => {
                &&& step matches Step::Ask(flow, Request::ListUsers(query))
                &&& flow == (Flow::LoggingIn { password: data.password, tfa_code: data.tfa_code })
                &&& query.predicate@ == seq![ConditionModel { field, operator: Operator::Eq, value }]
                &&& query.limit == 10
                &&& query.offset == 0
            },
        },
{
    let RequiredLoginUser { email, phone, password, tfa_code } = data;
    let predicate = match phone {
        Some(phone) => Predicate::new().and("phone", Operator::Eq, phone),
        None => match email {
            Some(email) => Predicate::new().and("email", Operator::Eq, email),
            None => {
                return Step::Done(Err(Error::InvalidCredentials));
            },
        },
    };
    let query = ListQuery::of(predicate);
    proof {
        let key = login_key(data).unwrap();
        assert(query.predicate@ =~= seq![
            ConditionModel { field: key.0, operator: Operator::Eq, value: key.1 },
        ]);
    }
    Step::Ask(Flow::LoggingIn { password, tfa_code }, Request::ListUsers(query))
}

/// Decides a login, given the rows found for its account.
pub fn authenticate(password: &str, tfa_code: Option<i32>, rows: Result<Vec<User>, StoreError>) -> (verdict:
    Result<User, Error>)
    ensures
        verdict == login_verdict(password@, tfa_code, rows),
{
    let mut list = match rows {
        Ok(list) => list,
        Err(_) => {
            return Err(Error::NotFound);
        },
    };
    let user = match list.pop() {
        Some(user) => user,
        None => {
            return Err(Error::NotFound);
        },
    };
    if tfa_code.is_none() && user.tfa_enabled && user.tfa_verified {
        return Err(Error::TfaRequired);
    }
    match verify_password(password, user.password.as_str()) {
        Some(true) => Ok(user),
        _ => Err(Error::InvalidCredentials),
    }
}

/// What is sent back for a good login: the token, and of the user what the
/// lowest level shows.
pub fn login_response(token: String, user: &User) -> (response: LoginResponse)
    ensures
        response.token == token,
        response.user == user.wire(DetailLevel::Minimal),
{
    LoginResponse { token, user: user.to_wire(DetailLevel::Minimal) }
}

/// The record of a new account with an already hashed password.
pub fn registration(data: RequiredRegisterUser, hash: String, role_id: i32) -> (record: UserData)
    ensures
        is_registration(record, data, hash@, role_id),
{
    UserData {
        id: None,
        user_name: Some(data.user_name),
        email: Some(data.email),
        phone: Some(data.phone),
        password: Some(hash),
        role_id: Some(role_id),
        tfa_enabled: None,
        tfa_verified: None,
        tfa_secret: None,
        tfa_auth_url: None,
        created_at: None,
        updated_at: None,
    }
}

/// Starts a registration: hashes the password with a fresh salt and asks the
/// store to add the account with the given role.
///
/// The password is never part of the request: in its place stands an encoded
/// hash that the password verifies against. A password that can be hashed is
/// always registered. One that has too many bytes to be hashed ends the
/// registration with `InvalidCredentials`, and nothing is asked of the store.
pub fn register(data: RequiredRegisterUser, role_id: i32) -> (step: Step)
    ensures
        hashable(data.password@) ==> step is Ask,
        step matches Step::Done(outcome) ==> outcome == Err::<Outcome, Error>(
            Error::InvalidCredentials,
        ),
        step matches Step::Ask(flow, request) ==> {
            &&& flow == Flow::Registering
            &&& request matches Request::InsertUser(record)
            &&& record.password is Some
            &&& is_registration(record, data, record.password.unwrap()@, role_id)
            &&& password_verifies(data.password@, record.password.unwrap()@) == Some(true)
        },
{
    match hash_password(data.password.as_str()) {
        Some(hash) => {
            let record = registration(data, hash, role_id);
            Step::Ask(Flow::Registering, Request::InsertUser(record))
        },
        None => Step::Done(Err(Error::InvalidCredentials)),
    }
}

/// Starts an enrollment of the second factor: asks the store for the user.
pub fn generate_tfa(id: i32, email: String, issuer: String) -> (step: Step)
    ensures
        step matches Step::Ask(flow, Request::ListUsers(query)) && flow == (Flow::Enrolling {
            id,
            email,
            issuer,
        }) && query.predicate@ == crate::filter::id_is(id as int) && query.limit == 10
            && query.offset == 0,
{
    Step::Ask(Flow::Enrolling { id, email, issuer }, Request::ListUsers(ListQuery::by_id(id)))
}

/// Starts a confirmation of the second factor: asks the store for the user.
pub fn verify_tfa(id: i32, token: i32) -> (step: Step)
    ensures
        step matches Step::Ask(flow, Request::ListUsers(query)) && flow == (Flow::Confirming {
            id,
            token,
        }) && query.predicate@ == crate::filter::id_is(id as int) && query.limit == 10
            && query.offset == 0,
{
    Step::Ask(Flow::Confirming { id, token }, Request::ListUsers(ListQuery::by_id(id)))
}

/// Starts a removal of the second factor: asks the store for the user.
pub fn disable_tfa(id: i32) -> (step: Step)
    ensures
        step matches Step::Ask(flow, Request::ListUsers(query)) && flow == (Flow::Disabling { id })
            && query.predicate@ == crate::filter::id_is(id as int) && query.limit == 10
            && query.offset == 0,
{
    Step::Ask(Flow::Disabling { id }, Request::ListUsers(ListQuery::by_id(id)))
}

/// The request that writes a user's second factor as the user holds it.
fn save(user: User) -> (request: Request)
    ensures
        request == save_of(user),
{
    Request::SaveTfa {
        user_id: user.id,
        enabled: user.tfa_enabled,
        verified: user.tfa_verified,
        secret: user.tfa_secret,
        auth_url: user.tfa_auth_url,
    }
}

/// What the owner of an account may know of it after a write, or why the write
/// failed.
fn show_to_owner(saved: Result<User, StoreError>) -> (shown: Result<UserData, Error>)
    ensures
        shown == shown_to_owner(saved),
{
    match saved {
        Ok(user) => Ok(user.to_wire(DetailLevel::Minimal)),
        Err(e) => Err(e.to_error()),
    }
}

/// Takes an operation one step further with the store's reply.
///
/// A reply of a kind that the state did not ask for ends the operation with
/// `StorageUnavailable`. No account is written before it was read and found
/// fit: an enrollment is written only for a user found with its second factor
/// switched off, a confirmation only for one found switched on with a usable
/// secret, a removal only for one found switched on.
pub fn resume(flow: Flow, reply: Reply) -> (step: Step)
    ensures
        follows(flow, reply, step),
{
    match (flow, reply) {
        (Flow::LoggingIn { password, tfa_code }, Reply::Users(rows)) => {
            match authenticate(password.as_str(), tfa_code, rows) {
                Ok(user) => Step::Done(Ok(Outcome::Authenticated(user))),
                Err(e) => Step::Done(Err(e)),
            }
        },
        (Flow::Registering, Reply::User(saved)) => {
            match show_to_owner(saved) {
                Ok(data) => Step::Done(Ok(Outcome::Registered(data))),
                Err(e) => Step::Done(Err(e)),
            }
        },
        (Flow::Enrolling { id, email, issuer }, Reply::Users(rows)) => {
            let ghost address = email@;
            match User::generate_tfa(id, email, issuer.as_str(), rows) {
                Ok(after) => {
                    let step = Step::Ask(Flow::SavingEnrollment, save(after));
                    proof {
                        let before = found(id, rows).unwrap();
                        let secret = choose|secret: Seq<u8>|
                            secret.len() == 21 && #[trigger] after.enrolled_with(
                                before,
                                issuer@,
                                address,
                                secret,
                            );
                        assert(after.enrolled_with(before, issuer@, address, secret));
                    }
                    step
                },
                Err(e) => Step::Done(Err(e)),
            }
        },
        (Flow::SavingEnrollment, Reply::User(saved)) => {
            match saved {
                Ok(user) => match user.tfa_auth_url {
                    Some(uri) => Step::Done(Ok(Outcome::Enrollment(uri))),
                    None => Step::Done(Err(Error::StorageUnavailable)),
                },
                Err(e) => Step::Done(Err(e.to_error())),
            }
        },
        (Flow::Confirming { id, token }, Reply::Users(rows)) => {
            match User::verify_tfa(id, token, rows) {
                Ok(after) => Step::Ask(Flow::SavingConfirmation, save(after)),
                Err(e) => Step::Done(Err(e)),
            }
        },
        (Flow::SavingConfirmation, Reply::User(saved)) => {
            match show_to_owner(saved) {
                Ok(data) => Step::Done(Ok(Outcome::Confirmed(data))),
                Err(e) => Step::Done(Err(e)),
            }
        },
        (Flow::Disabling { id }, Reply::Users(rows)) => {
            match User::disable_tfa(id, rows) {
                Ok(after) => Step::Ask(Flow::SavingRemoval, save(after)),
                Err(e) => Step::Done(Err(e)),
            }
        },
        (Flow::SavingRemoval, Reply::User(saved)) => {
            match saved {
                Ok(_) => Step::Done(Ok(Outcome::Disabled(String::from_str("TFA disabled")))),
                Err(e) => Step::Done(Err(e.to_error())),
            }
        },
        _ => Step::Done(Err(Error::StorageUnavailable)),
    }
}

/// A login without a code for an account whose second factor is switched on
/// and confirmed ends with `TfaRequired`, whatever the password.
pub proof fn lemma_login_needs_second_factor(password: Seq<char>, rows: Result<Vec<User>, StoreError>)
    requires
        rows matches Ok(list) && list@.len() > 0 && list@.last().tfa_enabled
            && list@.last().tfa_verified,
    ensures
        login_verdict(password, None, rows) == Err::<User, Error>(Error::TfaRequired),
{
}

impl Flow {
    /// How many requests an operation in this state may still make, at most.
    pub open spec fn remaining(self) -> nat {
        match self {
            Flow::LoggingIn { .. } => 1,
            Flow::Registering => 1,
            Flow::Enrolling { .. } => 2,
            Flow::SavingEnrollment => 1,
            Flow::Confirming { .. } => 2,
            Flow::SavingConfirmation => 1,
            Flow::Disabling { .. } => 2,
            Flow::SavingRemoval => 1,
        }
    }
}

/// Every reply brings an operation nearer to its end: no operation asks the
/// store more than twice.
pub proof fn lemma_operation_advances(flow: Flow, reply: Reply, step: Step)
    requires
        follows(flow, reply, step),
    ensures
        step matches Step::Ask(next, _) ==> next.remaining() < flow.remaining(),
        flow.remaining() <= 2,
{
}

} // verus!
