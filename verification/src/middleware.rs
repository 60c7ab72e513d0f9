//! The guard that every protected request passes before it reaches a handler.
//!
//! A request is `Unauthenticated` until its bearer token was decoded, which
//! makes it `TokenValidated`. The user that the token names is then read, and
//! after it that user's role. Once both are known the role decides whether the
//! request is authorized or denied. A request is denied before anything is
//! written.

use vstd::prelude::*;
use crate::api::{ApiResponse, MiddlewareError};
use crate::auth::Claims;
use crate::error::Error;
use crate::filter::{id_is, ListQuery};
use crate::role::{action_allowed, may_act, Role};
use crate::store::{Reply, Request, StoreError};
use crate::text::{replace_all, replaced};
use crate::tfa::found;
use crate::user::User;

verus! {

/// What a handler may know of the caller: filled once by the guard, then only read.
#[derive(Debug, PartialEq, Eq)]
pub struct SesionData {
    pub user: Option<User>,
    pub role: Option<Role>,
    pub claims: Option<Claims>,
}

/// Where a request stands at the guard.
#[derive(Debug, PartialEq, Eq)]
pub enum Guard {
    /// The token is being decoded.
    Unauthenticated { path: String, method: String },
    /// The token was good; the user that it names is being read.
    TokenValidated { claims: Claims, path: String, method: String },
    /// The user was found; the role of the user is being read.
    UserFound { claims: Claims, user: User, path: String, method: String },
}

/// What reaches the guard from outside.
#[derive(Debug, PartialEq, Eq)]
pub enum Event {
    /// The token was decoded into claims, or could not be.
    Decoded(Option<Claims>),
    /// The store answered.
    Store(Reply),
}

/// What the guard wants next, or how it decided.
#[derive(Debug, PartialEq, Eq)]
pub enum Step {
    /// Decode this token.
    Decode(Guard, String),
    /// Ask this of the store.
    Ask(Guard, Request),
    /// Let the request through, with what is known of the caller.
    Authorized(SesionData),
    /// Stop the request.
    Denied(Error),
}

/// The role that a lookup by `id` found: the last of the rows, if there is one
/// and it has that id.
pub open spec fn found_role(id: i32, rows: Result<Vec<Role>, StoreError>) -> Option<Role> {
    match rows {
        Ok(list) => if list@.len() > 0 && list@.last().id == id {
            Some(list@.last())
        } else {
            None
        },
        Err(_) => None,
    }
}

/// Whether `request` reads the rows of one table whose `id` is `id`.
pub open spec fn reads_by_id(query: ListQuery, id: i32) -> bool {
    query.predicate@ == id_is(id as int) && query.limit == 10 && query.offset == 0
}

/// Whether `step` is what follows when a request in state `guard` gets `event`.
pub open spec fn follows(guard: Guard, event: Event, step: Step) -> bool {
    match (guard, event) {
        (Guard::Unauthenticated { path, method }, Event::Decoded(decoded)) => match decoded {
            None => step == Step::Denied(Error::Unauthorized),
            Some(claims) => {
                &&& step matches Step::Ask(next, Request::ListUsers(query))
                &&& next == (Guard::TokenValidated { claims, path, method })
                &&& reads_by_id(query, claims.user_id)
            },
        },
        (Guard::TokenValidated { claims, path, method }, Event::Store(Reply::Users(rows))) => match found(
            claims.user_id,
            rows,
        ) {
            None => step == Step::Denied(Error::Denied),
            Some(user) => {
                &&& step matches Step::Ask(next, Request::ListRoles(query))
                &&& next == (Guard::UserFound { claims, user, path, method })
                &&& reads_by_id(query, user.role_id)
            },
        },
        (Guard::UserFound { claims, user, path, method }, Event::Store(Reply::Roles(rows))) => match found_role(
            user.role_id,
            rows,
        ) {
            None => step == Step::Denied(Error::Denied),
            Some(role) => if action_allowed(path@, method@, role) {
                step == Step::Authorized(
                    SesionData { user: Some(user), role: Some(role), claims: Some(claims) },
                )
            } else {
                step == Step::Denied(Error::Denied)
            },
        },
        _ => step == Step::Denied(Error::Unauthorized),
    }
}

/// The token in an `Authorization` header: the header with every `Bearer `
/// taken out.
pub open spec fn bearer_token(authorization: Seq<char>) -> Seq<char> {
    replaced(authorization, "Bearer "@, ""@)
}

/// Receives a request at the guard.
///
/// A request without an `Authorization` header is denied as `Unauthorized`,
/// whatever it asks for. Else the token of the header is to be decoded.
pub fn validate_token(authorization: Option<&str>, path: String, method: String) -> (step: Step)
    ensures
        match authorization {
            None => step == Step::Denied(Error::Unauthorized),
            Some(header) => step matches Step::Decode(guard, token) && guard == (Guard::Unauthenticated {
                path,
                method,
            }) && token@ == bearer_token(header@),
        },
{
    match authorization {
        None => Step::Denied(Error::Unauthorized),
        Some(header) => {
            proof {
                reveal_strlit("Bearer ");
            }
            let token = replace_all(header, "Bearer ", "");
            Step::Decode(Guard::Unauthenticated { path, method }, token)
        },
    }
}

/// Picks the role that a lookup by `id` found.
fn find_role(id: i32, rows: Result<Vec<Role>, StoreError>) -> (role: Option<Role>)
    ensures
        role == found_role(id, rows),
{
    match rows {
        Ok(mut list) => {
            match list.pop() {
                Some(role) => {
                    if role.id == id {
                        Some(role)
                    } else {
                        None
                    }
                },
                None => None,
            }
        },
        Err(_) => None,
    }
}

/// Takes a request one step further through the guard.
///
/// A token that could not be decoded denies the request as `Unauthorized`.
/// Where the user that the token names, or that user's role, is not found,
/// and where the role may not make the request, it is denied as `Denied`. It
/// is authorized exactly when both were found and the role may make it; the
/// user, the role and the claims are then handed on. An event of a kind that
/// the state did not wait for denies the request.
pub fn validate_rol(guard: Guard, event: Event) -> (step: Step)
    ensures
        follows(guard, event, step),
{
    match (guard, event) {
        (Guard::Unauthenticated { path, method }, Event::Decoded(decoded)) => {
            match decoded {
                None => Step::Denied(Error::Unauthorized),
                Some(claims) => {
                    let query = ListQuery::by_id(claims.user_id);
                    Step::Ask(Guard::TokenValidated { claims, path, method }, Request::ListUsers(query))
                },
            }
        },
        (Guard::TokenValidated { claims, path, method }, Event::Store(Reply::Users(rows))) => {
            match User::find(claims.user_id, rows) {
                Err(_) => Step::Denied(Error::Denied),
                Ok(user) => {
                    let query = ListQuery::by_id(user.role_id);
                    Step::Ask(Guard::UserFound { claims, user, path, method }, Request::ListRoles(query))
                },
            }
        },
        (Guard::UserFound { claims, user, path, method }, Event::Store(Reply::Roles(rows))) => {
            match find_role(user.role_id, rows) {
                None => Step::Denied(Error::Denied),
                Some(role) => {
                    if may_act(path.as_str(), method.as_str(), &role) {
                        Step::Authorized(
                            SesionData { user: Some(user), role: Some(role), claims: Some(claims) },
                        )
                    } else {
                        Step::Denied(Error::Denied)
                    }
                },
            }
        },
        _ => Step::Denied(Error::Unauthorized),
    }
}

/// The envelope that tells a caller that it was stopped at the guard.
pub fn rejection(reason: Error) -> (response: ApiResponse<MiddlewareError>)
    ensures
        response.code == 400,
        response.status@ == "error"@,
        response.message@ == reason.text(),
        response.data is None,
{
    ApiResponse::error(reason.message())
}

impl Guard {
    /// How many events a request in this state may still wait for, at most.
    pub open spec fn remaining(self) -> nat {
        match self {
            Guard::Unauthenticated { .. } => 3,
            Guard::TokenValidated { .. } => 2,
            Guard::UserFound { .. } => 1,
        }
    }
}

/// Every event brings a request nearer to the decision.
pub proof fn lemma_request_advances(guard: Guard, event: Event, step: Step)
    requires
        follows(guard, event, step),
    ensures
        step matches Step::Ask(next, _) ==> next.remaining() < guard.remaining(),
        !(step is Decode),
{
}

/// A request is authorized only when its token was decoded, the user and the
/// role were found, and the role may make the request; the session then holds
/// all three.
pub proof fn lemma_authorized_only_when_allowed(guard: Guard, event: Event, step: Step)
    requires
        follows(guard, event, step),
        step is Authorized,
    ensures
        guard matches Guard::UserFound { claims, user, path, method } && event matches Event::Store(
            Reply::Roles(rows),
        ) && found_role(user.role_id, rows) matches Some(role) && action_allowed(path@, method@, role)
            && step == Step::Authorized(
            SesionData { user: Some(user), role: Some(role), claims: Some(claims) },
        ),
{
}

} // verus!
