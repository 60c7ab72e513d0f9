use reservations::api::ApiResponse;
use reservations::auth::Claims;
use reservations::error::Error;
use reservations::middleware::{rejection, validate_rol, validate_token, Event, Guard, SesionData, Step};
use reservations::moment::DateTime;
use reservations::role::Role;
use reservations::store::{Reply, Request, StoreError};
use reservations::user::User;

fn at(secs: i64) -> DateTime {
    DateTime::new(secs, 0).unwrap()
}

fn user(id: i32, role_id: i32) -> User {
    User {
        id,
        user_name: "ana".to_string(),
        email: None,
        phone: None,
        password: "hash".to_string(),
        role_id,
        tfa_enabled: false,
        tfa_verified: false,
        tfa_secret: None,
        tfa_auth_url: None,
        created_at: at(0),
        updated_at: at(0),
    }
}

fn role(id: i32, can_get_booking: bool, level: i32) -> Role {
    Role {
        id,
        role_name: "guest".to_string(),
        can_get_user: false,
        can_create_user: false,
        can_update_user: false,
        can_delete_user: false,
        detail_level_user: 0,
        bypass_user_validation: false,
        can_get_plattform: false,
        can_create_plattform: false,
        can_update_plattform: false,
        can_delete_plattform: false,
        detail_level_platfform: 0,
        bypass_plattform_validation: false,
        can_get_booking,
        can_create_booking: false,
        can_update_booking: false,
        can_delete_booking: false,
        detail_level_booking: level,
        bypass_booking_validation: false,
        can_get_role: false,
        can_create_role: false,
        can_update_role: false,
        can_delete_role: false,
        detail_level_role: 0,
        bypass_role_validation: false,
        can_get_property: false,
        can_create_property: false,
        can_update_property: false,
        can_delete_property: false,
        detail_level_property: 0,
        bypass_property_validation: false,
        can_get_calendar: false,
        can_create_calendar: false,
        can_update_calendar: false,
        can_delete_calendar: false,
        detail_level_calendar: 0,
        bypass_calendar_validation: false,
        created_at: at(0),
        updated_at: at(0),
    }
}

fn claims(user_id: i32) -> Claims {
    Claims { user_id, signature: "signature".to_string(), exp: 2_000_000_000 }
}

fn waiting_for_role() -> Guard {
    Guard::UserFound {
        claims: claims(5),
        user: user(5, 2),
        path: "/bookings".to_string(),
        method: "GET".to_string(),
    }
}

#[test]
fn missing_header_is_unauthorized_whatever_the_resource() {
    for path in ["/bookings", "/calendar", "/nowhere"] {
        assert_eq!(
            validate_token(None, path.to_string(), "GET".to_string()),
            Step::Denied(Error::Unauthorized)
        );
    }
}

#[test]
fn bearer_prefix_is_taken_out_of_the_header() {
    let step = validate_token(Some("Bearer abc.def.ghi"), "/bookings".to_string(), "GET".to_string());
    assert_eq!(
        step,
        Step::Decode(
            Guard::Unauthenticated { path: "/bookings".to_string(), method: "GET".to_string() },
            "abc.def.ghi".to_string()
        )
    );
}

#[test]
fn header_without_prefix_is_the_token() {
    match validate_token(Some("abc.def"), "/x".to_string(), "GET".to_string()) {
        Step::Decode(_, token) => assert_eq!(token, "abc.def"),
        other => panic!("{:?}", other),
    }
    match validate_token(Some("Bearer Bearer xBearer y"), "/x".to_string(), "GET".to_string()) {
        Step::Decode(_, token) => assert_eq!(token, "xy"),
        other => panic!("{:?}", other),
    }
    match validate_token(Some("bearer abc"), "/x".to_string(), "GET".to_string()) {
        Step::Decode(_, token) => assert_eq!(token, "bearer abc"),
        other => panic!("{:?}", other),
    }
}

#[test]
fn token_that_does_not_decode_is_unauthorized() {
    let waiting = Guard::Unauthenticated { path: "/bookings".to_string(), method: "GET".to_string() };
    assert_eq!(validate_rol(waiting, Event::Decoded(None)), Step::Denied(Error::Unauthorized));
}

#[test]
fn decoded_token_leads_to_the_user_lookup() {
    let waiting = Guard::Unauthenticated { path: "/bookings".to_string(), method: "GET".to_string() };
    match validate_rol(waiting, Event::Decoded(Some(claims(5)))) {
        Step::Ask(Guard::TokenValidated { claims: c, path, method }, Request::ListUsers(query)) => {
            assert_eq!(c, claims(5));
            assert_eq!(path, "/bookings");
            assert_eq!(method, "GET");
            assert_eq!(query.predicate.render(), "id = $1");
            assert_eq!(query.predicate.bindings(), vec!["5".to_string()]);
        }
        other => panic!("{:?}", other),
    }
}

#[test]
fn found_user_leads_to_the_role_lookup() {
    let waiting = Guard::TokenValidated {
        claims: claims(5),
        path: "/bookings".to_string(),
        method: "GET".to_string(),
    };
    match validate_rol(waiting, Event::Store(Reply::Users(Ok(vec![user(5, 12)])))) {
        Step::Ask(Guard::UserFound { user: u, .. }, Request::ListRoles(query)) => {
            assert_eq!(u, user(5, 12));
            assert_eq!(query.predicate.bindings(), vec!["12".to_string()]);
        }
        other => panic!("{:?}", other),
    }
}

#[test]
fn absent_user_is_denied() {
    let waiting = || Guard::TokenValidated {
        claims: claims(5),
        path: "/bookings".to_string(),
        method: "GET".to_string(),
    };
    assert_eq!(validate_rol(waiting(), Event::Store(Reply::Users(Ok(vec![])))), Step::Denied(Error::Denied));
    assert_eq!(
        validate_rol(waiting(), Event::Store(Reply::Users(Err(StoreError::Unavailable)))),
        Step::Denied(Error::Denied)
    );
    assert_eq!(
        validate_rol(waiting(), Event::Store(Reply::Users(Ok(vec![user(6, 2)])))),
        Step::Denied(Error::Denied)
    );
}

#[test]
fn absent_role_is_denied() {
    assert_eq!(
        validate_rol(waiting_for_role(), Event::Store(Reply::Roles(Ok(vec![])))),
        Step::Denied(Error::Denied)
    );
    assert_eq!(
        validate_rol(waiting_for_role(), Event::Store(Reply::Roles(Ok(vec![role(3, true, 4)])))),
        Step::Denied(Error::Denied)
    );
}

#[test]
fn capable_role_is_authorized_with_the_session_filled() {
    let step = validate_rol(waiting_for_role(), Event::Store(Reply::Roles(Ok(vec![role(2, true, 1)]))));
    assert_eq!(
        step,
        Step::Authorized(SesionData {
            user: Some(user(5, 2)),
            role: Some(role(2, true, 1)),
            claims: Some(claims(5)),
        })
    );
}

#[test]
fn incapable_role_is_denied() {
    assert_eq!(
        validate_rol(waiting_for_role(), Event::Store(Reply::Roles(Ok(vec![role(2, false, 4)])))),
        Step::Denied(Error::Denied)
    );
    assert_eq!(
        validate_rol(waiting_for_role(), Event::Store(Reply::Roles(Ok(vec![role(2, true, 0)])))),
        Step::Denied(Error::Denied)
    );
}

#[test]
fn event_of_the_wrong_kind_is_denied() {
    assert_eq!(
        validate_rol(waiting_for_role(), Event::Decoded(Some(claims(5)))),
        Step::Denied(Error::Unauthorized)
    );
    assert_eq!(
        validate_rol(waiting_for_role(), Event::Store(Reply::Users(Ok(vec![user(5, 2)])))),
        Step::Denied(Error::Unauthorized)
    );
}

#[test]
fn rejection_envelope() {
    let response = rejection(Error::Unauthorized);
    assert_eq!(response.code, 400);
    assert_eq!(response.status, "error");
    assert_eq!(response.message, "Unauthorized");
    assert!(response.data.is_none());
    let same: ApiResponse<reservations::api::MiddlewareError> = ApiResponse::error("Unauthorized");
    assert_eq!(response, same);
}

#[test]
fn claims_expire_an_hour_after_issue() {
    let issued = Claims::issue(5, 1_700_000_000);
    assert_eq!(issued.user_id, 5);
    assert_eq!(issued.signature, "signature");
    assert_eq!(issued.exp, 1_700_003_600);
    assert_eq!(issued.clone(), issued);
}
