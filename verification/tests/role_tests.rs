use reservations::moment::DateTime;
use reservations::role::{may_act, validate_action, Resource, Role, Verb};

fn role(everything: bool, level: i32) -> Role {
    let at = DateTime::new(0, 0).unwrap();
    Role {
        id: 1,
        role_name: "tester".to_string(),
        can_get_user: everything,
        can_create_user: everything,
        can_update_user: everything,
        can_delete_user: everything,
        detail_level_user: level,
        bypass_user_validation: false,
        can_get_plattform: everything,
        can_create_plattform: everything,
        can_update_plattform: everything,
        can_delete_plattform: everything,
        detail_level_platfform: level,
        bypass_plattform_validation: false,
        can_get_booking: everything,
        can_create_booking: everything,
        can_update_booking: everything,
        can_delete_booking: everything,
        detail_level_booking: level,
        bypass_booking_validation: false,
        can_get_role: everything,
        can_create_role: everything,
        can_update_role: everything,
        can_delete_role: everything,
        detail_level_role: level,
        bypass_role_validation: false,
        can_get_property: everything,
        can_create_property: everything,
        can_update_property: everything,
        can_delete_property: everything,
        detail_level_property: level,
        bypass_property_validation: false,
        can_get_calendar: everything,
        can_create_calendar: everything,
        can_update_calendar: everything,
        can_delete_calendar: everything,
        detail_level_calendar: level,
        bypass_calendar_validation: false,
        created_at: at,
        updated_at: at,
    }
}

const PATHS: [&str; 6] = ["/users", "/plattforms", "/bookings", "/roles", "/property", "/calendar"];

fn allowed(path: &str, method: &str, role: &Role) -> bool {
    validate_action(path.to_string(), method.to_string(), role.clone())
}

#[test]
fn full_role_may_do_everything_known() {
    let role = role(true, 4);
    for path in PATHS {
        for method in ["GET", "POST", "PUT", "DELETE"] {
            assert!(allowed(path, method, &role), "{} {}", method, path);
            assert!(may_act(path, method, &role));
        }
    }
}

#[test]
fn role_without_flags_may_do_nothing() {
    let role = role(false, 4);
    for path in PATHS {
        for method in ["GET", "POST", "PUT", "DELETE"] {
            assert!(!allowed(path, method, &role), "{} {}", method, path);
        }
    }
}

#[test]
fn level_zero_stops_all_but_delete() {
    let role = role(true, 0);
    for path in PATHS {
        for method in ["GET", "POST", "PUT"] {
            assert!(!allowed(path, method, &role), "{} {}", method, path);
        }
        assert!(allowed(path, "DELETE", &role), "DELETE {}", path);
    }
}

#[test]
fn negative_level_stops_all_but_delete() {
    let role = role(true, -3);
    assert!(!allowed("/bookings", "GET", &role));
    assert!(allowed("/bookings", "DELETE", &role));
}

#[test]
fn unknown_path_or_method_is_denied() {
    let role = role(true, 4);
    assert!(!allowed("/booking", "GET", &role));
    assert!(!allowed("/api/bookings", "GET", &role));
    assert!(!allowed("/bookings/", "GET", &role));
    assert!(!allowed("", "GET", &role));
    assert!(!allowed("/bookings", "get", &role));
    assert!(!allowed("/bookings", "PATCH", &role));
    assert!(!allowed("/bookings", "", &role));
}

#[test]
fn each_flag_governs_its_own_verb_and_resource() {
    let mut one = role(false, 1);
    one.can_update_calendar = true;
    for path in PATHS {
        for method in ["GET", "POST", "PUT", "DELETE"] {
            let expected = path == "/calendar" && method == "PUT";
            assert_eq!(allowed(path, method, &one), expected, "{} {}", method, path);
        }
    }
}

#[test]
fn each_level_governs_its_own_resource() {
    let mut one = role(true, 0);
    one.detail_level_platfform = 2;
    for path in PATHS {
        assert_eq!(allowed(path, "GET", &one), path == "/plattforms", "{}", path);
    }
}

#[test]
fn verbs_and_resources_parse() {
    assert_eq!(Verb::parse("GET"), Some(Verb::Get));
    assert_eq!(Verb::parse("POST"), Some(Verb::Post));
    assert_eq!(Verb::parse("PUT"), Some(Verb::Put));
    assert_eq!(Verb::parse("DELETE"), Some(Verb::Delete));
    assert_eq!(Verb::parse("HEAD"), None);
    assert_eq!(Resource::parse("/users"), Some(Resource::User));
    assert_eq!(Resource::parse("/plattforms"), Some(Resource::Plattform));
    assert_eq!(Resource::parse("/bookings"), Some(Resource::Booking));
    assert_eq!(Resource::parse("/roles"), Some(Resource::Role));
    assert_eq!(Resource::parse("/property"), Some(Resource::Property));
    assert_eq!(Resource::parse("/calendar"), Some(Resource::Calendar));
    assert_eq!(Resource::parse("/calendars"), None);
}

#[test]
fn accessors_read_the_matching_field() {
    let mut r = role(false, 0);
    r.can_delete_booking = true;
    r.detail_level_booking = 3;
    r.bypass_booking_validation = true;
    assert!(r.can(Verb::Delete, Resource::Booking));
    assert!(!r.can(Verb::Get, Resource::Booking));
    assert!(!r.can(Verb::Delete, Resource::Calendar));
    assert_eq!(r.detail_level(Resource::Booking), 3);
    assert_eq!(r.detail_level(Resource::User), 0);
    assert!(r.bypasses(Resource::Booking));
    assert!(!r.bypasses(Resource::Role));
}
