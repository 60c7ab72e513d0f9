use bigdecimal::BigDecimal;
use reservations::api::DetailLevel;
use reservations::booking::{Booking, BookingData, BookingField};
use reservations::calendar::{Calendar, CalendarData, CalendarField};
use reservations::moment::{Date, DateTime};
use reservations::user::{User, UserData, UserField};

const LEVELS: [DetailLevel; 5] = [
    DetailLevel::Cero,
    DetailLevel::Minimal,
    DetailLevel::Partial,
    DetailLevel::SemiFull,
    DetailLevel::Full,
];

fn at(secs: i64) -> DateTime {
    DateTime::new(secs, 0).unwrap()
}

fn booking() -> Booking {
    Booking {
        id: 7,
        external_id: "ext-7".to_string(),
        property_id: 3,
        plattform_id: 2,
        payment_id: 11,
        user_id: 5,
        num_adults: 2,
        num_children: 1,
        booking_date: Date { days_from_ce: 739_000 },
        start_datetime: at(1_717_236_000),
        end_datetime: at(1_717_243_200),
        created_at: at(1_700_000_000),
        updated_at: at(1_700_000_500),
    }
}

fn full_booking_data() -> BookingData {
    let b = booking();
    BookingData {
        id: Some(b.id),
        external_id: Some(b.external_id),
        property_id: Some(b.property_id),
        plattform_id: Some(b.plattform_id),
        payment_id: Some(b.payment_id),
        user_id: Some(b.user_id),
        num_adults: Some(b.num_adults),
        num_children: Some(b.num_children),
        booking_date: Some(b.booking_date),
        start_datetime: Some(b.start_datetime),
        end_datetime: Some(b.end_datetime),
        created_at: Some(b.created_at),
        updated_at: Some(b.updated_at),
    }
}

fn booking_fields(d: &BookingData) -> Vec<&'static str> {
    let mut present = Vec::new();
    if d.id.is_some() { present.push("id"); }
    if d.external_id.is_some() { present.push("external_id"); }
    if d.property_id.is_some() { present.push("property_id"); }
    if d.plattform_id.is_some() { present.push("plattform_id"); }
    if d.payment_id.is_some() { present.push("payment_id"); }
    if d.user_id.is_some() { present.push("user_id"); }
    if d.num_adults.is_some() { present.push("num_adults"); }
    if d.num_children.is_some() { present.push("num_children"); }
    if d.booking_date.is_some() { present.push("booking_date"); }
    if d.start_datetime.is_some() { present.push("start_datetime"); }
    if d.end_datetime.is_some() { present.push("end_datetime"); }
    if d.created_at.is_some() { present.push("created_at"); }
    if d.updated_at.is_some() { present.push("updated_at"); }
    present
}

fn calendar(booking_id: Option<i32>, comment: Option<&str>) -> Calendar {
    Calendar {
        id: 40,
        property_id: 3,
        booking_id,
        date: Date { days_from_ce: 739_038 },
        price: BigDecimal::from(120),
        available: booking_id.is_none(),
        comment: comment.map(|c| c.to_string()),
        created_at: at(1_700_000_000),
        updated_at: at(1_700_000_500),
    }
}

fn calendar_fields(d: &CalendarData) -> Vec<&'static str> {
    let mut present = Vec::new();
    if d.id.is_some() { present.push("id"); }
    if d.property_id.is_some() { present.push("property_id"); }
    if d.booking_id.is_some() { present.push("booking_id"); }
    if d.date.is_some() { present.push("date"); }
    if d.price.is_some() { present.push("price"); }
    if d.available.is_some() { present.push("available"); }
    if d.comment.is_some() { present.push("comment"); }
    if d.created_at.is_some() { present.push("created_at"); }
    if d.updated_at.is_some() { present.push("updated_at"); }
    present
}

fn user() -> User {
    User {
        id: 5,
        user_name: "ana".to_string(),
        email: Some("ana@example.com".to_string()),
        phone: None,
        password: "hash".to_string(),
        role_id: 2,
        tfa_enabled: true,
        tfa_verified: false,
        tfa_secret: Some("SECRET".to_string()),
        tfa_auth_url: Some("otpauth://x".to_string()),
        created_at: at(1_700_000_000),
        updated_at: at(1_700_000_500),
    }
}

fn full_user_data() -> UserData {
    let u = user();
    UserData {
        id: Some(u.id),
        user_name: Some(u.user_name),
        email: u.email,
        phone: Some("600".to_string()),
        password: Some(u.password),
        role_id: Some(u.role_id),
        tfa_enabled: Some(u.tfa_enabled),
        tfa_verified: Some(u.tfa_verified),
        tfa_secret: u.tfa_secret,
        tfa_auth_url: u.tfa_auth_url,
        created_at: Some(u.created_at),
        updated_at: Some(u.updated_at),
    }
}

fn user_fields(d: &UserData) -> Vec<&'static str> {
    let mut present = Vec::new();
    if d.id.is_some() { present.push("id"); }
    if d.user_name.is_some() { present.push("user_name"); }
    if d.email.is_some() { present.push("email"); }
    if d.phone.is_some() { present.push("phone"); }
    if d.password.is_some() { present.push("password"); }
    if d.role_id.is_some() { present.push("role_id"); }
    if d.tfa_enabled.is_some() { present.push("tfa_enabled"); }
    if d.tfa_verified.is_some() { present.push("tfa_verified"); }
    if d.tfa_secret.is_some() { present.push("tfa_secret"); }
    if d.tfa_auth_url.is_some() { present.push("tfa_auth_url"); }
    if d.created_at.is_some() { present.push("created_at"); }
    if d.updated_at.is_some() { present.push("updated_at"); }
    present
}

fn subset(small: &[&str], large: &[&str]) -> bool {
    small.iter().all(|f| large.contains(f))
}

#[test]
fn cero_output_is_empty_whatever_the_input() {
    assert!(Booking::filter_booking_data_output(vec![booking(), booking()], DetailLevel::Cero).is_empty());
    assert!(Booking::filter_booking_data_output(vec![], DetailLevel::Cero).is_empty());
    assert!(Calendar::filter_calendar_data_output(vec![calendar(Some(1), None)], DetailLevel::Cero).is_empty());
    assert!(User::filter_user_data_output(vec![user(), user(), user()], DetailLevel::Cero).is_empty());
}

#[test]
fn cero_input_is_empty_whatever_the_input() {
    assert!(Booking::filter_booking_data_input(vec![full_booking_data()], DetailLevel::Cero).is_empty());
    assert!(Calendar::filter_calendar_data_input(vec![CalendarData::default()], DetailLevel::Cero).is_empty());
    assert!(User::filter_user_data_input(vec![full_user_data()], DetailLevel::Cero).is_empty());
}

#[test]
fn booking_output_by_level() {
    let shown = |level| Booking::filter_booking_data_output(vec![booking()], level).pop().unwrap();
    assert_eq!(booking_fields(&shown(DetailLevel::Minimal)), vec!["id"]);
    assert_eq!(booking_fields(&shown(DetailLevel::Partial)), vec!["id", "external_id", "property_id"]);
    assert_eq!(
        booking_fields(&shown(DetailLevel::SemiFull)),
        vec![
            "id", "external_id", "property_id", "plattform_id", "payment_id", "user_id", "num_adults",
            "num_children", "booking_date", "start_datetime", "end_datetime"
        ]
    );
    assert_eq!(shown(DetailLevel::Full), full_booking_data());
    let partial = shown(DetailLevel::Partial);
    assert_eq!(partial.id, Some(7));
    assert_eq!(partial.external_id, Some("ext-7".to_string()));
    assert_eq!(partial.property_id, Some(3));
}

#[test]
fn booking_output_keeps_count_and_order() {
    let mut second = booking();
    second.id = 8;
    let shown = Booking::filter_booking_data_output(vec![booking(), second], DetailLevel::Minimal);
    assert_eq!(shown.len(), 2);
    assert_eq!(shown[0].id, Some(7));
    assert_eq!(shown[1].id, Some(8));
}

#[test]
fn booking_input_by_level() {
    let kept = |level| Booking::filter_booking_data_input(vec![full_booking_data()], level).pop().unwrap();
    assert_eq!(booking_fields(&kept(DetailLevel::Minimal)), vec!["id"]);
    assert_eq!(booking_fields(&kept(DetailLevel::Partial)), vec!["id", "external_id", "property_id"]);
    let semi = kept(DetailLevel::SemiFull);
    assert!(semi.created_at.is_none() && semi.updated_at.is_none());
    assert_eq!(booking_fields(&semi).len(), 11);
    assert_eq!(kept(DetailLevel::Full), full_booking_data());
}

#[test]
fn input_keeps_absent_fields_absent() {
    let sparse = BookingData { num_adults: Some(4), ..BookingData::default() };
    let kept = Booking::filter_booking_data_input(vec![sparse.clone()], DetailLevel::Full).pop().unwrap();
    assert_eq!(kept, sparse);
    let kept = Booking::filter_booking_data_input(vec![sparse], DetailLevel::Minimal).pop().unwrap();
    assert_eq!(kept, BookingData::default());
}

#[test]
fn calendar_output_by_level() {
    let shown = |level| {
        Calendar::filter_calendar_data_output(vec![calendar(Some(9), Some("note"))], level).pop().unwrap()
    };
    assert_eq!(calendar_fields(&shown(DetailLevel::Minimal)), vec!["id"]);
    assert_eq!(calendar_fields(&shown(DetailLevel::Partial)), vec!["id", "property_id", "date"]);
    assert_eq!(
        calendar_fields(&shown(DetailLevel::SemiFull)),
        vec!["id", "property_id", "booking_id", "date", "price", "available"]
    );
    let full = shown(DetailLevel::Full);
    assert_eq!(calendar_fields(&full).len(), 9);
    assert_eq!(full.price, Some(BigDecimal::from(120)));
    assert_eq!(full.booking_id, Some(9));
    assert_eq!(full.available, Some(false));
    assert_eq!(full.comment, Some("note".to_string()));
}

#[test]
fn free_calendar_row_is_shown_without_a_booking() {
    let shown = Calendar::filter_calendar_data_output(vec![calendar(None, None)], DetailLevel::Full)
        .pop()
        .unwrap();
    assert_eq!(shown.booking_id, None);
    assert_eq!(shown.comment, None);
    assert_eq!(shown.available, Some(true));
    assert_eq!(shown.id, Some(40));
}

#[test]
fn calendar_input_by_level() {
    let full = Calendar::filter_calendar_data_output(vec![calendar(Some(9), Some("note"))], DetailLevel::Full)
        .pop()
        .unwrap();
    let kept = |level| Calendar::filter_calendar_data_input(vec![full.clone()], level).pop().unwrap();
    assert_eq!(calendar_fields(&kept(DetailLevel::Minimal)), vec!["id"]);
    assert_eq!(calendar_fields(&kept(DetailLevel::Partial)), vec!["id", "property_id", "date"]);
    assert_eq!(
        calendar_fields(&kept(DetailLevel::SemiFull)),
        vec!["id", "property_id", "booking_id", "date", "price", "available"]
    );
    assert_eq!(kept(DetailLevel::Full), full);
}

#[test]
fn user_output_by_level() {
    let shown = |level| User::filter_user_data_output(vec![user()], level).pop().unwrap();
    assert_eq!(user_fields(&shown(DetailLevel::Minimal)), vec!["id", "user_name", "email"]);
    assert_eq!(
        user_fields(&shown(DetailLevel::Partial)),
        vec!["id", "user_name", "email", "password", "role_id", "tfa_enabled", "tfa_verified"]
    );
    assert_eq!(
        user_fields(&shown(DetailLevel::SemiFull)),
        vec![
            "id", "user_name", "email", "password", "role_id", "tfa_enabled", "tfa_verified",
            "tfa_secret", "tfa_auth_url"
        ]
    );
    assert_eq!(user_fields(&shown(DetailLevel::Full)).len(), 11);
    let minimal = shown(DetailLevel::Minimal);
    assert_eq!(minimal.id, Some(5));
    assert_eq!(minimal.user_name, Some("ana".to_string()));
    assert_eq!(minimal.email, Some("ana@example.com".to_string()));
    assert_eq!(minimal.phone, None);
}

#[test]
fn user_input_by_level() {
    let kept = |level| User::filter_user_data_input(vec![full_user_data()], level).pop().unwrap();
    assert_eq!(user_fields(&kept(DetailLevel::Minimal)), vec!["id", "user_name", "email", "phone"]);
    assert_eq!(
        user_fields(&kept(DetailLevel::Partial)),
        vec!["id", "user_name", "email", "phone", "password", "role_id", "tfa_enabled", "tfa_verified"]
    );
    assert_eq!(
        user_fields(&kept(DetailLevel::SemiFull)),
        vec![
            "id", "user_name", "email", "phone", "password", "role_id", "tfa_enabled", "tfa_verified",
            "tfa_secret", "tfa_auth_url"
        ]
    );
    assert_eq!(kept(DetailLevel::Full), full_user_data());
}

#[test]
fn a_password_is_let_through_from_partial_upward_in_both_directions() {
    let kept = User::filter_user_data_input(vec![full_user_data()], DetailLevel::Minimal).pop().unwrap();
    assert!(kept.password.is_none());
    let shown = User::filter_user_data_output(vec![user()], DetailLevel::Minimal).pop().unwrap();
    assert!(shown.password.is_none());
    for level in [DetailLevel::Partial, DetailLevel::SemiFull, DetailLevel::Full] {
        let kept = User::filter_user_data_input(vec![full_user_data()], level).pop().unwrap();
        assert_eq!(kept.password, Some("hash".to_string()));
        let shown = User::filter_user_data_output(vec![user()], level).pop().unwrap();
        assert_eq!(shown.password, Some("hash".to_string()));
    }
}

#[test]
fn what_is_shown_is_left_unchanged_when_supplied_at_the_same_level() {
    for level in LEVELS {
        let users = User::filter_user_data_output(vec![user(), user()], level);
        assert_eq!(User::filter_user_data_input(users.clone(), level), users);
        let bookings = Booking::filter_booking_data_output(vec![booking()], level);
        assert_eq!(Booking::filter_booking_data_input(bookings.clone(), level), bookings);
        let rows = Calendar::filter_calendar_data_output(vec![calendar(Some(1), Some("c"))], level);
        assert_eq!(Calendar::filter_calendar_data_input(rows.clone(), level), rows);
    }
}

#[test]
fn higher_levels_show_no_less() {
    for low in 0..5 {
        for high in (low + 1)..5 {
            let (l1, l2) = (LEVELS[low], LEVELS[high]);
            let b1 = booking().to_wire(l1);
            let b2 = booking().to_wire(l2);
            assert!(subset(&booking_fields(&b1), &booking_fields(&b2)));
            let c1 = calendar(Some(1), Some("c")).to_wire(l1);
            let c2 = calendar(Some(1), Some("c")).to_wire(l2);
            assert!(subset(&calendar_fields(&c1), &calendar_fields(&c2)));
            let u1 = user().to_wire(l1);
            let u2 = user().to_wire(l2);
            assert!(subset(&user_fields(&u1), &user_fields(&u2)));
            let i1 = full_user_data().restrict(l1);
            let i2 = full_user_data().restrict(l2);
            assert!(subset(&user_fields(&i1), &user_fields(&i2)));
        }
    }
}

#[test]
fn projecting_twice_is_projecting_once() {
    for level in LEVELS {
        let once = Booking::filter_booking_data_input(vec![full_booking_data()], level);
        let twice = Booking::filter_booking_data_input(once.clone(), level);
        assert_eq!(once, twice);
        let once = User::filter_user_data_input(vec![full_user_data()], level);
        let twice = User::filter_user_data_input(once.clone(), level);
        assert_eq!(once, twice);
        let shown = Booking::filter_booking_data_output(vec![booking()], level);
        let again = Booking::filter_booking_data_input(shown.clone(), level);
        assert_eq!(shown, again);
    }
}

#[test]
fn field_thresholds() {
    assert!(BookingField::Id.shown(DetailLevel::Minimal));
    assert!(!BookingField::Id.shown(DetailLevel::Cero));
    assert!(!BookingField::ExternalId.shown(DetailLevel::Minimal));
    assert!(BookingField::ExternalId.shown(DetailLevel::Partial));
    assert!(!BookingField::UserId.shown(DetailLevel::Partial));
    assert!(BookingField::UserId.shown(DetailLevel::SemiFull));
    assert!(!BookingField::CreatedAt.shown(DetailLevel::SemiFull));
    assert!(BookingField::UpdatedAt.shown(DetailLevel::Full));
    assert!(CalendarField::Date.shown(DetailLevel::Partial));
    assert!(!CalendarField::Price.shown(DetailLevel::Partial));
    assert!(!CalendarField::Comment.shown(DetailLevel::SemiFull));
    assert!(UserField::Password.shown(DetailLevel::Partial));
    assert!(!UserField::Password.shown(DetailLevel::Minimal));
    assert!(UserField::Phone.shown(DetailLevel::Minimal));
    assert!(!UserField::TfaSecret.shown(DetailLevel::Partial));
    assert!(UserField::TfaAuthUrl.shown(DetailLevel::SemiFull));
    assert!(!UserField::CreatedAt.shown(DetailLevel::SemiFull));
}

#[test]
fn clones_are_equal() {
    assert_eq!(booking().clone(), booking());
    assert_eq!(calendar(Some(2), Some("x")).clone(), calendar(Some(2), Some("x")));
    assert_eq!(user().clone(), user());
    assert_eq!(full_user_data().clone(), full_user_data());
    assert_eq!(UserData::default(), UserData::default().clone());
    assert_eq!(user_fields(&UserData::default()).len(), 0);
    assert_eq!(calendar_fields(&CalendarData::default()).len(), 0);
}
