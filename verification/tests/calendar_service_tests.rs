use bigdecimal::BigDecimal;
use reservations::api::DetailLevel;
use reservations::calendar::{Calendar, CalendarData};
use reservations::calendar_service::{
    create_calendar, delete_calendar, get_calendar, resume, update_calendar, Flow, Outcome, Step,
};
use reservations::error::Error;
use reservations::filter::QueryParams;
use reservations::moment::{Date, DateTime};
use reservations::role::Role;
use reservations::store::{Reply, Request, StoreError};

fn at(secs: i64) -> DateTime {
    DateTime::new(secs, 0).unwrap()
}

fn role(level: i32) -> Role {
    Role {
        id: 2,
        role_name: "host".to_string(),
        can_get_user: false,
        can_create_user: false,
        can_update_user: false,
        can_delete_user: false,
        detail_level_user: 0,
        bypass_user_validation: false,
        can_get_plattform: false,
        can_create_plattform: false,
        can_update_plattform: false,
        can_delete_plattform: false,
        detail_level_platfform: 0,
        bypass_plattform_validation: false,
        can_get_booking: false,
        can_create_booking: false,
        can_update_booking: false,
        can_delete_booking: false,
        detail_level_booking: 0,
        bypass_booking_validation: false,
        can_get_role: false,
        can_create_role: false,
        can_update_role: false,
        can_delete_role: false,
        detail_level_role: 0,
        bypass_role_validation: false,
        can_get_property: false,
        can_create_property: false,
        can_update_property: false,
        can_delete_property: false,
        detail_level_property: 0,
        bypass_property_validation: false,
        can_get_calendar: true,
        can_create_calendar: true,
        can_update_calendar: true,
        can_delete_calendar: true,
        detail_level_calendar: level,
        bypass_calendar_validation: false,
        created_at: at(0),
        updated_at: at(0),
    }
}

fn row() -> Calendar {
    Calendar {
        id: 40,
        property_id: 3,
        booking_id: None,
        date: Date { days_from_ce: 739_038 },
        price: BigDecimal::from(120),
        available: true,
        comment: Some("sea view".to_string()),
        created_at: at(1),
        updated_at: at(2),
    }
}

fn payload() -> CalendarData {
    CalendarData {
        id: Some(40),
        property_id: Some(3),
        date: Some(Date { days_from_ce: 739_038 }),
        price: Some(BigDecimal::from(120)),
        available: Some(true),
        comment: Some("sea view".to_string()),
        ..CalendarData::default()
    }
}

fn filter(fields: &[&str], operators: &[&str], values: &[&str]) -> QueryParams {
    let strings = |items: &[&str]| Some(items.iter().map(|s| s.to_string()).collect::<Vec<_>>());
    QueryParams {
        field: strings(fields),
        operator: strings(operators),
        value: strings(values),
        ..QueryParams::default()
    }
}

#[test]
fn listing_asks_with_the_callers_filter() {
    let params = QueryParams { limit: Some(31), ..filter(&["property_id"], &["="], &["3"]) };
    match get_calendar(params, role(2)) {
        Step::Ask(Flow::Listing { level }, Request::ListCalendar(query)) => {
            assert_eq!(level, DetailLevel::Partial);
            assert_eq!(query.predicate.render(), "property_id = $1");
            assert_eq!(query.limit, 31);
            assert_eq!(query.offset, 0);
        }
        other => panic!("{:?}", other),
    }
}

#[test]
fn listing_shows_rows_at_the_roles_level() {
    let step = resume(Flow::Listing { level: DetailLevel::Partial }, Reply::CalendarRows(Ok(vec![row(), row()])));
    match step {
        Step::Done(Ok(Outcome::Listed(shown))) => {
            assert_eq!(shown.len(), 2);
            assert_eq!(
                shown[0],
                CalendarData {
                    id: Some(40),
                    property_id: Some(3),
                    date: Some(Date { days_from_ce: 739_038 }),
                    ..CalendarData::default()
                }
            );
        }
        other => panic!("{:?}", other),
    }
    assert_eq!(
        resume(Flow::Listing { level: DetailLevel::Cero }, Reply::CalendarRows(Ok(vec![row()]))),
        Step::Done(Ok(Outcome::Listed(vec![])))
    );
}

#[test]
fn creation_trims_the_payload() {
    let expected = CalendarData { comment: None, ..payload() };
    assert_eq!(
        create_calendar(payload(), role(3)),
        Step::Ask(Flow::Saving { level: DetailLevel::SemiFull }, Request::InsertCalendar(expected))
    );
    assert_eq!(
        create_calendar(payload(), role(4)),
        Step::Ask(Flow::Saving { level: DetailLevel::Full }, Request::InsertCalendar(payload()))
    );
    assert_eq!(create_calendar(payload(), role(0)), Step::Done(Err(Error::Denied)));
}

#[test]
fn update_trims_the_payload_and_keeps_the_filter() {
    match update_calendar(payload(), filter(&["id"], &["="], &["40"]), role(2)) {
        Step::Ask(Flow::Saving { level }, Request::UpdateCalendar { row, filter }) => {
            assert_eq!(level, DetailLevel::Partial);
            assert!(row.price.is_none());
            assert_eq!(row.id, Some(40));
            assert_eq!(filter.render(), "id = $1");
            assert_eq!(filter.bindings(), vec!["40".to_string()]);
        }
        other => panic!("{:?}", other),
    }
    assert_eq!(
        update_calendar(payload(), filter(&["id"], &[], &["40"]), role(2)),
        Step::Done(Err(Error::InvalidFilterSpec))
    );
    assert_eq!(
        update_calendar(payload(), QueryParams::default(), role(0)),
        Step::Done(Err(Error::Denied))
    );
}

#[test]
fn saved_row_is_shown_at_the_roles_level() {
    match resume(Flow::Saving { level: DetailLevel::SemiFull }, Reply::Calendar(Ok(row()))) {
        Step::Done(Ok(Outcome::Saved(shown))) => {
            assert_eq!(shown.price, Some(BigDecimal::from(120)));
            assert_eq!(shown.booking_id, None);
            assert!(shown.comment.is_none());
            assert!(shown.created_at.is_none());
        }
        other => panic!("{:?}", other),
    }
    assert_eq!(
        resume(Flow::Saving { level: DetailLevel::Full }, Reply::Calendar(Err(StoreError::NotFound))),
        Step::Done(Err(Error::NotFound))
    );
}

#[test]
fn removal_names_the_row_by_id() {
    match delete_calendar(payload(), filter(&["property_id"], &["="], &["3"])) {
        Step::Ask(Flow::Deleting, Request::DeleteCalendar { id, filter }) => {
            assert_eq!(id, 40);
            assert_eq!(filter.render(), "property_id = $1");
        }
        other => panic!("{:?}", other),
    }
    assert_eq!(
        delete_calendar(payload(), filter(&["a"], &["~"], &["3"])),
        Step::Done(Err(Error::InvalidFilterSpec))
    );
    assert_eq!(resume(Flow::Deleting, Reply::Count(Ok(0))), Step::Done(Ok(Outcome::Deleted(0))));
    assert_eq!(resume(Flow::Deleting, Reply::Count(Ok(2))), Step::Done(Ok(Outcome::Deleted(2))));
    assert_eq!(
        resume(Flow::Deleting, Reply::Count(Err(StoreError::Constraint))),
        Step::Done(Err(Error::ConstraintError))
    );
}

#[test]
fn calendar_reply_of_the_wrong_kind_ends_the_operation() {
    assert_eq!(
        resume(Flow::Deleting, Reply::Calendar(Ok(row()))),
        Step::Done(Err(Error::StorageUnavailable))
    );
}
