//! Bookings and the calendar, kept in step.
//!
//! A booking and the calendar rows of its window are written by separate
//! statements. This module decides their order: nothing is written before the
//! window was found free, the calendar is marked only after the booking was
//! written, and it is released only after a booking was removed. A failure of
//! the second statement is reported; the first is not undone.
//!
//! Unless the caller's role may touch the bookings of others, every read, update
//! and removal is narrowed to the caller's own bookings, and a booking that the
//! caller writes is made the caller's own.
//!
//! Each operation starts with a function that says what to ask the store first.
//! Whoever holds the store performs the request and hands the reply to
//! [`resume`], which says what to ask next, or how the operation ended.

use vstd::prelude::*;
use vstd::string::*;
use crate::api::{get_detail_level, level_of, DetailLevel};
use crate::booking::{Booking, BookingData};
use crate::calendar::Calendar;
use crate::error::Error;
use crate::filter::{compile, holds, ConditionModel, ListQuery, Operator, Predicate, QueryParams};
use crate::moment::DateTime;
use crate::role::Role;
use crate::store::{Reply, Request, StoreError};
use crate::text::{decimal, int_text};
use crate::user::User;

verus! {

/// Where an operation stands while the store works.
#[derive(Debug, PartialEq, Eq)]
pub enum Flow {
    /// Bookings are being read, to be shown at `level`.
    Listing { level: DetailLevel },
    /// The calendar is being searched for taken dates in the window; `record` is
    /// the booking to write if there is none.
    CheckingAvailability { record: BookingData, start: DateTime, end: DateTime, level: DetailLevel },
    /// A new booking for the window is being written.
    Inserting { start: DateTime, end: DateTime, level: DetailLevel },
    /// Bookings are being rewritten; where the request names a window, they
    /// are being moved to it.
    Updating { from: Option<DateTime>, until: Option<DateTime>, level: DetailLevel },
    /// The calendar rows of the window are being given to `booking`.
    MarkingTaken { booking: Booking, level: DetailLevel },
    /// The booking with this id is being removed.
    Deleting { id: i32 },
    /// The calendar rows of a removed booking are being released.
    Releasing { deleted: usize },
}

/// How an operation ended well.
#[derive(Debug, PartialEq, Eq)]
pub enum Outcome {
    /// The bookings found, as the caller may see them.
    Listed(Vec<BookingData>),
    /// The booking written, as the caller may see it.
    Saved(BookingData),
    /// How many bookings were removed.
    Deleted(usize),
}

/// What comes next: a request for the store, or the end.
#[derive(Debug, PartialEq, Eq)]
pub enum Step {
    Ask(Flow, Request),
    Done(Result<Outcome, Error>),
}

/// The condition that a booking belongs to a user.
pub open spec fn owner_condition(user_id: i32) -> ConditionModel {
    ConditionModel { field: "user_id"@, operator: Operator::Eq, value: decimal(user_id as int) }
}

/// A predicate as it is put to the store for a caller: as it is where the role
/// may touch the bookings of others, else narrowed to the caller's own.
pub open spec fn scoped(predicate: Seq<ConditionModel>, user_id: i32, bypass: bool) -> Seq<
    ConditionModel,
> {
    if bypass {
        predicate
    } else {
        predicate.push(owner_condition(user_id))
    }
}

/// A predicate narrowed to the booking that a request names by its id, where it
/// names one.
pub open spec fn named(predicate: Seq<ConditionModel>, id: Option<i32>) -> Seq<ConditionModel> {
    match id {
        Some(id) => predicate.push(
            ConditionModel { field: "id"@, operator: Operator::Eq, value: decimal(id as int) },
        ),
        None => predicate,
    }
}

/// A record as it is written for a caller: as it is where the role may touch the
/// bookings of others, else made the caller's own.
pub open spec fn owned(record: BookingData, user_id: i32, bypass: bool) -> BookingData {
    if bypass {
        record
    } else {
        BookingData { user_id: Some(user_id), ..record }
    }
}

/// The calendar rows of a window: those that start at or after its start and end
/// before its end.
pub open spec fn in_window(start: DateTime, end: DateTime) -> Seq<ConditionModel> {
    seq![
        ConditionModel { field: "start_datetime"@, operator: Operator::Ge, value: start.text() },
        ConditionModel { field: "end_datetime"@, operator: Operator::Lt, value: end.text() },
    ]
}

/// The calendar rows of a window that are taken.
pub open spec fn taken_in_window(start: DateTime, end: DateTime) -> Seq<ConditionModel> {
    in_window(start, end).push(
        ConditionModel { field: "available"@, operator: Operator::Eq, value: "false"@ },
    )
}

/// The calendar rows that a booking holds.
pub open spec fn held_by(booking_id: i32) -> Seq<ConditionModel> {
    seq![
        ConditionModel {
            field: "booking_id"@,
            operator: Operator::Eq,
            value: decimal(booking_id as int),
        },
    ]
}

/// Whether a window is taken, given what the search of the calendar said: it is
/// when the search succeeded and found a row.
pub open spec fn window_taken(found: Result<Vec<Calendar>, StoreError>) -> bool {
    found matches Ok(rows) && rows@.len() > 0
}

/// Whether a window is free, given what the search of the calendar said: it is
/// when the search succeeded and found no row. A search that failed says
/// neither.
pub open spec fn window_free(found: Result<Vec<Calendar>, StoreError>) -> bool {
    found matches Ok(rows) && rows@.len() == 0
}

/// Whether `request` gives the calendar rows of a window to a booking.
pub open spec fn marks_taken(request: Request, booking: Booking, start: DateTime, end: DateTime) -> bool {
    &&& request matches Request::AssignCalendar { available, booking_id, filter }
    &&& !available
    &&& booking_id == Some(booking.id)
    &&& filter@ == in_window(start, end)
}

/// Whether `request` releases the calendar rows that a booking held.
pub open spec fn releases(request: Request, id: i32) -> bool {
    &&& request matches Request::AssignCalendar { available, booking_id, filter }
    &&& available
    &&& booking_id is None
    &&& filter@ == held_by(id)
}

/// Whether `step` is what follows when an operation in state `flow` gets `reply`.
pub open spec fn follows(flow: Flow, reply: Reply, step: Step) -> bool {
    match (flow, reply) {
        (Flow::Listing { level }, Reply::Bookings(found)) => match found {
            Ok(rows) => step matches Step::Done(Ok(Outcome::Listed(shown))) && shown@
                == Booking::output_projection(rows@, level),
            Err(e) => step == Step::Done(Err(e.reported())),
        },
        (Flow::CheckingAvailability { record, start, end, level }, Reply::CalendarRows(found)) => match found {
            Ok(rows) => if rows@.len() > 0 {
                step == Step::Done(Err(Error::SlotUnavailable))
            } else {
                step == Step::Ask(
                    Flow::Inserting { start, end, level },
                    Request::InsertBooking(record),
                )
            },
            Err(e) => step == Step::Done(Err(e.reported())),
        },
        (Flow::Inserting { start, end, level }, Reply::Booking(saved)) => match saved {
            Ok(booking) => {
                &&& step matches Step::Ask(next, request)
                &&& next == (Flow::MarkingTaken { booking, level })
                &&& marks_taken(request, booking, start, end)
            },
            Err(e) => step == Step::Done(Err(e.reported())),
        },
        (Flow::Updating { from, until, level }, Reply::Booking(saved)) => match saved {
            Ok(booking) => if from is Some && until is Some {
                &&& step matches Step::Ask(next, request)
                &&& next == (Flow::MarkingTaken { booking, level })
                &&& marks_taken(request, booking, from.unwrap(), until.unwrap())
            } else {
                step == Step::Done(Ok(Outcome::Saved(booking.wire(level))))
            },
            Err(e) => step == Step::Done(Err(e.reported())),
        },
        (Flow::MarkingTaken { booking, level }, Reply::Count(marked)) => match marked {
            Ok(_) => step == Step::Done(Ok(Outcome::Saved(booking.wire(level)))),
            Err(e) => step == Step::Done(Err(e.reported())),
        },
        (Flow::Deleting { id }, Reply::Count(removed)) => match removed {
            Ok(n) => if n == 0 {
                step == Step::Done(Err(Error::NotFound))
            } else {
                &&& step matches Step::Ask(next, request)
                &&& next == (Flow::Releasing { deleted: n })
                &&& releases(request, id)
            },
            Err(e) => step == Step::Done(Err(e.reported())),
        },
        (Flow::Releasing { deleted }, Reply::Count(released)) => match released {
            Ok(_) => step == Step::Done(Ok(Outcome::Deleted(deleted))),
            Err(e) => step == Step::Done(Err(e.reported())),
        },
        _ => step == Step::Done(Err(Error::StorageUnavailable)),
    }
}

/// Narrows a predicate to the caller's own bookings, unless the role may touch
/// the bookings of others.
pub fn scope(predicate: Predicate, user_id: i32, bypass: bool) -> (narrowed: Predicate)
    ensures
        narrowed@ == scoped(predicate@, user_id, bypass),
{
    if bypass {
        predicate
    } else {
        predicate.and("user_id", Operator::Eq, int_text(user_id as i128))
    }
}

/// The predicate that selects the calendar rows of a window.
fn window(start: &DateTime, end: &DateTime) -> (predicate: Predicate)
    ensures
        predicate@ == in_window(*start, *end),
{
    let predicate = Predicate::new().and("start_datetime", Operator::Ge, start.to_text()).and(
        "end_datetime",
        Operator::Lt,
        end.to_text(),
    );
    assert(predicate@ =~= in_window(*start, *end));
    predicate
}

/// Starts a listing of bookings.
///
/// Parameters that describe no filter end the listing with
/// `InvalidFilterSpec`. Else the store is asked for the bookings that meet the
/// filter, narrowed to the caller's own unless the role may see those of
/// others, with the limit and offset of the parameters or their defaults.
pub fn get_booking(params: QueryParams, user: User, role: Role) -> (step: Step)
    ensures
        !params.valid() ==> step == Step::Done(Err(Error::InvalidFilterSpec)),
        params.valid() ==> {
            &&& step matches Step::Ask(flow, Request::ListBookings(query))
            &&& flow == (Flow::Listing { level: level_of(role.detail_level_booking as int) })
            &&& query.predicate@ == scoped(
                params.conditions(),
                user.id,
                role.bypass_booking_validation,
            )
            &&& query.limit == params.row_limit()
            &&& query.offset == params.row_offset()
        },
{
    let query = match crate::filter::list_query(&params) {
        Ok(query) => query,
        Err(e) => {
            return Step::Done(Err(e));
        },
    };
    let ListQuery { predicate, limit, offset } = query;
    let narrowed = scope(predicate, user.id, role.bypass_booking_validation);
    Step::Ask(
        Flow::Listing { level: get_detail_level(role.detail_level_booking) },
        Request::ListBookings(ListQuery { predicate: narrowed, limit, offset }),
    )
}

/// Starts the creation of a booking for the window that the request names.
///
/// A role whose detail level for bookings is `Cero` is denied. Else the record
/// to write is the request with the fields that the level may not supply taken
/// out, made the caller's own unless the role may write for others, and the
/// store is first asked for the taken calendar rows of the window. Nothing is
/// written at this point.
pub fn create_booking(data: BookingData, user: User, role: Role) -> (step: Step)
    requires
        data.start_datetime is Some,
        data.end_datetime is Some,
    ensures
        level_of(role.detail_level_booking as int) is Cero ==> step == Step::Done(
            Err(Error::Denied),
        ),
        !(level_of(role.detail_level_booking as int) is Cero) ==> {
            &&& step matches Step::Ask(flow, Request::ListCalendar(query))
            &&& flow == (Flow::CheckingAvailability {
                record: owned(
                    data.restricted(level_of(role.detail_level_booking as int)),
                    user.id,
                    role.bypass_booking_validation,
                ),
                start: data.start_datetime.unwrap(),
                end: data.end_datetime.unwrap(),
                level: level_of(role.detail_level_booking as int),
            })
            &&& query.predicate@ == taken_in_window(
                data.start_datetime.unwrap(),
                data.end_datetime.unwrap(),
            )
            &&& query.limit == 10
            &&& query.offset == 0
        },
{
    let level = get_detail_level(role.detail_level_booking);
    if level.ordinal() == 0 {
        return Step::Done(Err(Error::Denied));
    }
    let start = data.start_datetime.unwrap();
    let end = data.end_datetime.unwrap();
    let mut record = data.restrict(level);
    if !role.bypass_booking_validation {
        record.user_id = Some(user.id);
    }
    let taken = window(&start, &end).and("available", Operator::Eq, String::from_str("false"));
    Step::Ask(
        Flow::CheckingAvailability { record, start, end, level },
        Request::ListCalendar(ListQuery::of(taken)),
    )
}

/// Whether `step` is how an update begins.
///
/// Parameters that describe no filter end it with `InvalidFilterSpec`, and a
/// role whose detail level for bookings is `Cero` is denied. Else the store is
/// asked to write the request, with the fields that the level may not supply
/// taken out, to the bookings that meet the filter and, where the request
/// names a booking by its id, have that id. Unless the role may write for
/// others, the filter is narrowed to the caller's own bookings and the record
/// is made the caller's own.
pub open spec fn update_begins(
    data: BookingData,
    params: QueryParams,
    user: User,
    role: Role,
    step: Step,
) -> bool {
    let level = level_of(role.detail_level_booking as int);
    if !params.valid() {
        step == Step::Done(Err(Error::InvalidFilterSpec))
    } else if level is Cero {
        step == Step::Done(Err(Error::Denied))
    } else {
        &&& step matches Step::Ask(flow, Request::UpdateBooking { booking, filter })
        &&& flow == (Flow::Updating { from: data.start_datetime, until: data.end_datetime, level })
        &&& booking == owned(data.restricted(level), user.id, role.bypass_booking_validation)
        &&& filter@ == scoped(
            named(params.conditions(), data.id),
            user.id,
            role.bypass_booking_validation,
        )
    }
}

/// Starts the update of bookings.
///
/// Parameters that describe no filter end the update with `InvalidFilterSpec`,
/// and a role whose detail level for bookings is `Cero` is denied. Else the
/// store is asked to write the request, with the fields that the level may not
/// supply taken out, to the bookings that meet the filter and, where the
/// request names a booking by its id, have that id. Unless the role may write
/// for others, the filter is narrowed to the caller's own bookings and the
/// record is made the caller's own. Where the request names a window, the
/// calendar rows of that window are given to the booking afterwards.
pub fn update_booking(data: BookingData, params: QueryParams, user: User, role: Role) -> (step: Step)
    ensures
        update_begins(data, params, user, role, step),
{
    let predicate = match compile(&params) {
        Ok(predicate) => predicate,
        Err(e) => {
            return Step::Done(Err(e));
        },
    };
    let level = get_detail_level(role.detail_level_booking);
    if level.ordinal() == 0 {
        return Step::Done(Err(Error::Denied));
    }
    let from = data.start_datetime;
    let until = data.end_datetime;
    let mut record = data.restrict(level);
    if !role.bypass_booking_validation {
        record.user_id = Some(user.id);
    }
    let predicate = match data.id {
        Some(id) => predicate.and("id", Operator::Eq, int_text(id as i128)),
        None => predicate,
    };
    let filter = scope(predicate, user.id, role.bypass_booking_validation);
    Step::Ask(Flow::Updating { from, until, level }, Request::UpdateBooking { booking: record, filter })
}

/// Starts the removal of the booking that the request names by its id.
///
/// Parameters that describe no filter end the removal with
/// `InvalidFilterSpec`. Else the store is asked to remove the booking with
/// that id among those that meet the filter, narrowed to the caller's own
/// unless the role may remove those of others.
pub fn delete_booking(data: BookingData, params: QueryParams, user: User, role: Role) -> (step: Step)
    requires
        data.id is Some,
    ensures
        !params.valid() ==> step == Step::Done(Err(Error::InvalidFilterSpec)),
        params.valid() ==> {
            &&& step matches Step::Ask(flow, Request::DeleteBooking { id, filter })
            &&& flow == (Flow::Deleting { id: data.id.unwrap() })
            &&& id == data.id.unwrap()
            &&& filter@ == scoped(params.conditions(), user.id, role.bypass_booking_validation)
        },
{
    let predicate = match compile(&params) {
        Ok(predicate) => predicate,
        Err(e) => {
            return Step::Done(Err(e));
        },
    };
    let id = data.id.unwrap();
    let filter = scope(predicate, user.id, role.bypass_booking_validation);
    Step::Ask(Flow::Deleting { id }, Request::DeleteBooking { id, filter })
}

/// Asks the store to give the calendar rows of a window to a booking that was
/// just written.
fn mark_taken(booking: Booking, start: DateTime, end: DateTime, level: DetailLevel) -> (step: Step)
    ensures
        step matches Step::Ask(next, request) && next == (Flow::MarkingTaken { booking, level })
            && marks_taken(request, booking, start, end),
{
    let request = Request::AssignCalendar {
        available: false,
        booking_id: Some(booking.id),
        filter: window(&start, &end),
    };
    Step::Ask(Flow::MarkingTaken { booking, level }, request)
}

/// Takes an operation one step further with the store's reply.
///
/// A creation ends with `SlotUnavailable`, and writes nothing, exactly when the
/// search of the calendar found a taken row. It ends with the failure of the
/// store, and writes nothing, when the search failed. Else the booking is
/// written, and after it the calendar. A removal that removed nothing ends with `NotFound`
/// and leaves the calendar alone. What is shown of a written booking is what
/// the caller's level lets through. A reply of a kind that the state did not
/// ask for ends the operation with `StorageUnavailable`.
pub fn resume(flow: Flow, reply: Reply) -> (step: Step)
    ensures
        follows(flow, reply, step),
{
    match (flow, reply) {
        (Flow::Listing { level }, Reply::Bookings(found)) => {
            match found {
                Ok(rows) => Step::Done(
                    Ok(Outcome::Listed(Booking::filter_booking_data_output(rows, level))),
                ),
                Err(e) => Step::Done(Err(e.to_error())),
            }
        },
        (Flow::CheckingAvailability { record, start, end, level }, Reply::CalendarRows(found)) => {
            match found {
                Ok(rows) => {
                    if rows.len() > 0 {
                        Step::Done(Err(Error::SlotUnavailable))
                    } else {
                        Step::Ask(
                            Flow::Inserting { start, end, level },
                            Request::InsertBooking(record),
                        )
                    }
                },
                Err(e) => Step::Done(Err(e.to_error())),
            }
        },
        (Flow::Inserting { start, end, level }, Reply::Booking(saved)) => {
            match saved {
                Ok(booking) => mark_taken(booking, start, end, level),
                Err(e) => Step::Done(Err(e.to_error())),
            }
        },
        (Flow::Updating { from, until, level }, Reply::Booking(saved)) => {
            match saved {
                Ok(booking) => match (from, until) {
                    (Some(start), Some(end)) => mark_taken(booking, start, end, level),
                    _ => Step::Done(Ok(Outcome::Saved(booking.to_wire(level)))),
                },
                Err(e) => Step::Done(Err(e.to_error())),
            }
        },
        (Flow::MarkingTaken { booking, level }, Reply::Count(marked)) => {
            match marked {
                Ok(_) => Step::Done(Ok(Outcome::Saved(booking.to_wire(level)))),
                Err(e) => Step::Done(Err(e.to_error())),
            }
        },
        (Flow::Deleting { id }, Reply::Count(removed)) => {
            match removed {
                Ok(n) => {
                    if n == 0 {
                        Step::Done(Err(Error::NotFound))
                    } else {
                        let held = Predicate::new().and(
                            "booking_id",
                            Operator::Eq,
                            int_text(id as i128),
                        );
                        assert(held@ =~= held_by(id));
                        Step::Ask(
                            Flow::Releasing { deleted: n },
                            Request::AssignCalendar { available: true, booking_id: None, filter: held },
                        )
                    }
                },
                Err(e) => Step::Done(Err(e.to_error())),
            }
        },
        (Flow::Releasing { deleted }, Reply::Count(released)) => {
            match released {
                Ok(_) => Step::Done(Ok(Outcome::Deleted(deleted))),
                Err(e) => Step::Done(Err(e.to_error())),
            }
        },
        _ => Step::Done(Err(Error::StorageUnavailable)),
    }
}

/// Every row that meets a predicate put to the store for a caller whose role may
/// not touch the bookings of others belongs to the caller, and meets the
/// predicate as the caller wrote it.
pub proof fn lemma_scoped_rows_are_own(
    predicate: Seq<ConditionModel>,
    user_id: i32,
    row: spec_fn(ConditionModel) -> bool,
)
    requires
        holds(scoped(predicate, user_id, false), row),
    ensures
        row(owner_condition(user_id)),
        holds(predicate, row),
{
    crate::filter::lemma_narrowed_holds(predicate, owner_condition(user_id), row);
}

/// An update by a caller whose role may not touch the bookings of others stays
/// with the caller's own bookings, whatever the request holds.
///
/// Nothing but an update is asked of the store, and only where the filter is
/// one and the role's level is above `Cero`. Every booking that the update's
/// filter lets through belongs to the caller, meets the filter as the caller
/// wrote it and has the id that the request names, if it names one; and the
/// record that is written is the caller's own. Where
/// the store finds no such booking, the update ends with `NotFound`: nothing
/// more is asked, and nothing of any booking is shown.
pub proof fn lemma_update_stays_with_own_bookings(
    data: BookingData,
    params: QueryParams,
    user: User,
    role: Role,
    first: Step,
    row: spec_fn(ConditionModel) -> bool,
    second: Step,
)
    requires
        !role.bypass_booking_validation,
        update_begins(data, params, user, role, first),
        first matches Step::Ask(flow, _) ==> follows(
            flow,
            Reply::Booking(Err(StoreError::NotFound)),
            second,
        ),
    ensures
        first matches Step::Ask(_, request) ==> {
            &&& request matches Request::UpdateBooking { booking, filter }
            &&& booking.user_id == Some(user.id)
            &&& holds(filter@, row) ==> row(owner_condition(user.id)) && holds(
                params.conditions(),
                row,
            ) && (data.id is Some ==> row(named(params.conditions(), data.id).last()))
            &&& second == Step::Done(Err(Error::NotFound))
        },
        first matches Step::Done(outcome) ==> outcome is Err,
{
    if first is Ask {
        let request = first->Ask_1;
        let filter = request->UpdateBooking_filter;
        if holds(filter@, row) {
            lemma_scoped_rows_are_own(named(params.conditions(), data.id), user.id, row);
            if data.id is Some {
                crate::filter::lemma_narrowed_holds(
                    params.conditions(),
                    named(params.conditions(), data.id).last(),
                    row,
                );
            }
        }
    }
}

/// A creation ends with `SlotUnavailable` exactly when the search of the
/// calendar found a taken row in the window; it goes on to write the booking
/// exactly when the search found none; and a search that failed ends it with
/// the failure of the store.
pub proof fn lemma_unavailable_only_when_taken(
    record: BookingData,
    start: DateTime,
    end: DateTime,
    level: DetailLevel,
    found: Result<Vec<Calendar>, StoreError>,
    step: Step,
)
    requires
        follows(
            Flow::CheckingAvailability { record, start, end, level },
            Reply::CalendarRows(found),
            step,
        ),
    ensures
        step == Step::Done(Err(Error::SlotUnavailable)) <==> window_taken(found),
        step is Ask <==> window_free(found),
        window_free(found) ==> step == Step::Ask(
            Flow::Inserting { start, end, level },
            Request::InsertBooking(record),
        ),
        found matches Err(e) ==> step == Step::Done(Err(e.reported())),
{
}

/// A removal releases calendar rows only for a booking that was removed, and
/// then exactly the rows that the booking held.
pub proof fn lemma_release_follows_removal(id: i32, removed: Result<usize, StoreError>, step: Step)
    requires
        follows(Flow::Deleting { id }, Reply::Count(removed), step),
    ensures
        step is Ask <==> (removed matches Ok(n) && n > 0),
        step matches Step::Ask(_, request) ==> releases(request, id),
        removed == Ok::<usize, StoreError>(0) ==> step == Step::Done(Err(Error::NotFound)),
{
}

impl Flow {
    /// How many requests an operation in this state may still make, at most.
    pub open spec fn remaining(self) -> nat {
        match self {
            Flow::Listing { .. } => 1,
            Flow::CheckingAvailability { .. } => 3,
            Flow::Inserting { .. } => 2,
            Flow::Updating { .. } => 2,
            Flow::MarkingTaken { .. } => 1,
            Flow::Deleting { .. } => 2,
            Flow::Releasing { .. } => 1,
        }
    }
}

/// Every reply brings an operation nearer to its end: no operation asks the
/// store more than three times.
pub proof fn lemma_operation_advances(flow: Flow, reply: Reply, step: Step)
    requires
        follows(flow, reply, step),
    ensures
        step matches Step::Ask(next, _) ==> next.remaining() < flow.remaining(),
        flow.remaining() <= 3,
{
}

} // verus!
