//! Calendar rows, as a conversation with the store.
//!
//! Each operation starts with a function that says what to ask the store.
//! Whoever holds the store performs the request and hands the reply to
//! [`resume`], which says how the operation ended.

use vstd::prelude::*;
use crate::api::{get_detail_level, level_of, DetailLevel};
use crate::calendar::{Calendar, CalendarData};
use crate::error::Error;
use crate::filter::{compile, list_query, QueryParams};
use crate::role::Role;
use crate::store::{Reply, Request};

verus! {

/// Where an operation stands while the store works.
#[derive(Debug, PartialEq, Eq)]
pub enum Flow {
    /// Rows are being read, to be shown at `level`.
    Listing { level: DetailLevel },
    /// A row is being written, to be shown at `level`.
    Saving { level: DetailLevel },
    /// A row is being removed.
    Deleting,
}

/// How an operation ended well.
#[derive(Debug, PartialEq, Eq)]
pub enum Outcome {
    /// The rows found, as the caller may see them.
    Listed(Vec<CalendarData>),
    /// The row written, as the caller may see it.
    Saved(CalendarData),
    /// How many rows were removed.
    Deleted(usize),
}

/// What comes next: a request for the store, or the end.
#[derive(Debug, PartialEq, Eq)]
pub enum Step {
    Ask(Flow, Request),
    Done(Result<Outcome, Error>),
}

/// Whether `step` is what follows when an operation in state `flow` gets `reply`.
pub open spec fn follows(flow: Flow, reply: Reply, step: Step) -> bool {
    match (flow, reply) {
        (Flow::Listing { level }, Reply::CalendarRows(found)) => match found {
            Ok(rows) => step matches Step::Done(Ok(Outcome::Listed(shown))) && shown@
                == Calendar::output_projection(rows@, level),
            Err(e) => step == Step::Done(Err(e.reported())),
        },
        (Flow::Saving { level }, Reply::Calendar(saved)) => match saved {
            Ok(row) => step == Step::Done(Ok(Outcome::Saved(row.wire(level)))),
            Err(e) => step == Step::Done(Err(e.reported())),
        },
        (Flow::Deleting, Reply::Count(removed)) => match removed {
            Ok(n) => step == Step::Done(Ok(Outcome::Deleted(n))),
            Err(e) => step == Step::Done(Err(e.reported())),
        },
        _ => step == Step::Done(Err(Error::StorageUnavailable)),
    }
}

/// Starts a listing of calendar rows.
///
/// Parameters that describe no filter end the listing with
/// `InvalidFilterSpec`. Else the store is asked for the rows that meet the
/// filter, with the limit and offset of the parameters or their defaults.
pub fn get_calendar(params: QueryParams, role: Role) -> (step: Step)
    ensures
        !params.valid() ==> step == Step::Done(Err(Error::InvalidFilterSpec)),
        params.valid() ==> {
            &&& step matches Step::Ask(flow, Request::ListCalendar(query))
            &&& flow == (Flow::Listing { level: level_of(role.detail_level_calendar as int) })
            &&& query.predicate@ == params.conditions()
            &&& query.limit == params.row_limit()
            &&& query.offset == params.row_offset()
        },
{
    match list_query(&params) {
        Ok(query) => Step::Ask(
            Flow::Listing { level: get_detail_level(role.detail_level_calendar) },
            Request::ListCalendar(query),
        ),
        Err(e) => Step::Done(Err(e)),
    }
}

/// Starts the creation of a calendar row.
///
/// A role whose detail level for the calendar is `Cero` is denied. Else the
/// store is asked to add the row, with the fields that the level may not
/// supply taken out.
pub fn create_calendar(data: CalendarData, role: Role) -> (step: Step)
    ensures
        level_of(role.detail_level_calendar as int) is Cero ==> step == Step::Done(
            Err(Error::Denied),
        ),
        !(level_of(role.detail_level_calendar as int) is Cero) ==> step == Step::Ask(
            Flow::Saving { level: level_of(role.detail_level_calendar as int) },
            Request::InsertCalendar(data.restricted(level_of(role.detail_level_calendar as int))),
        ),
{
    let level = get_detail_level(role.detail_level_calendar);
    if level.ordinal() == 0 {
        return Step::Done(Err(Error::Denied));
    }
    Step::Ask(Flow::Saving { level }, Request::InsertCalendar(data.restrict(level)))
}

/// Starts the update of calendar rows.
///
/// Parameters that describe no filter end the update with `InvalidFilterSpec`,
/// and a role whose detail level for the calendar is `Cero` is denied. Else
/// the store is asked to write the record, with the fields that the level may
/// not supply taken out, to the rows that meet the filter.
pub fn update_calendar(data: CalendarData, params: QueryParams, role: Role) -> (step: Step)
    ensures
        !params.valid() ==> step == Step::Done(Err(Error::InvalidFilterSpec)),
        params.valid() && level_of(role.detail_level_calendar as int) is Cero ==> step
            == Step::Done(Err(Error::Denied)),
        params.valid() && !(level_of(role.detail_level_calendar as int) is Cero) ==> {
            &&& step matches Step::Ask(flow, Request::UpdateCalendar { row, filter })
            &&& flow == (Flow::Saving { level: level_of(role.detail_level_calendar as int) })
            &&& row == data.restricted(level_of(role.detail_level_calendar as int))
            &&& filter@ == params.conditions()
        },
{
    let filter = match compile(&params) {
        Ok(filter) => filter,
        Err(e) => {
            return Step::Done(Err(e));
        },
    };
    let level = get_detail_level(role.detail_level_calendar);
    if level.ordinal() == 0 {
        return Step::Done(Err(Error::Denied));
    }
    Step::Ask(Flow::Saving { level }, Request::UpdateCalendar { row: data.restrict(level), filter })
}

/// Starts the removal of the calendar row that the request names by its id.
///
/// Parameters that describe no filter end the removal with
/// `InvalidFilterSpec`. Else the store is asked to remove the row with that id
/// among those that meet the filter.
pub fn delete_calendar(data: CalendarData, params: QueryParams) -> (step: Step)
    requires
        data.id is Some,
    ensures
        !params.valid() ==> step == Step::Done(Err(Error::InvalidFilterSpec)),
        params.valid() ==> {
            &&& step matches Step::Ask(flow, Request::DeleteCalendar { id, filter })
            &&& flow == Flow::Deleting
            &&& id == data.id.unwrap()
            &&& filter@ == params.conditions()
        },
{
    match compile(&params) {
        Ok(filter) => Step::Ask(
            Flow::Deleting,
            Request::DeleteCalendar { id: data.id.unwrap(), filter },
        ),
        Err(e) => Step::Done(Err(e)),
    }
}

/// Ends an operation with the store's reply: what was read or written is shown
/// as the caller's level lets through, and a failure of the store is reported.
/// A reply of a kind that the state did not ask for ends the operation with
/// `StorageUnavailable`.
pub fn resume(flow: Flow, reply: Reply) -> (step: Step)
    ensures
        follows(flow, reply, step),
{
    match (flow, reply) {
        (Flow::Listing { level }, Reply::CalendarRows(found)) => {
            match found {
                Ok(rows) => Step::Done(
                    Ok(Outcome::Listed(Calendar::filter_calendar_data_output(rows, level))),
                ),
                Err(e) => Step::Done(Err(e.to_error())),
            }
        },
        (Flow::Saving { level }, Reply::Calendar(saved)) => {
            match saved {
                Ok(row) => Step::Done(Ok(Outcome::Saved(row.to_wire(level)))),
                Err(e) => Step::Done(Err(e.to_error())),
            }
        },
        (Flow::Deleting, Reply::Count(removed)) => {
            match removed {
                Ok(n) => Step::Done(Ok(Outcome::Deleted(n))),
                Err(e) => Step::Done(Err(e.to_error())),
            }
        },
        _ => Step::Done(Err(Error::StorageUnavailable)),
    }
}

/// Every operation ends with the first reply of the store.
pub proof fn lemma_operation_ends(flow: Flow, reply: Reply, step: Step)
    requires
        follows(flow, reply, step),
    ensures
        step is Done,
{
}

} // verus!
