//! Why bookings and the calendar stay in step.
//!
//! The laws of this module follow a calendar through the requests that the
//! coordinator makes, under the assumption that the store reads conditions as
//! they are meant: `available` and `booking_id` off the row, and the conditions
//! on a row's dates in some fixed way that does not depend on who holds the row.
//! They show that a creation that is carried through without another in
//! between takes exactly the rows of its window, that a later creation is
//! refused exactly when its window shares a taken row, and that a removal
//! leaves no row behind that refers to the removed booking. Two creations
//! for windows that share no row never refuse one another, however their
//! requests fall in with each other. The laws also show what the order of
//! the requests cannot do: two creations that both search before either
//! writes both go on, whether or not their windows share a row.

use vstd::prelude::*;
use crate::api::DetailLevel;
use crate::booking::{Booking, BookingData};
use crate::booking_service::{
    follows, held_by, in_window, marks_taken, owner_condition, releases, taken_in_window,
    window_taken, Flow, Step,
};
use crate::calendar::Calendar;
use crate::error::Error;
use crate::filter::{holds, ConditionModel, Operator};
use crate::moment::DateTime;
use crate::store::{Reply, Request, StoreError};
use crate::text::{decimal, lemma_decimal_injective};

verus! {

/// A calendar row as far as the laws need it: what its dates say to a condition
/// on them, whether it is free, and which booking holds it.
pub struct Slot {
    pub dated: spec_fn(ConditionModel) -> bool,
    pub available: bool,
    pub booking_id: Option<i32>,
}

/// The text of a truth value.
pub open spec fn truth_text(value: bool) -> Seq<char> {
    if value {
        "true"@
    } else {
        "false"@
    }
}

impl Slot {
    /// Whether the row meets one condition. Whether it is free, and which
    /// booking holds it, is read off the row; any other condition is answered
    /// by the row's dates.
    pub open spec fn meets(self, condition: ConditionModel) -> bool {
        if condition.field == "available"@ && condition.operator == Operator::Eq {
            condition.value == truth_text(self.available)
        } else if condition.field == "booking_id"@ && condition.operator == Operator::Eq {
            self.booking_id is Some && condition.value == decimal(self.booking_id.unwrap() as int)
        } else {
            (self.dated)(condition)
        }
    }

    /// Whether the row meets every condition of a predicate.
    pub open spec fn meets_all(self, predicate: Seq<ConditionModel>) -> bool {
        holds(predicate, |condition: ConditionModel| self.meets(condition))
    }

    /// Whether the row lies in a window.
    pub open spec fn within(self, start: DateTime, end: DateTime) -> bool {
        self.meets_all(in_window(start, end))
    }

    /// A free row is held by no booking, and a taken row by one.
    pub open spec fn consistent(self) -> bool {
        self.available <==> self.booking_id is None
    }
}

/// Whether some row of a calendar meets a predicate.
pub open spec fn any_meets(calendar: Seq<Slot>, predicate: Seq<ConditionModel>) -> bool {
    exists|i: int| 0 <= i < calendar.len() && #[trigger] calendar[i].meets_all(predicate)
}

/// The calendar after the rows that meet a predicate were set free or taken, and
/// given to a booking or to none.
pub open spec fn assigned(
    calendar: Seq<Slot>,
    predicate: Seq<ConditionModel>,
    available: bool,
    booking_id: Option<i32>,
) -> Seq<Slot> {
    Seq::new(
        calendar.len(),
        |i: int|
            if calendar[i].meets_all(predicate) {
                Slot { available, booking_id, ..calendar[i] }
            } else {
                calendar[i]
            },
    )
}

/// The calendar after the store performed a request.
pub open spec fn performed(calendar: Seq<Slot>, request: Request) -> Seq<Slot> {
    match request {
        Request::AssignCalendar { available, booking_id, filter } => assigned(
            calendar,
            filter@,
            available,
            booking_id,
        ),
        _ => calendar,
    }
}

/// Whether a search succeeded and found rows exactly when the calendar holds
/// rows that meet the predicate.
pub open spec fn truthful(
    calendar: Seq<Slot>,
    predicate: Seq<ConditionModel>,
    found: Result<Vec<Calendar>, StoreError>,
) -> bool {
    found is Ok && (window_taken(found) <==> any_meets(calendar, predicate))
}

/// Every row of the calendar is free and held by no booking, or taken and held
/// by one.
pub open spec fn consistent(calendar: Seq<Slot>) -> bool {
    forall|i: int| 0 <= i < calendar.len() ==> #[trigger] calendar[i].consistent()
}

/// The field names that the coordinator writes are all different.
proof fn lemma_field_names_differ()
    ensures
        "available"@ != "booking_id"@,
        "available"@ != "start_datetime"@,
        "available"@ != "end_datetime"@,
        "booking_id"@ != "start_datetime"@,
        "booking_id"@ != "end_datetime"@,
        "true"@ != "false"@,
{
    reveal_strlit("available");
    reveal_strlit("booking_id");
    reveal_strlit("start_datetime");
    reveal_strlit("end_datetime");
    reveal_strlit("true");
    reveal_strlit("false");
    assert("available"@.len() == 9);
    assert("booking_id"@.len() == 10);
    assert("start_datetime"@.len() == 14);
    assert("end_datetime"@.len() == 12);
    assert("true"@.len() == 4);
    assert("false"@.len() == 5);
}

/// Whether a row lies in a window is decided by its dates alone, and a row is
/// a taken row of a window exactly when it lies in the window and is not free.
pub proof fn lemma_window_reading(slot: Slot, start: DateTime, end: DateTime)
    ensures
        slot.within(start, end) == ((slot.dated)(in_window(start, end)[0]) && (slot.dated)(
            in_window(start, end)[1],
        )),
        slot.meets_all(taken_in_window(start, end)) == (slot.within(start, end) && !slot.available),
{
    lemma_field_names_differ();
    let window = in_window(start, end);
    let taken = taken_in_window(start, end);
    let reads = |condition: ConditionModel| slot.meets(condition);
    assert(slot.meets(window[0]) == (slot.dated)(window[0]));
    assert(slot.meets(window[1]) == (slot.dated)(window[1]));
    assert(reads(window[0]) == slot.meets(window[0]));
    assert(reads(window[1]) == slot.meets(window[1]));
    if (slot.dated)(window[0]) && (slot.dated)(window[1]) {
        assert forall|i: int| 0 <= i < window.len() implies #[trigger] reads(window[i]) by {
            if i == 0 {
            } else {
                assert(i == 1);
            }
        }
    }
    crate::filter::lemma_narrowed_holds(window, taken[2], reads);
    assert(taken =~= window.push(taken[2]));
    assert(reads(taken[2]) == !slot.available);
}

/// A row meets the predicate that names the rows of a booking exactly when that
/// booking holds it.
pub proof fn lemma_held_reading(slot: Slot, id: i32)
    ensures
        slot.meets_all(held_by(id)) == (slot.booking_id == Some(id)),
{
    lemma_field_names_differ();
    let held = held_by(id);
    let reads = |condition: ConditionModel| slot.meets(condition);
    assert(reads(held[0]) == slot.meets(held[0]));
    if slot.booking_id is Some && decimal(slot.booking_id.unwrap() as int) == decimal(id as int) {
        lemma_decimal_injective(slot.booking_id.unwrap() as int, id as int);
    }
    if slot.booking_id == Some(id) {
        assert forall|i: int| 0 <= i < held.len() implies #[trigger] reads(held[i]) by {
            assert(i == 0);
        }
    }
}

/// The conditions that name the bookings of two users are the same only if the
/// users are the same.
pub proof fn lemma_owner_conditions_differ(a: i32, b: i32)
    requires
        owner_condition(a) == owner_condition(b),
    ensures
        a == b,
{
    lemma_decimal_injective(a as int, b as int);
}

/// A creation that is carried through on a consistent calendar.
///
/// Where the search found a taken row in the window, the creation ends with
/// `SlotUnavailable` before anything was asked to be written. Else the record
/// is written, and the request that follows gives exactly the rows of the
/// window to the new booking: they are taken and held by it, every other row
/// is as it was, and the calendar is consistent again.
pub proof fn lemma_creation_takes_the_window(
    calendar: Seq<Slot>,
    record: BookingData,
    start: DateTime,
    end: DateTime,
    level: DetailLevel,
    found: Result<Vec<Calendar>, StoreError>,
    first: Step,
    saved: Booking,
    second: Step,
)
    requires
        consistent(calendar),
        truthful(calendar, taken_in_window(start, end), found),
        follows(
            Flow::CheckingAvailability { record, start, end, level },
            Reply::CalendarRows(found),
            first,
        ),
        follows(Flow::Inserting { start, end, level }, Reply::Booking(Ok(saved)), second),
    ensures
        any_meets(calendar, taken_in_window(start, end)) ==> first == Step::Done(
            Err(Error::SlotUnavailable),
        ),
        !any_meets(calendar, taken_in_window(start, end)) ==> {
            &&& first == Step::Ask(Flow::Inserting { start, end, level }, Request::InsertBooking(record))
            &&& second matches Step::Ask(_, request)
            &&& performed(calendar, request) == assigned(
                calendar,
                in_window(start, end),
                false,
                Some(saved.id),
            )
            &&& consistent(performed(calendar, request))
            &&& forall|i: int|
                0 <= i < calendar.len() ==> #[trigger] performed(calendar, request)[i] == if calendar[i].within(
                    start,
                    end,
                ) {
                    Slot { available: false, booking_id: Some(saved.id), ..calendar[i] }
                } else {
                    calendar[i]
                }
        },
{
    if !any_meets(calendar, taken_in_window(start, end)) {
        let request = second->Ask_1;
        assert(marks_taken(request, saved, start, end));
        let after = performed(calendar, request);
        assert(after =~= assigned(calendar, in_window(start, end), false, Some(saved.id)));
        assert forall|i: int| 0 <= i < after.len() implies #[trigger] after[i].consistent() by {
            assert(calendar[i].consistent());
        }
    }
}

/// After a creation took the rows of its window, a creation for a second window
/// is refused exactly when the two windows share a row, provided that no row of
/// the second window was taken before the first creation.
pub proof fn lemma_second_creation(
    calendar: Seq<Slot>,
    first_start: DateTime,
    first_end: DateTime,
    first_id: i32,
    record: BookingData,
    start: DateTime,
    end: DateTime,
    level: DetailLevel,
    found: Result<Vec<Calendar>, StoreError>,
    step: Step,
)
    requires
        !any_meets(calendar, taken_in_window(start, end)),
        truthful(
            assigned(calendar, in_window(first_start, first_end), false, Some(first_id)),
            taken_in_window(start, end),
            found,
        ),
        follows(
            Flow::CheckingAvailability { record, start, end, level },
            Reply::CalendarRows(found),
            step,
        ),
    ensures
        step == Step::Done(Err(Error::SlotUnavailable)) <==> exists|i: int|
            0 <= i < calendar.len() && #[trigger] calendar[i].within(first_start, first_end)
                && calendar[i].within(start, end),
        step != Step::Done(Err(Error::SlotUnavailable)) ==> step == Step::Ask(
            Flow::Inserting { start, end, level },
            Request::InsertBooking(record),
        ),
{
    let after = assigned(calendar, in_window(first_start, first_end), false, Some(first_id));
    let taken = taken_in_window(start, end);
    let shared = exists|i: int|
        0 <= i < calendar.len() && #[trigger] calendar[i].within(first_start, first_end)
            && calendar[i].within(start, end);
    if shared {
        let i = choose|i: int|
            0 <= i < calendar.len() && #[trigger] calendar[i].within(first_start, first_end)
                && calendar[i].within(start, end);
        lemma_window_reading(calendar[i], start, end);
        lemma_window_reading(after[i], start, end);
        assert(after[i].meets_all(taken));
        assert(any_meets(after, taken));
    } else {
        if any_meets(after, taken) {
            let i = choose|i: int| 0 <= i < after.len() && #[trigger] after[i].meets_all(taken);
            lemma_window_reading(calendar[i], start, end);
            lemma_window_reading(after[i], start, end);
            if calendar[i].within(first_start, first_end) {
                assert(calendar[i].within(start, end));
            } else {
                assert(after[i] == calendar[i]);
                assert(calendar[i].meets_all(taken));
            }
        }
    }
}

/// Two creations for windows that share no row never refuse one another,
/// however their requests fall in with each other.
///
/// The other creation marks its window with one request, so a search sees the
/// calendar either before or after that request. Either way it finds no taken
/// row in its own window, provided that none was taken to begin with, and the
/// creation goes on to write.
pub proof fn lemma_disjoint_creations_never_refuse(
    calendar: Seq<Slot>,
    other_start: DateTime,
    other_end: DateTime,
    other_id: i32,
    record: BookingData,
    start: DateTime,
    end: DateTime,
    level: DetailLevel,
    found: Result<Vec<Calendar>, StoreError>,
    step: Step,
)
    requires
        !any_meets(calendar, taken_in_window(start, end)),
        forall|i: int|
            0 <= i < calendar.len() ==> !(#[trigger] calendar[i].within(other_start, other_end)
                && calendar[i].within(start, end)),
        truthful(calendar, taken_in_window(start, end), found) || truthful(
            assigned(calendar, in_window(other_start, other_end), false, Some(other_id)),
            taken_in_window(start, end),
            found,
        ),
        follows(
            Flow::CheckingAvailability { record, start, end, level },
            Reply::CalendarRows(found),
            step,
        ),
    ensures
        step == Step::Ask(Flow::Inserting { start, end, level }, Request::InsertBooking(record)),
{
    if truthful(calendar, taken_in_window(start, end), found) {
    } else {
        lemma_second_creation(
            calendar,
            other_start,
            other_end,
            other_id,
            record,
            start,
            end,
            level,
            found,
            step,
        );
    }
}

/// Two creations whose searches both ran before either wrote both go on to
/// write, whether or not their windows share a row: the order of the requests
/// alone does not keep one window from being booked twice. Whoever performs
/// the requests has to carry a creation through without another in between.
pub proof fn lemma_interleaved_creations_both_go_on(
    calendar: Seq<Slot>,
    one: BookingData,
    one_start: DateTime,
    one_end: DateTime,
    other: BookingData,
    other_start: DateTime,
    other_end: DateTime,
    level: DetailLevel,
    one_found: Result<Vec<Calendar>, StoreError>,
    other_found: Result<Vec<Calendar>, StoreError>,
    one_step: Step,
    other_step: Step,
)
    requires
        !any_meets(calendar, taken_in_window(one_start, one_end)),
        !any_meets(calendar, taken_in_window(other_start, other_end)),
        truthful(calendar, taken_in_window(one_start, one_end), one_found),
        truthful(calendar, taken_in_window(other_start, other_end), other_found),
        follows(
            Flow::CheckingAvailability { record: one, start: one_start, end: one_end, level },
            Reply::CalendarRows(one_found),
            one_step,
        ),
        follows(
            Flow::CheckingAvailability { record: other, start: other_start, end: other_end, level },
            Reply::CalendarRows(other_found),
            other_step,
        ),
    ensures
        one_step == Step::Ask(
            Flow::Inserting { start: one_start, end: one_end, level },
            Request::InsertBooking(one),
        ),
        other_step == Step::Ask(
            Flow::Inserting { start: other_start, end: other_end, level },
            Request::InsertBooking(other),
        ),
{
}

/// A removal that is carried through on a consistent calendar.
///
/// Where no booking was removed the calendar is left alone. Else the request
/// that follows releases exactly the rows that the removed booking held: they
/// are free and held by none, every other row is as it was, no row refers to
/// the removed booking any more, and the calendar is consistent again.
pub proof fn lemma_removal_releases(
    calendar: Seq<Slot>,
    id: i32,
    removed: Result<usize, StoreError>,
    step: Step,
)
    requires
        consistent(calendar),
        follows(Flow::Deleting { id }, Reply::Count(removed), step),
    ensures
        !(removed matches Ok(n) && n > 0) ==> step is Done,
        removed matches Ok(n) && n > 0 ==> {
            &&& step matches Step::Ask(_, request)
            &&& consistent(performed(calendar, request))
            &&& forall|i: int|
                0 <= i < calendar.len() ==> #[trigger] performed(calendar, request)[i] == if calendar[i].booking_id
                    == Some(id) {
                    Slot { available: true, booking_id: None, ..calendar[i] }
                } else {
                    calendar[i]
                }
            &&& forall|i: int|
                0 <= i < calendar.len() ==> (#[trigger] performed(calendar, request)[i]).booking_id
                    != Some(id)
        },
{
    if removed matches Ok(n) && n > 0 {
        let request = step->Ask_1;
        assert(releases(request, id));
        let after = performed(calendar, request);
        assert(after =~= assigned(calendar, held_by(id), true, None));
        assert forall|i: int| 0 <= i < calendar.len() implies #[trigger] after[i] == if calendar[i].booking_id
            == Some(id) {
            Slot { available: true, booking_id: None, ..calendar[i] }
        } else {
            calendar[i]
        } by {
            lemma_held_reading(calendar[i], id);
        }
        assert forall|i: int| 0 <= i < after.len() implies #[trigger] after[i].consistent() by {
            assert(calendar[i].consistent());
        }
    }
}

} // verus!
