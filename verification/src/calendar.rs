//! Calendar rows, and what of a row each detail level lets through.
//!
//! A row tells for one property and one date whether the date is free, which
//! booking holds it if it is not, and what it costs.

use vstd::prelude::*;
use bigdecimal::BigDecimal;
use crate::api::DetailLevel;
use crate::moment::{Date, DateTime};

verus! {

/// `bigdecimal::BigDecimal`, an amount of money. The library carries amounts and
/// never looks inside one.
#[verifier::external_type_specification]
#[verifier::external_body]
pub struct ExBigDecimal(bigdecimal::BigDecimal);

/// Specifies `BigDecimal::clone`. Trusted: the copy is the same amount.
pub assume_specification[ <bigdecimal::BigDecimal as Clone>::clone ](
    amount: &bigdecimal::BigDecimal,
) -> (copy: bigdecimal::BigDecimal)
    ensures
        copy == *amount,
;

/// The availability of one property on one date.
#[derive(Debug, PartialEq, Eq)]
pub struct Calendar {
    pub id: i32,
    pub property_id: i32,
    pub booking_id: Option<i32>,
    pub date: Date,
    pub price: BigDecimal,
    pub available: bool,
    pub comment: Option<String>,
    pub created_at: DateTime,
    pub updated_at: DateTime,
}

/// A calendar row of which any field may be absent: what a caller supplies for a
/// write, and what a caller is shown of a stored row.
#[derive(Debug, PartialEq, Eq)]
pub struct CalendarData {
    pub id: Option<i32>,
    pub property_id: Option<i32>,
    pub booking_id: Option<i32>,
    pub date: Option<Date>,
    pub price: Option<BigDecimal>,
    pub available: Option<bool>,
    pub comment: Option<String>,
    pub created_at: Option<DateTime>,
    pub updated_at: Option<DateTime>,
}

/// The fields of a calendar row.
#[derive(Clone, Copy, Debug, PartialEq, Eq, Structural, Hash)]
pub enum CalendarField {
    Id,
    PropertyId,
    BookingId,
    Date,
    Price,
    Available,
    Comment,
    CreatedAt,
    UpdatedAt,
}

impl CalendarField {
    /// The lowest detail level that lets the field through.
    pub open spec fn min_level(self) -> DetailLevel {
        match self {
            CalendarField::Id => DetailLevel::Minimal,
            CalendarField::PropertyId | CalendarField::Date => DetailLevel::Partial,
            CalendarField::BookingId | CalendarField::Price | CalendarField::Available =>
                DetailLevel::SemiFull,
            _ => DetailLevel::Full,
        }
    }

    /// Whether `level` lets the field through.
    pub open spec fn visible(self, level: DetailLevel) -> bool {
        level.rank() >= self.min_level().rank()
    }

    /// Whether `level` lets the field through.
    pub fn shown(&self, level: DetailLevel) -> (shown: bool)
        ensures
            shown == self.visible(level),
    {
        let needed: i32 = match self {
            CalendarField::Id => 1,
            CalendarField::PropertyId | CalendarField::Date => 2,
            CalendarField::BookingId | CalendarField::Price | CalendarField::Available => 3,
            _ => 4,
        };
        level.ordinal() >= needed
    }
}

impl Default for CalendarData {
    /// The row of which every field is absent.
    fn default() -> (data: CalendarData)
        ensures
            data == CalendarData::blank(),
    {
        CalendarData {
            id: None,
            property_id: None,
            booking_id: None,
            date: None,
            price: None,
            available: None,
            comment: None,
            created_at: None,
            updated_at: None,
        }
    }
}

impl Clone for CalendarData {
    fn clone(&self) -> (copy: Self)
        ensures
            copy == *self,
    {
        CalendarData {
            id: self.id,
            property_id: self.property_id,
            booking_id: self.booking_id,
            date: self.date,
            price: self.price.clone(),
            available: self.available,
            comment: self.comment.clone(),
            created_at: self.created_at,
            updated_at: self.updated_at,
        }
    }
}

impl Clone for Calendar {
    fn clone(&self) -> (copy: Self)
        ensures
            copy == *self,
    {
        Calendar {
            id: self.id,
            property_id: self.property_id,
            booking_id: self.booking_id,
            date: self.date,
            price: self.price.clone(),
            available: self.available,
            comment: self.comment.clone(),
            created_at: self.created_at,
            updated_at: self.updated_at,
        }
    }
}

impl CalendarData {
    /// The row of which every field is absent.
    pub open spec fn blank() -> CalendarData {
        CalendarData {
            id: None,
            property_id: None,
            booking_id: None,
            date: None,
            price: None,
            available: None,
            comment: None,
            created_at: None,
            updated_at: None,
        }
    }

    /// Whether the field is present.
    pub open spec fn has(self, field: CalendarField) -> bool {
        match field {
            CalendarField::Id => self.id is Some,
            CalendarField::PropertyId => self.property_id is Some,
            CalendarField::BookingId => self.booking_id is Some,
            CalendarField::Date => self.date is Some,
            CalendarField::Price => self.price is Some,
            CalendarField::Available => self.available is Some,
            CalendarField::Comment => self.comment is Some,
            CalendarField::CreatedAt => self.created_at is Some,
            CalendarField::UpdatedAt => self.updated_at is Some,
        }
    }

    /// The fields that are present.
    pub open spec fn fields(self) -> Set<CalendarField> {
        Set::new(|field: CalendarField| self.has(field))
    }

    /// The record with the fields that `level` does not let through taken out.
    pub open spec fn restricted(self, level: DetailLevel) -> CalendarData {
        CalendarData {
            id: if CalendarField::Id.visible(level) {
                self.id
            } else {
                None
            },
            property_id: if CalendarField::PropertyId.visible(level) {
                self.property_id
            } else {
                None
            },
            booking_id: if CalendarField::BookingId.visible(level) {
                self.booking_id
            } else {
                None
            },
            date: if CalendarField::Date.visible(level) {
                self.date
            } else {
                None
            },
            price: if CalendarField::Price.visible(level) {
                self.price
            } else {
                None
            },
            available: if CalendarField::Available.visible(level) {
                self.available
            } else {
                None
            },
            comment: if CalendarField::Comment.visible(level) {
                self.comment
            } else {
                None
            },
            created_at: if CalendarField::CreatedAt.visible(level) {
                self.created_at
            } else {
                None
            },
            updated_at: if CalendarField::UpdatedAt.visible(level) {
                self.updated_at
            } else {
                None
            },
        }
    }

    /// The record with the fields that `level` does not let through taken out.
    pub fn restrict(&self, level: DetailLevel) -> (kept: CalendarData)
        ensures
            kept == self.restricted(level),
    {
        CalendarData {
            id: if CalendarField::Id.shown(level) {
                self.id
            } else {
                None
            },
            property_id: if CalendarField::PropertyId.shown(level) {
                self.property_id
            } else {
                None
            },
            booking_id: if CalendarField::BookingId.shown(level) {
                self.booking_id
            } else {
                None
            },
            date: if CalendarField::Date.shown(level) {
                self.date
            } else {
                None
            },
            price: if CalendarField::Price.shown(level) {
                self.price.clone()
            } else {
                None
            },
            available: if CalendarField::Available.shown(level) {
                self.available
            } else {
                None
            },
            comment: if CalendarField::Comment.shown(level) {
                self.comment.clone()
            } else {
                None
            },
            created_at: if CalendarField::CreatedAt.shown(level) {
                self.created_at
            } else {
                None
            },
            updated_at: if CalendarField::UpdatedAt.shown(level) {
                self.updated_at
            } else {
                None
            },
        }
    }
}

impl Calendar {
    /// The stored row with every field that it holds present.
    pub open spec fn complete(self) -> CalendarData {
        CalendarData {
            id: Some(self.id),
            property_id: Some(self.property_id),
            booking_id: self.booking_id,
            date: Some(self.date),
            price: Some(self.price),
            available: Some(self.available),
            comment: self.comment,
            created_at: Some(self.created_at),
            updated_at: Some(self.updated_at),
        }
    }

    /// What `level` shows of the stored row.
    pub open spec fn wire(self, level: DetailLevel) -> CalendarData {
        self.complete().restricted(level)
    }

    /// What `level` shows of the stored row.
    pub fn to_wire(&self, level: DetailLevel) -> (shown: CalendarData)
        ensures
            shown == self.wire(level),
    {
        let complete = CalendarData {
            id: Some(self.id),
            property_id: Some(self.property_id),
            booking_id: self.booking_id,
            date: Some(self.date),
            price: Some(self.price.clone()),
            available: Some(self.available),
            comment: self.comment.clone(),
            created_at: Some(self.created_at),
            updated_at: Some(self.updated_at),
        };
        complete.restrict(level)
    }

    /// What a caller at `level` may supply: nothing at `Cero`, else each record
    /// with the fields that the level does not let through taken out.
    pub open spec fn input_projection(records: Seq<CalendarData>, level: DetailLevel) -> Seq<
        CalendarData,
    > {
        if level is Cero {
            Seq::empty()
        } else {
            Seq::new(records.len(), |i: int| records[i].restricted(level))
        }
    }

    /// What a caller at `level` is shown: nothing at `Cero`, else of each row the
    /// fields that the level lets through.
    pub open spec fn output_projection(records: Seq<Calendar>, level: DetailLevel) -> Seq<
        CalendarData,
    > {
        if level is Cero {
            Seq::empty()
        } else {
            Seq::new(records.len(), |i: int| records[i].wire(level))
        }
    }

    /// Trims what a caller supplies to what its level may supply. At `Cero` no
    /// record is left; at `Full` the records are returned as they came.
    pub fn filter_calendar_data_input(
        calendar_data: Vec<CalendarData>,
        detail_level: DetailLevel,
    ) -> (kept: Vec<CalendarData>)
        ensures
            kept@ == Calendar::input_projection(calendar_data@, detail_level),
    {
        match detail_level {
            DetailLevel::Cero => Vec::new(),
            DetailLevel::Full => {
                assert forall|i: int| 0 <= i < calendar_data@.len() implies calendar_data@[i]
                    == #[trigger] calendar_data@[i].restricted(detail_level) by {}
                assert(calendar_data@ =~= Calendar::input_projection(calendar_data@, detail_level));
                calendar_data
            },
            _ => {
                let mut kept: Vec<CalendarData> = Vec::new();
                let mut i: usize = 0;
                while i < calendar_data.len()
                    invariant
                        0 <= i <= calendar_data.len(),
                        kept@.len() == i,
                        forall|j: int|
                            0 <= j < i ==> #[trigger] kept@[j] == calendar_data@[j].restricted(
                                detail_level,
                            ),
                    decreases calendar_data.len() - i,
                {
                    kept.push(calendar_data[i].restrict(detail_level));
                    i += 1;
                }
                assert(kept@ =~= Calendar::input_projection(calendar_data@, detail_level));
                kept
            },
        }
    }

    /// Trims stored rows to what a caller's level may see. At `Cero` no record is
    /// returned, whatever was stored. A row that no booking holds is shown
    /// without a booking.
    pub fn filter_calendar_data_output(
        calendar_data: Vec<Calendar>,
        detail_level: DetailLevel,
    ) -> (shown: Vec<CalendarData>)
        ensures
            shown@ == Calendar::output_projection(calendar_data@, detail_level),
            detail_level is Cero ==> shown@.len() == 0,
    {
        if detail_level.ordinal() == 0 {
            return Vec::new();
        }
        let mut shown: Vec<CalendarData> = Vec::new();
        let mut i: usize = 0;
        while i < calendar_data.len()
            invariant
                0 <= i <= calendar_data.len(),
                shown@.len() == i,
                forall|j: int|
                    0 <= j < i ==> #[trigger] shown@[j] == calendar_data@[j].wire(detail_level),
            decreases calendar_data.len() - i,
        {
            shown.push(calendar_data[i].to_wire(detail_level));
            i += 1;
        }
        assert(shown@ =~= Calendar::output_projection(calendar_data@, detail_level));
        shown
    }
}

/// A higher level lets through every field that a lower level lets through.
pub proof fn lemma_calendar_visibility_grows(
    field: CalendarField,
    lower: DetailLevel,
    higher: DetailLevel,
)
    requires
        lower.rank() <= higher.rank(),
    ensures
        field.visible(lower) ==> field.visible(higher),
{
}

/// Of one row, a higher level shows every field that a lower level shows.
pub proof fn lemma_calendar_output_grows(row: Calendar, lower: DetailLevel, higher: DetailLevel)
    requires
        lower.rank() < higher.rank(),
    ensures
        row.wire(lower).fields().subset_of(row.wire(higher).fields()),
{
    assert forall|field: CalendarField| row.wire(lower).fields().contains(field) implies row.wire(
        higher,
    ).fields().contains(field) by {
        assert(row.wire(lower).has(field));
        assert(row.wire(higher).has(field));
    }
}

/// Of one supplied record, a higher level keeps every field that a lower level keeps.
pub proof fn lemma_calendar_input_grows(data: CalendarData, lower: DetailLevel, higher: DetailLevel)
    requires
        lower.rank() < higher.rank(),
    ensures
        data.restricted(lower).fields().subset_of(data.restricted(higher).fields()),
{
    assert forall|field: CalendarField| data.restricted(lower).fields().contains(field) implies data.restricted(
        higher,
    ).fields().contains(field) by {
        assert(data.restricted(lower).has(field));
        assert(data.restricted(higher).has(field));
    }
}

/// Trimming twice at one level gives what trimming once gives.
pub proof fn lemma_calendar_input_idempotent(records: Seq<CalendarData>, level: DetailLevel)
    ensures
        Calendar::input_projection(Calendar::input_projection(records, level), level)
            == Calendar::input_projection(records, level),
{
    let once = Calendar::input_projection(records, level);
    let twice = Calendar::input_projection(once, level);
    if !(level is Cero) {
        assert forall|i: int| 0 <= i < once.len() implies twice[i] == once[i] by {
            assert(records[i].restricted(level).restricted(level) == records[i].restricted(level));
        }
    }
    assert(twice =~= once);
}

/// What is shown of stored rows is left unchanged by trimming it again at the
/// same level.
pub proof fn lemma_calendar_output_idempotent(records: Seq<Calendar>, level: DetailLevel)
    ensures
        Calendar::input_projection(Calendar::output_projection(records, level), level)
            == Calendar::output_projection(records, level),
{
    let once = Calendar::output_projection(records, level);
    let twice = Calendar::input_projection(once, level);
    if !(level is Cero) {
        assert forall|i: int| 0 <= i < once.len() implies twice[i] == once[i] by {
            assert(records[i].wire(level).restricted(level) == records[i].wire(level));
        }
    }
    assert(twice =~= once);
}

} // verus!
