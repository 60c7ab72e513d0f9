//! Bookings, and what of a booking each detail level lets through.

use vstd::prelude::*;
use crate::api::DetailLevel;
use crate::moment::{Date, DateTime};

verus! {

/// A reservation of one property by one user for the window from
/// `start_datetime` up to, not including, `end_datetime`.
#[derive(Debug, PartialEq, Eq)]
pub struct Booking {
    pub id: i32,
    pub external_id: String,
    pub property_id: i32,
    pub plattform_id: i32,
    pub payment_id: i32,
    pub user_id: i32,
    pub num_adults: i32,
    pub num_children: i32,
    pub booking_date: Date,
    pub start_datetime: DateTime,
    pub end_datetime: DateTime,
    pub created_at: DateTime,
    pub updated_at: DateTime,
}

/// A booking of which any field may be absent: what a caller supplies for a
/// write, and what a caller is shown of a stored booking.
#[derive(Debug, PartialEq, Eq)]
pub struct BookingData {
    pub id: Option<i32>,
    pub external_id: Option<String>,
    pub property_id: Option<i32>,
    pub plattform_id: Option<i32>,
    pub payment_id: Option<i32>,
    pub user_id: Option<i32>,
    pub num_adults: Option<i32>,
    pub num_children: Option<i32>,
    pub booking_date: Option<Date>,
    pub start_datetime: Option<DateTime>,
    pub end_datetime: Option<DateTime>,
    pub created_at: Option<DateTime>,
    pub updated_at: Option<DateTime>,
}

/// The fields of a booking.
#[derive(Clone, Copy, Debug, PartialEq, Eq, Structural, Hash)]
pub enum BookingField {
    Id,
    ExternalId,
    PropertyId,
    PlattformId,
    PaymentId,
    UserId,
    NumAdults,
    NumChildren,
    BookingDate,
    StartDatetime,
    EndDatetime,
    CreatedAt,
    UpdatedAt,
}

impl BookingField {
    /// The lowest detail level that lets the field through.
    pub open spec fn min_level(self) -> DetailLevel {
        match self {
            BookingField::Id => DetailLevel::Minimal,
            BookingField::ExternalId | BookingField::PropertyId => DetailLevel::Partial,
            BookingField::CreatedAt | BookingField::UpdatedAt => DetailLevel::Full,
            _ => DetailLevel::SemiFull,
        }
    }

    /// Whether `level` lets the field through.
    pub open spec fn visible(self, level: DetailLevel) -> bool {
        level.rank() >= self.min_level().rank()
    }

    /// Whether `level` lets the field through.
    pub fn shown(&self, level: DetailLevel) -> (shown: bool)
        ensures
            shown == self.visible(level),
    {
        let needed: i32 = match self {
            BookingField::Id => 1,
            BookingField::ExternalId | BookingField::PropertyId => 2,
            BookingField::CreatedAt | BookingField::UpdatedAt => 4,
            _ => 3,
        };
        level.ordinal() >= needed
    }
}

impl Default for BookingData {
    /// The booking of which every field is absent.
    fn default() -> (data: BookingData)
        ensures
            data == BookingData::blank(),
    {
        BookingData {
            id: None,
            external_id: None,
            property_id: None,
            plattform_id: None,
            payment_id: None,
            user_id: None,
            num_adults: None,
            num_children: None,
            booking_date: None,
            start_datetime: None,
            end_datetime: None,
            created_at: None,
            updated_at: None,
        }
    }
}

impl Clone for BookingData {
    fn clone(&self) -> (copy: Self)
        ensures
            copy == *self,
    {
        BookingData {
            id: self.id,
            external_id: self.external_id.clone(),
            property_id: self.property_id,
            plattform_id: self.plattform_id,
            payment_id: self.payment_id,
            user_id: self.user_id,
            num_adults: self.num_adults,
            num_children: self.num_children,
            booking_date: self.booking_date,
            start_datetime: self.start_datetime,
            end_datetime: self.end_datetime,
            created_at: self.created_at,
            updated_at: self.updated_at,
        }
    }
}

impl Clone for Booking {
    fn clone(&self) -> (copy: Self)
        ensures
            copy == *self,
    {
        Booking {
            id: self.id,
            external_id: self.external_id.clone(),
            property_id: self.property_id,
            plattform_id: self.plattform_id,
            payment_id: self.payment_id,
            user_id: self.user_id,
            num_adults: self.num_adults,
            num_children: self.num_children,
            booking_date: self.booking_date,
            start_datetime: self.start_datetime,
            end_datetime: self.end_datetime,
            created_at: self.created_at,
            updated_at: self.updated_at,
        }
    }
}

impl BookingData {
    /// The booking of which every field is absent.
    pub open spec fn blank() -> BookingData {
        BookingData {
            id: None,
            external_id: None,
            property_id: None,
            plattform_id: None,
            payment_id: None,
            user_id: None,
            num_adults: None,
            num_children: None,
            booking_date: None,
            start_datetime: None,
            end_datetime: None,
            created_at: None,
            updated_at: None,
        }
    }

    /// Whether the field is present.
    pub open spec fn has(self, field: BookingField) -> bool {
        match field {
            BookingField::Id => self.id is Some,
            BookingField::ExternalId => self.external_id is Some,
            BookingField::PropertyId => self.property_id is Some,
            BookingField::PlattformId => self.plattform_id is Some,
            BookingField::PaymentId => self.payment_id is Some,
            BookingField::UserId => self.user_id is Some,
            BookingField::NumAdults => self.num_adults is Some,
            BookingField::NumChildren => self.num_children is Some,
            BookingField::BookingDate => self.booking_date is Some,
            BookingField::StartDatetime => self.start_datetime is Some,
            BookingField::EndDatetime => self.end_datetime is Some,
            BookingField::CreatedAt => self.created_at is Some,
            BookingField::UpdatedAt => self.updated_at is Some,
        }
    }

    /// The fields that are present.
    pub open spec fn fields(self) -> Set<BookingField> {
        Set::new(|field: BookingField| self.has(field))
    }

    /// The record with the fields that `level` does not let through taken out.
    pub open spec fn restricted(self, level: DetailLevel) -> BookingData {
        BookingData {
            id: if BookingField::Id.visible(level) {
                self.id
            } else {
                None
            },
            external_id: if BookingField::ExternalId.visible(level) {
                self.external_id
            } else {
                None
            },
            property_id: if BookingField::PropertyId.visible(level) {
                self.property_id
            } else {
                None
            },
            plattform_id: if BookingField::PlattformId.visible(level) {
                self.plattform_id
            } else {
                None
            },
            payment_id: if BookingField::PaymentId.visible(level) {
                self.payment_id
            } else {
                None
            },
            user_id: if BookingField::UserId.visible(level) {
                self.user_id
            } else {
                None
            },
            num_adults: if BookingField::NumAdults.visible(level) {
                self.num_adults
            } else {
                None
            },
            num_children: if BookingField::NumChildren.visible(level) {
                self.num_children
            } else {
                None
            },
            booking_date: if BookingField::BookingDate.visible(level) {
                self.booking_date
            } else {
                None
            },
            start_datetime: if BookingField::StartDatetime.visible(level) {
                self.start_datetime
            } else {
                None
            },
            end_datetime: if BookingField::EndDatetime.visible(level) {
                self.end_datetime
            } else {
                None
            },
            created_at: if BookingField::CreatedAt.visible(level) {
                self.created_at
            } else {
                None
            },
            updated_at: if BookingField::UpdatedAt.visible(level) {
                self.updated_at
            } else {
                None
            },
        }
    }

    /// The record with the fields that `level` does not let through taken out.
    pub fn restrict(&self, level: DetailLevel) -> (kept: BookingData)
        ensures
            kept == self.restricted(level),
    {
        BookingData {
            id: if BookingField::Id.shown(level) {
                self.id
            } else {
                None
            },
            external_id: if BookingField::ExternalId.shown(level) {
                self.external_id.clone()
            } else {
                None
            },
            property_id: if BookingField::PropertyId.shown(level) {
                self.property_id
            } else {
                None
            },
            plattform_id: if BookingField::PlattformId.shown(level) {
                self.plattform_id
            } else {
                None
            },
            payment_id: if BookingField::PaymentId.shown(level) {
                self.payment_id
            } else {
                None
            },
            user_id: if BookingField::UserId.shown(level) {
                self.user_id
            } else {
                None
            },
            num_adults: if BookingField::NumAdults.shown(level) {
                self.num_adults
            } else {
                None
            },
            num_children: if BookingField::NumChildren.shown(level) {
                self.num_children
            } else {
                None
            },
            booking_date: if BookingField::BookingDate.shown(level) {
                self.booking_date
            } else {
                None
            },
            start_datetime: if BookingField::StartDatetime.shown(level) {
                self.start_datetime
            } else {
                None
            },
            end_datetime: if BookingField::EndDatetime.shown(level) {
                self.end_datetime
            } else {
                None
            },
            created_at: if BookingField::CreatedAt.shown(level) {
                self.created_at
            } else {
                None
            },
            updated_at: if BookingField::UpdatedAt.shown(level) {
                self.updated_at
            } else {
                None
            },
        }
    }
}

impl Booking {
    /// The stored booking with every field present.
    pub open spec fn complete(self) -> BookingData {
        BookingData {
            id: Some(self.id),
            external_id: Some(self.external_id),
            property_id: Some(self.property_id),
            plattform_id: Some(self.plattform_id),
            payment_id: Some(self.payment_id),
            user_id: Some(self.user_id),
            num_adults: Some(self.num_adults),
            num_children: Some(self.num_children),
            booking_date: Some(self.booking_date),
            start_datetime: Some(self.start_datetime),
            end_datetime: Some(self.end_datetime),
            created_at: Some(self.created_at),
            updated_at: Some(self.updated_at),
        }
    }

    /// What `level` shows of the stored booking.
    pub open spec fn wire(self, level: DetailLevel) -> BookingData {
        self.complete().restricted(level)
    }

    /// What `level` shows of the stored booking.
    pub fn to_wire(&self, level: DetailLevel) -> (shown: BookingData)
        ensures
            shown == self.wire(level),
    {
        let complete = BookingData {
            id: Some(self.id),
            external_id: Some(self.external_id.clone()),
            property_id: Some(self.property_id),
            plattform_id: Some(self.plattform_id),
            payment_id: Some(self.payment_id),
            user_id: Some(self.user_id),
            num_adults: Some(self.num_adults),
            num_children: Some(self.num_children),
            booking_date: Some(self.booking_date),
            start_datetime: Some(self.start_datetime),
            end_datetime: Some(self.end_datetime),
            created_at: Some(self.created_at),
            updated_at: Some(self.updated_at),
        };
        complete.restrict(level)
    }

    /// What a caller at `level` may supply: nothing at `Cero`, else each record
    /// with the fields that the level does not let through taken out.
    pub open spec fn input_projection(records: Seq<BookingData>, level: DetailLevel) -> Seq<
        BookingData,
    > {
        if level is Cero {
            Seq::empty()
        } else {
            Seq::new(records.len(), |i: int| records[i].restricted(level))
        }
    }

    /// What a caller at `level` is shown: nothing at `Cero`, else of each booking
    /// the fields that the level lets through.
    pub open spec fn output_projection(records: Seq<Booking>, level: DetailLevel) -> Seq<
        BookingData,
    > {
        if level is Cero {
            Seq::empty()
        } else {
            Seq::new(records.len(), |i: int| records[i].wire(level))
        }
    }

    /// Trims what a caller supplies to what its level may supply. At `Cero` no
    /// record is left; at `Full` the records are returned as they came.
    pub fn filter_booking_data_input(booking_data: Vec<BookingData>, detail_level: DetailLevel) -> (kept:
        Vec<BookingData>)
        ensures
            kept@ == Booking::input_projection(booking_data@, detail_level),
    {
        match detail_level {
            DetailLevel::Cero => Vec::new(),
            DetailLevel::Full => {
                assert forall|i: int| 0 <= i < booking_data@.len() implies booking_data@[i]
                    == #[trigger] booking_data@[i].restricted(detail_level) by {}
                assert(booking_data@ =~= Booking::input_projection(booking_data@, detail_level));
                booking_data
            },
            _ => {
                let mut kept: Vec<BookingData> = Vec::new();
                let mut i: usize = 0;
                while i < booking_data.len()
                    invariant
                        0 <= i <= booking_data.len(),
                        kept@.len() == i,
                        forall|j: int|
                            0 <= j < i ==> #[trigger] kept@[j] == booking_data@[j].restricted(
                                detail_level,
                            ),
                    decreases booking_data.len() - i,
                {
                    kept.push(booking_data[i].restrict(detail_level));
                    i += 1;
                }
                assert(kept@ =~= Booking::input_projection(booking_data@, detail_level));
                kept
            },
        }
    }

    /// Trims stored bookings to what a caller's level may see. At `Cero` no record
    /// is returned, whatever was stored.
    pub fn filter_booking_data_output(booking_data: Vec<Booking>, detail_level: DetailLevel) -> (shown:
        Vec<BookingData>)
        ensures
            shown@ == Booking::output_projection(booking_data@, detail_level),
            detail_level is Cero ==> shown@.len() == 0,
    {
        if detail_level.ordinal() == 0 {
            return Vec::new();
        }
        let mut shown: Vec<BookingData> = Vec::new();
        let mut i: usize = 0;
        while i < booking_data.len()
            invariant
                0 <= i <= booking_data.len(),
                shown@.len() == i,
                forall|j: int| 0 <= j < i ==> #[trigger] shown@[j] == booking_data@[j].wire(detail_level),
            decreases booking_data.len() - i,
        {
            shown.push(booking_data[i].to_wire(detail_level));
            i += 1;
        }
        assert(shown@ =~= Booking::output_projection(booking_data@, detail_level));
        shown
    }
}

/// A higher level lets through every field that a lower level lets through.
pub proof fn lemma_booking_visibility_grows(field: BookingField, lower: DetailLevel, higher: DetailLevel)
    requires
        lower.rank() <= higher.rank(),
    ensures
        field.visible(lower) ==> field.visible(higher),
{
}

/// Of one booking, a higher level shows every field that a lower level shows.
pub proof fn lemma_booking_output_grows(booking: Booking, lower: DetailLevel, higher: DetailLevel)
    requires
        lower.rank() < higher.rank(),
    ensures
        booking.wire(lower).fields().subset_of(booking.wire(higher).fields()),
{
    assert forall|field: BookingField| booking.wire(lower).fields().contains(field) implies booking.wire(
        higher,
    ).fields().contains(field) by {
        assert(booking.wire(lower).has(field));
        assert(booking.wire(higher).has(field));
    }
}

/// Of one supplied record, a higher level keeps every field that a lower level keeps.
pub proof fn lemma_booking_input_grows(data: BookingData, lower: DetailLevel, higher: DetailLevel)
    requires
        lower.rank() < higher.rank(),
    ensures
        data.restricted(lower).fields().subset_of(data.restricted(higher).fields()),
{
    assert forall|field: BookingField| data.restricted(lower).fields().contains(field) implies data.restricted(
        higher,
    ).fields().contains(field) by {
        assert(data.restricted(lower).has(field));
        assert(data.restricted(higher).has(field));
    }
}

/// Trimming twice at one level gives what trimming once gives.
pub proof fn lemma_booking_input_idempotent(records: Seq<BookingData>, level: DetailLevel)
    ensures
        Booking::input_projection(Booking::input_projection(records, level), level)
            == Booking::input_projection(records, level),
{
    let once = Booking::input_projection(records, level);
    let twice = Booking::input_projection(once, level);
    if !(level is Cero) {
        assert forall|i: int| 0 <= i < once.len() implies twice[i] == once[i] by {
            assert(records[i].restricted(level).restricted(level) == records[i].restricted(level));
        }
    }
    assert(twice =~= once);
}

/// What is shown of stored bookings is left unchanged by trimming it again at
/// the same level.
pub proof fn lemma_booking_output_idempotent(records: Seq<Booking>, level: DetailLevel)
    ensures
        Booking::input_projection(Booking::output_projection(records, level), level)
            == Booking::output_projection(records, level),
{
    let once = Booking::output_projection(records, level);
    let twice = Booking::input_projection(once, level);
    if !(level is Cero) {
        assert forall|i: int| 0 <= i < once.len() implies twice[i] == once[i] by {
            assert(records[i].wire(level).restricted(level) == records[i].wire(level));
        }
    }
    assert(twice =~= once);
}

} // verus!
