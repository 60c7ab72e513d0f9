//! What the library asks of the relational store, and what the store answers.
//!
//! The library never reaches the store itself. It says what it needs as a
//! [`Request`]; whoever holds the connection performs it and hands back the
//! matching [`Reply`].

use vstd::prelude::*;
use crate::booking::{Booking, BookingData};
use crate::calendar::{Calendar, CalendarData};
use crate::error::Error;
use crate::filter::{ListQuery, Predicate};
use crate::role::Role;
use crate::user::{User, UserData};

verus! {

/// Why the store did not do what was asked.
#[derive(Clone, Copy, Debug, PartialEq, Eq, Structural, Hash)]
pub enum StoreError {
    /// No row matched.
    NotFound,
    /// A uniqueness or reference constraint refused the write.
    Constraint,
    /// The store could not be reached, or did not answer in time.
    Unavailable,
}

impl StoreError {
    /// The failure that a caller is told of.
    pub open spec fn reported(self) -> Error {
        match self {
            StoreError::NotFound => Error::NotFound,
            StoreError::Constraint => Error::ConstraintError,
            StoreError::Unavailable => Error::StorageUnavailable,
        }
    }

    /// The failure that a caller is told of.
    pub fn to_error(self) -> (error: Error)
        ensures
            error == self.reported(),
    {
        match self {
            StoreError::NotFound => Error::NotFound,
            StoreError::Constraint => Error::ConstraintError,
            StoreError::Unavailable => Error::StorageUnavailable,
        }
    }
}

/// One statement for the store.
#[derive(Debug, PartialEq, Eq)]
pub enum Request {
    /// Read the users that match.
    ListUsers(ListQuery),
    /// Read the roles that match.
    ListRoles(ListQuery),
    /// Read the bookings that match.
    ListBookings(ListQuery),
    /// Read the calendar rows that match.
    ListCalendar(ListQuery),
    /// Add a user.
    InsertUser(UserData),
    /// Add a booking.
    InsertBooking(BookingData),
    /// Add a calendar row.
    InsertCalendar(CalendarData),
    /// Write the present fields of `booking` to the bookings that match.
    UpdateBooking { booking: BookingData, filter: Predicate },
    /// Write the present fields of `row` to the calendar rows that match.
    UpdateCalendar { row: CalendarData, filter: Predicate },
    /// Set, on the calendar rows that match, whether the date is free and which
    /// booking holds it; `None` clears the reference.
    AssignCalendar { available: bool, booking_id: Option<i32>, filter: Predicate },
    /// Write the second-factor state of a user; `None` clears a text.
    SaveTfa {
        user_id: i32,
        enabled: bool,
        verified: bool,
        secret: Option<String>,
        auth_url: Option<String>,
    },
    /// Remove the booking with this id among those that match.
    DeleteBooking { id: i32, filter: Predicate },
    /// Remove the calendar row with this id among those that match.
    DeleteCalendar { id: i32, filter: Predicate },
}

/// What the store answers to one statement.
#[derive(Debug, PartialEq, Eq)]
pub enum Reply {
    Users(Result<Vec<User>, StoreError>),
    Roles(Result<Vec<Role>, StoreError>),
    Bookings(Result<Vec<Booking>, StoreError>),
    CalendarRows(Result<Vec<Calendar>, StoreError>),
    User(Result<User, StoreError>),
    Booking(Result<Booking, StoreError>),
    Calendar(Result<Calendar, StoreError>),
    Count(Result<usize, StoreError>),
}

} // verus!
