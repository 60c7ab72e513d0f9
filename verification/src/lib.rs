//! Core of a reservation backend.
//!
//! Users book windows of time on a shared resource whose availability is kept
//! in a calendar. This library holds the rules of that service and none of its
//! plumbing:
//!
//! - [`filter`] turns query parameters into predicates and renders them with
//!   placeholders in place of values;
//! - [`booking`], [`calendar`] and [`user`] say what of a record each detail
//!   level lets through, [`api`] holds the levels and the envelope of answers;
//! - [`role`] decides whether a role may act, and [`middleware`] takes a request
//!   from its token to that decision;
//! - [`booking_service`] keeps bookings and calendar in step, and
//!   [`consistency`] shows why that works; [`calendar_service`] and
//!   [`user_service`] do the same for calendar rows and accounts;
//! - [`tfa`] is the second factor of a user, on top of [`otp`];
//!   [`credential`] hashes and checks passwords.
//!
//! The library never talks to the database or the network itself. Where an
//! operation needs the store, it says so as a [`store::Request`] and goes on
//! when it is handed the [`store::Reply`].

pub mod api;
pub mod auth;
pub mod booking;
pub mod booking_service;
pub mod calendar;
pub mod calendar_service;
pub mod consistency;
pub mod credential;
pub mod error;
pub mod filter;
pub mod middleware;
pub mod moment;
pub mod otp;
pub mod plattform;
pub mod role;
pub mod store;
pub mod text;
pub mod tfa;
pub mod user;
pub mod user_service;
