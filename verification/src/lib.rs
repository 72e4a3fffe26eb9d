//! A small library of verified building blocks: arithmetic helpers, simple
//! data types, string utilities, and a minimal HTTP request responder whose
//! classification and response construction are proved correct.

pub mod adders;
pub mod basics;
pub mod boxes;
pub mod cafe;
pub mod coins;
pub(crate) mod console;
pub mod counters;
pub mod diner;
pub mod generics;
pub mod greetings;
pub mod guessing;
pub mod gui;
pub mod lifetimes;
pub mod ownership;
pub mod rectangles;
pub mod responder;
pub mod restaurant;
pub mod shoes;
pub mod slices;
pub mod summaries;
pub mod sums;
pub mod tracking;
pub mod users;
pub mod workouts;
