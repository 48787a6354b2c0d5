//! Network time synchronisation: decoding a time server's reply line into an
//! absolute UTC instant, and the decisions of the periodic sync loop and of
//! the service lifecycle around it.

pub mod calendar;
pub mod instant;
pub mod lifecycle;
pub mod reply;
pub mod schedule;
