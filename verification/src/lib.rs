//! Verified core of the Enclave mess-attendance service: the data model shared by
//! server and client, the meal-availability and attendance rules, the sign-up and
//! sign-in flows, the storage row codecs and the HTTP answer mapping.

pub mod api;
pub mod attendance;
pub mod auth;
pub mod calendar;
pub mod client;
pub mod meals;
pub mod model;
pub mod storage;
pub mod text;
