//! Verified statement building and result interpretation for the data
//! access layer of a course-registration web application.

pub mod decimal;
pub mod error;
pub mod keywords;
pub mod models;
pub mod repos;
pub mod statement;
pub mod storages;

