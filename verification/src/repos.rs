//! One module per table group: each repository builds the statements it
//! sends and interprets what the database answers.
pub mod announcement_repository;
pub mod class_repository;
pub mod course_repository;
pub mod course_search;
pub mod registration_course_repository;
pub mod registration_repository;
pub mod submission_repository;
pub mod unread_announcement_repository;
pub mod user_repository;
