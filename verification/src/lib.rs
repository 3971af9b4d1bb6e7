//! Decisions and texts of a scaffolding tool for starter projects: reading
//! the command line, the catalog of templates, the order of the questions
//! asked, the clone to run and the advice printed afterwards.

pub mod advice;
pub mod args;
pub mod catalog;
pub mod paint;
pub mod remote;
pub mod screens;
pub mod session;
pub mod style;
pub mod text;
