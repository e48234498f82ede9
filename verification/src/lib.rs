//! A small command backend: a greeting command and a demonstration SQL
//! command that classifies its input by keyword and answers with canned
//! JSON text.

pub mod json;
pub mod query;
pub mod text;
