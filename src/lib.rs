//! Console text, SQL statements and seed data for a walkthrough of a
//! version-controlled SQL database (Dolt): the decisions and the text are
//! computed here, the connection and the queries are made by the caller.
pub mod text;
pub mod calendar;
pub mod models;
pub mod statements;
pub mod report;
pub mod seed;
