//! Verified core of a terminal client for Linear custom views: the commands
//! and the state changes they make, the dashboard's slots and panels, the
//! bookkeeping of paged requests and issue updates, selection movement, text
//! entry, column layout and the tables drawn from issues and views, due
//! dates, and the configuration rules.

pub mod app;
pub mod util;
pub mod components;
pub mod linear;
pub mod constants;
pub mod errors;
pub mod graphql;
pub mod command;
pub mod dashboard;
pub mod dispatch;
