//! The query bridge between a football front-end and its database: the
//! records that cross the boundary, the statements the bridge issues, and the
//! rules by which replies from the database become results for the caller.

pub mod failures;
pub mod fixtures;
pub mod listing;
pub mod records;
pub mod rows;
pub mod sequences;
pub mod session;
pub mod statements;
pub mod teams;
