pub mod emoji;
pub mod outcome;
pub mod query;
pub mod routes;
