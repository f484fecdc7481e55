pub mod ieee;
pub mod record;
pub mod row;
pub mod schema;
pub mod seed;
pub mod statements;

pub use record::NycTripsTable;
