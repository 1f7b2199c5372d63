//! Reading the Stooq quote endpoint: its address and its CSV answer.

pub mod stooq_csv;
pub mod stooq_url;
