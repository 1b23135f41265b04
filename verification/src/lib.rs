//! Output adaptation for a payment-node control API client: converts the
//! node's structured payment records and pagination cursors into flat,
//! display-oriented records and renders them as JSON text in which every
//! absent optional field is omitted rather than written as null.

pub mod display;
pub mod hex;
pub mod json;
pub mod laws;
pub mod records;
pub mod text;
