//! Reading values out of a table store's records.
//!
//! A stored record maps attribute names to tagged values. This library turns
//! such records into plain text records, and decides what each of the store's
//! operations reports from the response that the store handed back.
pub mod attribute;
pub mod record;
pub mod operation;
