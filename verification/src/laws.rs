//! What the operations of the endpoint are for, stated across them: what is found again of
//! what was recorded, what a result has to do with what was asked, and how two calls relate.
pub mod arrivals;
pub mod bundles;
pub mod callers;
pub mod calls;
pub mod dispatches;
pub mod drivers;
pub mod introductions;
pub mod lists;
pub mod log;
pub mod markup;
pub mod operations;
pub mod orders;
pub mod peers;
pub mod processors;
pub mod records;
pub mod staging;
pub mod state;
pub mod surfaces;
pub mod tasks;
pub mod texts;
pub mod words;
