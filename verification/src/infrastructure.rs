//! The stores behind the aggregate: the event log, the read models derived from
//! it, and the processor that keeps the read models up to date.

pub mod agreement;
pub mod convergence;
pub mod event_processor;
pub mod event_store;
pub mod histories;
pub mod listing;
pub mod paging;
pub mod projections;
pub mod rows;
