//! A newsletter service: subscriber records read from a paginated key-value
//! table, filtered to the active subscribers, and addressed by blind copy in
//! one outbound email.
pub mod record;
pub mod scan;
pub mod dispatch;
pub mod registrar;
pub mod handler;
