//! Request construction and pagination core of a blob-storage client.
pub mod decimal;
pub mod error;
pub mod response;
pub mod request;
pub mod query;
pub mod list_builder;
pub mod listing;
pub mod typestate;
pub mod renew_lease_builder;
