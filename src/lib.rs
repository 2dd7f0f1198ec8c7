//! A small client for one bucket of an S3-compatible object store.
//!
//! A [`builder::Builder`] collects the bucket name, the key pair, the endpoint and the
//! region, checks that every required setting is there, and produces an
//! [`operator::Operator`]. The operator prepares the requests of the SDK for uploading,
//! downloading, deleting and listing objects, and turns what the service answered into
//! the error taxonomy of [`error`]. Listing across pages is driven by [`listing::Listing`].
pub mod builder;
pub mod error;
pub mod listing;
pub mod operator;
mod sdk;
