//! Client library for a public time-lookup web service.
//!
//! A [`service::Client`] is bound to one of two endpoints and caches the
//! region list fetched at construction.  A lookup validates a small key
//! vocabulary, builds a request path of the form `base/area[/location[/region]]`,
//! and the remote JSON body is carried back as a [`schema::DateTimeJson`]
//! record.  All path construction and payload validation is verified; the
//! network transfer itself lives outside this crate.

pub mod schema;
pub mod service;
