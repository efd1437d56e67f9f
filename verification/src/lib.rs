//! A client library for the OVH REST API: signed requests, and typed access
//! to the DNS records of a zone and to the email redirections of a domain.
//!
//! The library computes and decides; it does not talk to the network, read
//! files or look at the clock. A call to the API is made in two halves: one
//! function gives the [`request::Request`] to send, another reads the
//! [`request::Reply`] that came back. What lies between the two, the
//! transport, is the caller's. The local time is an argument wherever it is
//! needed.
//!
//! - [`client`]: credentials, the offset between the local clock and the
//!   server's, and the signed requests for each HTTP verb.
//! - [`signature`]: the signature that the API asks for.
//! - [`config`] and [`endpoint`]: credentials from a configuration text,
//!   and the table of endpoints.
//! - [`dns_record`] and [`email_redir`]: the two families of entities.
//! - [`listing`]: joining the outcomes of one fetch per entity.
//! - [`request`], [`error`], [`json`], [`decimal`], [`text`]: what the
//!   others are made of.
//!
//! Contracts speak of texts as sequences of characters, and of each type
//! through its view.

pub mod client;
pub mod config;
pub mod decimal;
pub mod dns_record;
pub mod email_redir;
pub mod endpoint;
pub mod error;
pub mod json;
pub mod listing;
pub mod request;
pub mod signature;
pub mod text;
