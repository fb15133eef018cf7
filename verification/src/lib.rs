//! Bearer-token authentication and layered query composition.
//!
//! A request is authenticated by a signed token of an identity provider:
//! [`token`] takes the token apart, [`verification`] judges it against the
//! provider's keys ([`keys`], [`refresh`], [`retry`]), and [`extractor`]
//! puts the verified identity into the scope of the request. Queries are
//! answered in layers: [`query`] holds the entry points, [`query_service`]
//! the surface they call, [`interactor`] the use cases and their rules,
//! [`repository`] the ports to persistence. [`composition`] binds the
//! layers and [`config`] reads the settings of a service.
//!
//! The crate does no I/O and reads no clock. Callers hand it header values,
//! fetched keys, repository answers and the current time, and it answers
//! with decisions. Of what it computes, two things are left to other
//! crates and taken on trust: whether a signature holds ([`signature`])
//! and what a JSON document says ([`json`]).

pub mod base64url;
pub mod composition;
pub mod config;
pub mod domain;
pub mod error;
pub mod extractor;
pub mod interactor;
pub mod json;
pub mod keys;
pub mod object;
pub mod query;
pub mod query_service;
pub mod refresh;
pub mod repository;
pub mod retry;
pub mod signature;
pub mod text;
pub mod token;
pub mod verification;
