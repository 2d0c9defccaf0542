//! The authentication core of a clinic and shop management service, and the
//! small rules around it.
//!
//! Passwords are hashed and verified in [`credentials`]. Tokens are issued
//! and verified in [`token`], over the claims of [`claims`] laid out as the
//! JSON objects of [`json`]. The guards of [`guard`] admit or reject a
//! request by one header; [`login`] leads from a user name and a password to
//! a pair of tokens; [`config`] holds what the deployment configures.
//!
//! Around the core stand the records and requests ([`models`], [`structs`],
//! [`validation`], [`response`]), the calendar ([`calendar`]), uploads
//! ([`upload`]), what is sent to users ([`notify`]), orders ([`orders`]),
//! the database settings ([`database`]), the listening address
//! ([`server`]), and tools on texts and lists ([`common`], [`text`]).
//!
//! Nothing here reads the environment, a disk or a socket. The clock is
//! read in one place, and every function that reads it stands beside one
//! that takes the instant as an argument.

pub mod calendar;
pub mod claims;
mod clock;
pub mod common;
pub mod config;
pub mod credentials;
pub mod database;
pub mod guard;
pub mod json;
pub mod login;
pub mod models;
pub mod notify;
pub mod orders;
pub mod response;
pub mod server;
pub mod structs;
pub mod text;
pub mod token;
pub mod upload;
pub mod validation;
