//! A verified core for automating the dns-01 challenge against domains
//! hosted by one DNS provider's remote-call API.
//!
//! The library holds everything that decides: the call codec ([`rpc`]), the
//! session-scoped provider client with its paged zone resolution ([`inwx`]),
//! the credential selection and fallback rules ([`orchestrator`]), and the
//! alias chase and backoff polling of the verification side ([`dns`]).
//! Network work — the HTTP posts and DNS queries — stays with the caller,
//! who feeds each answer back into the state machines defined here.

pub mod config;
pub mod dns;
pub mod inwx;
pub mod numbers;
pub mod orchestrator;
pub mod rpc;
pub mod text;
