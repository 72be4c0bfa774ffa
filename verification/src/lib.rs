//! Certificate-authority core of the Driptorch controller.
//!
//! The controller fronts a fleet of proxies and clients that speak
//! mutually-authenticated TLS.  This crate holds the part of the controller
//! that has to be right: bootstrapping the self-signed root of trust, deriving
//! the two purpose-specific intermediate authorities (one for proxies, one for
//! clients), and persisting the resulting certificates together with
//! envelope-encrypted private keys so that no plaintext key material is ever
//! at rest.  HTTP routing, account management and the message-broker transport
//! are outside collaborators and live outside this crate.

pub mod bootstrap;
pub mod cert;
pub mod custody;
pub mod forms;
pub mod sessions;
pub mod store;
pub mod util;
pub mod pki;
