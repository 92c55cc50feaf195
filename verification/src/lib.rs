//! Sign-in with Google by the OAuth2 authorization-code grant, as a verified
//! core without I/O.
//!
//! The crate decides and computes; the host performs. [`config`] turns raw
//! settings into a checked [`config::ClientConfig`], [`authorize`] builds the
//! redirect that sends a visitor to the provider, [`callback`] is the state
//! machine that leads a returning visitor from the authorization code to the
//! profile, and [`profile`] reads the profile out of the provider's answer.
//! Every network call is described by an action that the host carries out and
//! answers with an event.

pub mod authorize;
pub mod callback;
pub mod config;
pub mod error;
pub mod profile;
