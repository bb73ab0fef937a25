//! Credential exchange and project lookup for the Hetzner Cloud console.
//!
//! The library turns the credentials of an account into a bearer token for the API of
//! the cloud, and resolves the name of a project to its identifier. It performs no
//! request itself: it says what to send and reads what came back.

pub mod acquirer;
pub mod browser;
pub mod cookie;
pub mod endpoints;
pub mod failure;
pub mod first;
pub mod form;
pub mod http;
pub mod json;
pub mod login;
pub mod oauth;
pub mod projects;
pub mod redirect;
pub mod text;
pub mod token;
