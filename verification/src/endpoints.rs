//! The addresses and fixed parameters of the identity provider, the console and the API.

use vstd::prelude::*;

verus! {

/// The page on which the identity provider asks for credentials.
pub const LOGIN_URL: &'static str = "https://accounts.hetzner.com/login";

/// Where the login form is submitted.
pub const LOGIN_CHECK_URL: &'static str = "https://accounts.hetzner.com/login_check";

/// The identity provider's authorize endpoint.
pub const AUTHORIZE_URL: &'static str = "https://accounts.hetzner.com/oauth/authorize";

/// The origin of the console, to which a successful login redirects.
pub const CONSOLE_URL: &'static str = "https://console.hetzner.cloud";

/// The page of the console to which the identity provider sends a browser back.
pub const CONSOLE_ENTRY_URL: &'static str = "https://console.hetzner.cloud/";

/// The endpoint of the API that issues bearer tokens.
pub const TOKENS_URL: &'static str = "https://api.hetzner.cloud/v1/_tokens";

/// The endpoint of the API that lists, creates and deletes projects.
pub const PROJECTS_URL: &'static str = "https://api.hetzner.cloud/v1/_projects";

/// How many entries one page of the project listing holds.
pub const PER_PAGE: u32 = 25;

} // verus!
