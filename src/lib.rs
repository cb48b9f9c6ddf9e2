//! Client-side engine of a CAS (Central Authentication Service) single sign-on
//! session: the login-form scraping, the authentication state machine and the
//! construction of service-ticket requests. The transport that sends the
//! requests lives outside this crate; it hands each answer back as an
//! [`http::HttpOutcome`].

pub mod error;
pub mod http;
pub mod scrape;
pub mod session;
