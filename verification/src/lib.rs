//! Building blocks of an OAuth 2.0 authorization server: the code grant flow
//! (decoding client requests, negotiating with a registrar, issuing
//! authorization codes and redeeming them for tokens) and a simple endpoint.
pub mod query;
pub mod time;
pub mod web_url;
pub mod code_grant;
pub mod frontends;
