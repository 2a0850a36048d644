//! A single-credential verifier: a submitted username/password pair is
//! compared, byte for byte, against one fixed reference credential, and the
//! outcome is mapped to an HTTP status code and response body.

pub mod credentials;
pub mod response;
